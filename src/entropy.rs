use vstd::prelude::*;

verus! {

/// Number of random bytes behind each CSRF token.
pub const CSRF_TOKEN_BYTES: usize = 32;

/// The base64 text that the CSRF token type prints for the given bytes.
pub uninterp spec fn csrf_text_of(bytes: Seq<u8>) -> Seq<char>;

pub assume_specification<T>[ rand::random::<T> ]() -> (r: T)
    where
        rand::distributions::Standard: rand::distributions::Distribution<T>,
;

/// Relies on `uuid::Uuid::new_v4` and its `Display` impl, which writes the
/// hyphenated form of 36 characters.
#[verifier::external_body]
pub(crate) fn random_uuid_string() -> (r: String)
    ensures
        r@.len() == 36,
{
    uuid::Uuid::new_v4().to_string()
}

/// Relies on `csrf::CsrfToken::b64_string`: the standard padded base64
/// encoding of the token's bytes, four characters for every three bytes or
/// part of three.
#[verifier::external_body]
fn csrf_token_text(bytes: Vec<u8>) -> (r: String)
    ensures
        r@ == csrf_text_of(bytes@),
        r@.len() == 4 * ((bytes@.len() + 2) / 3),
{
    csrf::CsrfToken::new(bytes).b64_string()
}

/// Thirty-two fresh random bytes, encoded as a CSRF token.
pub fn new_csrf_token() -> (r: String)
    ensures
        exists|bytes: Seq<u8>| bytes.len() == CSRF_TOKEN_BYTES && r@ == csrf_text_of(bytes),
        r@.len() == 44,
{
    let mut bytes: Vec<u8> = Vec::new();
    let mut i: usize = 0;
    while i < CSRF_TOKEN_BYTES
        invariant
            i <= CSRF_TOKEN_BYTES,
            bytes@.len() == i,
        decreases CSRF_TOKEN_BYTES - i,
    {
        let b: u8 = rand::random::<u8>();
        bytes.push(b);
        i = i + 1;
    }
    let ghost drawn = bytes@;
    let token = csrf_token_text(bytes);
    assert(drawn.len() == CSRF_TOKEN_BYTES && token@ == csrf_text_of(drawn));
    token
}

} // verus!
