use vstd::prelude::*;

verus! {

/// Request methods as the gates tell them apart.
#[derive(Debug, Clone, Copy, PartialEq, Eq, Structural)]
pub enum HttpMethod {
    Get,
    Head,
    Options,
    Trace,
    Post,
    Put,
    Patch,
    Delete,
    Connect,
    Other,
}

impl HttpMethod {
    /// Methods that may change server state: every method but the safe ones.
    pub open spec fn mutates(&self) -> bool {
        !(*self is Get || *self is Head || *self is Options || *self is Trace)
    }

    pub fn is_mutating(&self) -> (r: bool)
        ensures
            r == self.mutates(),
    {
        match self {
            HttpMethod::Get | HttpMethod::Head | HttpMethod::Options | HttpMethod::Trace => false,
            _ => true,
        }
    }
}

/// Why a request was turned away, with the status and error text it is
/// answered with.
#[derive(Debug, Clone, Copy, PartialEq, Eq, Structural)]
pub enum Rejection {
    MissingCsrf,
    InvalidCsrf,
    AuthenticationRequired,
    InvalidSession,
    EmailExists,
    InvalidCredentials,
}

impl Rejection {
    pub open spec fn status_spec(&self) -> u16 {
        match self {
            Rejection::EmailExists => 409,
            _ => 401,
        }
    }

    pub open spec fn message_spec(&self) -> Seq<char> {
        match self {
            Rejection::MissingCsrf => "Missing CSRF token or session"@,
            Rejection::InvalidCsrf => "Invalid CSRF token"@,
            Rejection::AuthenticationRequired => "Authentication required"@,
            Rejection::InvalidSession => "Invalid session"@,
            Rejection::EmailExists => "Email already exists"@,
            Rejection::InvalidCredentials => "Invalid credentials"@,
        }
    }

    /// The HTTP status of the rejection.
    pub fn status(&self) -> (r: u16)
        ensures
            r == self.status_spec(),
    {
        match self {
            Rejection::EmailExists => 409,
            _ => 401,
        }
    }

    /// The text of the `error` field of the JSON body.
    pub fn message(&self) -> (r: String)
        ensures
            r@ == self.message_spec(),
    {
        match self {
            Rejection::MissingCsrf => "Missing CSRF token or session".to_owned(),
            Rejection::InvalidCsrf => "Invalid CSRF token".to_owned(),
            Rejection::AuthenticationRequired => "Authentication required".to_owned(),
            Rejection::InvalidSession => "Invalid session".to_owned(),
            Rejection::EmailExists => "Email already exists".to_owned(),
            Rejection::InvalidCredentials => "Invalid credentials".to_owned(),
        }
    }
}

/// What a gate does with a request.
#[derive(Debug, Clone, Copy, PartialEq, Eq, Structural)]
pub enum GateVerdict {
    /// Hand the request on unchanged.
    Forward,
    /// Hand the request on with the resolved user id attached.
    ForwardAs(i64),
    /// Answer with the rejection and stop.
    Reject(Rejection),
}

/// The text of an optional string value.
pub open spec fn text_of(value: Option<String>) -> Option<Seq<char>> {
    match value {
        Some(s) => Some(s@),
        None => None,
    }
}

} // verus!
