use vstd::prelude::*;

use crate::auth_repository::{csrf_pair_live, temp_unexpired, AuthError, MemoryAuthRepository};
use crate::clock::TEMP_SESSION_TTL_MS;
use crate::http::{text_of, GateVerdict, HttpMethod, Rejection};
use crate::models::TempSession;

verus! {

/// The CSRF gate's verdict on a request, given the pre-authentication
/// records stored at time `now`.
pub open spec fn csrf_gate_spec(
    mutating: bool,
    session_cookie: Option<Seq<char>>,
    csrf_header: Option<Seq<char>>,
    temps: Seq<TempSession>,
    now: int,
) -> GateVerdict {
    if !mutating {
        GateVerdict::Forward
    } else {
        match (session_cookie, csrf_header) {
            (Some(session_id), Some(csrf_token)) => if csrf_pair_live(temps, session_id, csrf_token, now) {
                GateVerdict::Forward
            } else {
                GateVerdict::Reject(Rejection::InvalidCsrf)
            },
            _ => GateVerdict::Reject(Rejection::MissingCsrf),
        }
    }
}

/// What the CSRF gate needs from the store for a request.
pub enum CsrfCheck {
    /// Nothing: the request passes.
    PassThrough,
    /// Nothing: the cookie or the header is missing and the request is refused.
    Missing,
    /// The store must confirm that the pair is live.
    Validate { session_id: String, csrf_token: String },
}

/// Factory of the CSRF gate, installed around the whole application.
pub struct CsrfProtection {}

impl CsrfProtection {
    pub fn new() -> (r: CsrfProtection) {
        CsrfProtection {  }
    }

    /// The middleware itself, ready to wrap a handler.
    pub fn new_transform(&self) -> (r: CsrfMiddleware) {
        CsrfMiddleware {  }
    }
}

/// Double-submit CSRF gate: a mutating request passes only with a session
/// cookie and an `x-csrf-token` header that a live pre-authentication record
/// binds together.
pub struct CsrfMiddleware {}

impl CsrfMiddleware {
    /// Decides what the request needs before the store is consulted.
    pub fn inspect(&self, method: HttpMethod, session_cookie: Option<String>, csrf_header: Option<String>) -> (r: CsrfCheck)
        ensures
            !method.mutates() ==> r is PassThrough,
            method.mutates() ==> match (session_cookie, csrf_header) {
                (Some(s), Some(c)) => r == (CsrfCheck::Validate { session_id: s, csrf_token: c }),
                _ => r is Missing,
            },
    {
        if !method.is_mutating() {
            return CsrfCheck::PassThrough;
        }
        match (session_cookie, csrf_header) {
            (Some(session_id), Some(csrf_token)) => CsrfCheck::Validate { session_id, csrf_token },
            _ => CsrfCheck::Missing,
        }
    }

    /// The verdict, given the store's answer for a `Validate` check.
    pub fn verdict(&self, check: &CsrfCheck, validation: Result<(), AuthError>) -> (r: GateVerdict)
        ensures
            r == match check {
                CsrfCheck::PassThrough => GateVerdict::Forward,
                CsrfCheck::Missing => GateVerdict::Reject(Rejection::MissingCsrf),
                CsrfCheck::Validate { .. } => if validation is Ok {
                    GateVerdict::Forward
                } else {
                    GateVerdict::Reject(Rejection::InvalidCsrf)
                },
            },
    {
        match check {
            CsrfCheck::PassThrough => GateVerdict::Forward,
            CsrfCheck::Missing => GateVerdict::Reject(Rejection::MissingCsrf),
            CsrfCheck::Validate { .. } => match validation {
                Ok(()) => GateVerdict::Forward,
                Err(_) => GateVerdict::Reject(Rejection::InvalidCsrf),
            },
        }
    }

    /// Runs the middleware against the in-memory store at time `now`. The store is
    /// swept only when a pair had to be validated.
    pub fn call(
        &self,
        repo: &mut MemoryAuthRepository,
        method: HttpMethod,
        session_cookie: Option<String>,
        csrf_header: Option<String>,
        now: i64,
    ) -> (r: GateVerdict)
        requires
            old(repo).wf(),
        ensures
            final(repo).wf(),
            r == csrf_gate_spec(
                method.mutates(),
                text_of(session_cookie),
                text_of(csrf_header),
                old(repo).temp_sessions_view(),
                now as int,
            ),
            final(repo).users_view() == old(repo).users_view(),
            final(repo).sessions_view() == old(repo).sessions_view(),
            !(method.mutates() && session_cookie is Some && csrf_header is Some) ==> final(repo).temp_sessions_view()
                == old(repo).temp_sessions_view(),
            method.mutates() && session_cookie is Some && csrf_header is Some ==> final(repo).temp_sessions_view()
                == old(repo).temp_sessions_view().filter(temp_unexpired(now as int)),
    {
        let check = self.inspect(method, session_cookie, csrf_header);
        let validation = match &check {
            CsrfCheck::Validate { session_id, csrf_token } => repo.validate_csrf_at(session_id.as_str(), csrf_token.as_str(), now),
            _ => Ok(()),
        };
        self.verdict(&check, validation)
    }
}

/// A pair issued at `issued.created_at` lets a mutating request through
/// during the five minutes that follow.
pub proof fn lemma_issued_pair_accepted(temps: Seq<TempSession>, issued: TempSession, now: int)
    requires
        temps.contains(issued),
        issued.expires_at == issued.created_at + TEMP_SESSION_TTL_MS,
        issued.created_at <= now < issued.created_at + TEMP_SESSION_TTL_MS,
    ensures
        csrf_gate_spec(true, Some(issued.session_id@), Some(issued.csrf_token@), temps, now) == GateVerdict::Forward,
{
    assert(issued.live_at(now));
}

/// Once five minutes have passed since issue, the issued pair is refused:
/// the store keeps session ids unique, so no other record can answer for it.
pub proof fn lemma_issued_pair_expires(repo: MemoryAuthRepository, issued: TempSession, now: int)
    requires
        repo.wf(),
        repo.temp_sessions_view().contains(issued),
        issued.expires_at == issued.created_at + TEMP_SESSION_TTL_MS,
        now >= issued.created_at + TEMP_SESSION_TTL_MS,
    ensures
        csrf_gate_spec(true, Some(issued.session_id@), Some(issued.csrf_token@), repo.temp_sessions_view(), now)
            == GateVerdict::Reject(Rejection::InvalidCsrf),
{
    let temps = repo.temp_sessions_view();
    if csrf_pair_live(temps, issued.session_id@, issued.csrf_token@, now) {
        let t = choose|t: TempSession|
            #![trigger temps.contains(t)]
            temps.contains(t) && t.session_id@ == issued.session_id@ && t.csrf_token@ == issued.csrf_token@ && t.live_at(now);
        assert(t == issued);
    }
}

/// A request that alters either value of an issued pair is refused: session
/// ids and CSRF tokens are each carried by one record only.
pub proof fn lemma_altered_pair_rejected(
    repo: MemoryAuthRepository,
    issued: TempSession,
    session_id: Seq<char>,
    csrf_token: Seq<char>,
    now: int,
)
    requires
        repo.wf(),
        repo.temp_sessions_view().contains(issued),
        session_id == issued.session_id@ || csrf_token == issued.csrf_token@,
        session_id != issued.session_id@ || csrf_token != issued.csrf_token@,
    ensures
        csrf_gate_spec(true, Some(session_id), Some(csrf_token), repo.temp_sessions_view(), now)
            == GateVerdict::Reject(Rejection::InvalidCsrf),
{
    let temps = repo.temp_sessions_view();
    if csrf_pair_live(temps, session_id, csrf_token, now) {
        let t = choose|t: TempSession|
            #![trigger temps.contains(t)]
            temps.contains(t) && t.session_id@ == session_id && t.csrf_token@ == csrf_token && t.live_at(now);
        assert(t == issued);
    }
}

/// Once the sweep has removed every record carrying a session id, a request
/// with that id is refused whatever token it carries.
pub proof fn lemma_swept_pair_rejected(temps: Seq<TempSession>, session_id: Seq<char>, csrf_token: Seq<char>, now: int)
    requires
        forall|t: TempSession| #[trigger] temps.contains(t) ==> t.session_id@ != session_id,
    ensures
        csrf_gate_spec(true, Some(session_id), Some(csrf_token), temps, now) == GateVerdict::Reject(Rejection::InvalidCsrf),
{
}

/// A sweep at or after a record's expiry leaves no live record for it; one
/// strictly after removes the record itself.
pub proof fn lemma_sweep_removes_expired(temps: Seq<TempSession>, issued: TempSession, now: int)
    requires
        now > issued.expires_at,
    ensures
        !temps.filter(temp_unexpired(now)).contains(issued),
{
    crate::seq_filter::lemma_filter_within(temps, temp_unexpired(now));
}

} // verus!
