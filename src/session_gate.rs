use vstd::prelude::*;

use crate::auth_repository::{session_held_by, session_live, session_unexpired, AuthError, MemoryAuthRepository};
use crate::http::{text_of, GateVerdict, Rejection};
use crate::models::Session;

verus! {

/// Whether `path` is on the exemption list, matched exactly.
pub open spec fn path_exempt(ignored: Seq<String>, path: Seq<char>) -> bool {
    exists|i: int| 0 <= i < ignored.len() && #[trigger] ignored[i]@ == path
}

/// The session gate's verdict on a request to `path`, given the sessions
/// stored at time `now`: `ForwardAs(user)` names the resolved user.
pub open spec fn session_gate_allows(
    ignored: Seq<String>,
    path: Seq<char>,
    session_cookie: Option<Seq<char>>,
    sessions: Seq<Session>,
    now: int,
    verdict: GateVerdict,
) -> bool {
    if path_exempt(ignored, path) {
        verdict == GateVerdict::Forward
    } else {
        match session_cookie {
            None => verdict == GateVerdict::Reject(Rejection::AuthenticationRequired),
            Some(token) => match verdict {
                GateVerdict::ForwardAs(user_id) => session_held_by(sessions, token, now, user_id),
                GateVerdict::Reject(rejection) => rejection == Rejection::InvalidSession && !session_live(sessions, token, now),
                GateVerdict::Forward => false,
            },
        }
    }
}

/// What the session gate needs from the store for a request.
pub enum SessionCheck {
    /// Nothing: the path is exempt.
    Bypass,
    /// Nothing: there is no session cookie and the request is refused.
    Missing,
    /// The store must resolve the cookie's token.
    Validate { token: String },
}

/// Factory of the session gate, with its list of exempt paths.
pub struct SessionProtection {
    ignored_paths: Vec<String>,
}

impl SessionProtection {
    pub closed spec fn ignored(&self) -> Seq<String> {
        self.ignored_paths@
    }

    /// A gate that exempts no path.
    pub fn new() -> (r: SessionProtection)
        ensures
            r.ignored().len() == 0,
    {
        SessionProtection { ignored_paths: Vec::new() }
    }

    /// The same gate, exempting exactly `paths`.
    pub fn ignore(self, paths: Vec<String>) -> (r: SessionProtection)
        ensures
            r.ignored() == paths@,
    {
        SessionProtection { ignored_paths: paths }
    }

    /// The middleware itself, ready to wrap a handler.
    pub fn new_transform(&self) -> (r: SessionMiddleware)
        ensures
            r.ignored() == self.ignored(),
    {
        SessionMiddleware { ignored_paths: self.ignored_paths.clone() }
    }
}

/// Session gate: a request to a protected path passes only with a session
/// cookie whose token resolves to a live session, and carries on the id of
/// the session's owner.
pub struct SessionMiddleware {
    ignored_paths: Vec<String>,
}

impl SessionMiddleware {
    pub closed spec fn ignored(&self) -> Seq<String> {
        self.ignored_paths@
    }

    /// Whether `path` is exempt from the session check.
    pub fn is_exempt(&self, path: &str) -> (r: bool)
        ensures
            r == path_exempt(self.ignored(), path@),
    {
        let wanted: String = path.to_owned();
        let mut i: usize = 0;
        while i < self.ignored_paths.len()
            invariant
                i <= self.ignored_paths@.len(),
                wanted@ == path@,
                forall|j: int| 0 <= j < i ==> #[trigger] self.ignored_paths@[j]@ != path@,
            decreases self.ignored_paths@.len() - i,
        {
            if self.ignored_paths[i] == wanted {
                assert(self.ignored()[i as int]@ == path@);
                return true;
            }
            i = i + 1;
        }
        false
    }

    /// Decides what the request needs before the store is consulted.
    pub fn inspect(&self, path: &str, session_cookie: Option<String>) -> (r: SessionCheck)
        ensures
            path_exempt(self.ignored(), path@) ==> r is Bypass,
            !path_exempt(self.ignored(), path@) ==> match session_cookie {
                Some(token) => r == (SessionCheck::Validate { token }),
                None => r is Missing,
            },
    {
        if self.is_exempt(path) {
            return SessionCheck::Bypass;
        }
        match session_cookie {
            Some(token) => SessionCheck::Validate { token },
            None => SessionCheck::Missing,
        }
    }

    /// The verdict, given the store's answer for a `Validate` check.
    pub fn verdict(&self, check: &SessionCheck, validation: Result<i64, AuthError>) -> (r: GateVerdict)
        ensures
            r == match check {
                SessionCheck::Bypass => GateVerdict::Forward,
                SessionCheck::Missing => GateVerdict::Reject(Rejection::AuthenticationRequired),
                SessionCheck::Validate { .. } => match validation {
                    Ok(user_id) => GateVerdict::ForwardAs(user_id),
                    Err(_) => GateVerdict::Reject(Rejection::InvalidSession),
                },
            },
    {
        match check {
            SessionCheck::Bypass => GateVerdict::Forward,
            SessionCheck::Missing => GateVerdict::Reject(Rejection::AuthenticationRequired),
            SessionCheck::Validate { .. } => match validation {
                Ok(user_id) => GateVerdict::ForwardAs(user_id),
                Err(_) => GateVerdict::Reject(Rejection::InvalidSession),
            },
        }
    }

    /// Runs the middleware against the in-memory store at time `now`. The store is
    /// swept only when a token had to be resolved.
    pub fn call(&self, repo: &mut MemoryAuthRepository, path: &str, session_cookie: Option<String>, now: i64) -> (r: GateVerdict)
        requires
            old(repo).wf(),
        ensures
            final(repo).wf(),
            session_gate_allows(self.ignored(), path@, text_of(session_cookie), old(repo).sessions_view(), now as int, r),
            final(repo).users_view() == old(repo).users_view(),
            final(repo).temp_sessions_view() == old(repo).temp_sessions_view(),
            path_exempt(self.ignored(), path@) || session_cookie is None ==> final(repo).sessions_view()
                == old(repo).sessions_view(),
            !path_exempt(self.ignored(), path@) && session_cookie is Some ==> final(repo).sessions_view()
                == old(repo).sessions_view().filter(session_unexpired(now as int)),
    {
        let check = self.inspect(path, session_cookie);
        let validation = match &check {
            SessionCheck::Validate { token } => repo.validate_session_at(token.as_str(), now),
            _ => Err(AuthError::InvalidSession),
        };
        self.verdict(&check, validation)
    }
}

/// A path on the exemption list is let through with no cookie at all.
pub proof fn lemma_exempt_path_needs_no_cookie(ignored: Seq<String>, path: Seq<char>, sessions: Seq<Session>, now: int)
    requires
        path_exempt(ignored, path),
    ensures
        session_gate_allows(ignored, path, None, sessions, now, GateVerdict::Forward),
        forall|v: GateVerdict| session_gate_allows(ignored, path, None, sessions, now, v) ==> v == GateVerdict::Forward,
{
}

} // verus!
