use vstd::prelude::*;

use crate::auth_repository::{credentials_accepted, email_taken, session_token_other_than, temp_values_fresh, user_exists, AuthError, MemoryAuthRepository};
use crate::clock::{LATEST_CREATION_MS, SESSION_TTL_MS, TEMP_SESSION_TTL_MS};
use crate::password::MAX_PASSWORD_CHARS;
use crate::entropy::{csrf_text_of, new_csrf_token, CSRF_TOKEN_BYTES};
use crate::http::Rejection;
use crate::models::{Session, TempSession, User};

verus! {

/// Body of the CSRF token reply.
pub struct TokenResponse {
    pub csrf_token: String,
}

/// Body of a registration request.
pub struct RegisterRequest {
    pub email: String,
    pub password: String,
}

/// Body of a login request.
pub struct LoginRequest {
    pub email: String,
    pub password: String,
}

/// Body of a successful registration or login.
pub struct LoginResponse {
    pub uuid: String,
    pub email: String,
}

impl LoginResponse {
    pub fn new(user: &User) -> (r: LoginResponse)
        ensures
            r.uuid == user.uuid,
            r.email == user.email,
    {
        LoginResponse { uuid: user.uuid.clone(), email: user.email.clone() }
    }
}

/// How an authentication endpoint answers.
pub enum AuthReply {
    /// `status` with the account as body and the `session_id` cookie set
    /// (http-only, secure, SameSite=Strict).
    Account { status: u16, session_id: String, account: LoginResponse },
    /// The rejection's status with `{"error": message}` as body.
    Rejected(Rejection),
    /// 500 with an empty body.
    ServerError,
    /// 200 with an empty body, clearing the session cookie when one was sent.
    LoggedOut { clear_cookie: bool },
}

/// The reply that logs a client in with `session_id` as cookie.
pub fn create_auth_response(user: &User, session_id: String, status: u16) -> (r: AuthReply)
    ensures
        r == (AuthReply::Account {
            status,
            session_id,
            account: LoginResponse { uuid: user.uuid, email: user.email },
        }),
{
    AuthReply::Account { status, session_id, account: LoginResponse::new(user) }
}

/// Issues a fresh CSRF token bound to a new pre-authentication record; the
/// record's session id goes out as cookie and the token as body.
pub fn get_csrf_token(repo: &mut MemoryAuthRepository) -> (r: Result<TempSession, AuthError>)
    requires
        old(repo).wf(),
    ensures
        final(repo).wf(),
        final(repo).users_view() == old(repo).users_view(),
        final(repo).sessions_view() == old(repo).sessions_view(),
        match r {
            Ok(t) => {
                &&& t.csrf_token@.len() > 0
                &&& temp_values_fresh(old(repo).temp_sessions_view(), t.session_id@, t.csrf_token@)
                &&& exists|bytes: Seq<u8>| bytes.len() == CSRF_TOKEN_BYTES && t.csrf_token@ == csrf_text_of(bytes)
                &&& t.expires_at == t.created_at + TEMP_SESSION_TTL_MS
                &&& final(repo).temp_sessions_view() == old(repo).temp_sessions_view().push(t)
            },
            Err(e) => e == AuthError::DatabaseError && *final(repo) == *old(repo),
        },
{
    let token = new_csrf_token();
    repo.create_temp_session(token)
}

/// The registration reply, given how storing the account went and, for a
/// stored account, whether its session was stored too.
pub fn registration_reply(created: &Result<User, AuthError>, session_stored: bool, session_id: String) -> (r: AuthReply)
    ensures
        r == match created {
            Ok(user) => if session_stored {
                AuthReply::Account {
                    status: 201,
                    session_id,
                    account: LoginResponse { uuid: user.uuid, email: user.email },
                }
            } else {
                AuthReply::ServerError
            },
            Err(AuthError::DuplicateEmail) => AuthReply::Rejected(Rejection::EmailExists),
            Err(_) => AuthReply::ServerError,
        },
{
    match created {
        Ok(user) => if session_stored {
            create_auth_response(user, session_id, 201)
        } else {
            AuthReply::ServerError
        },
        Err(AuthError::DuplicateEmail) => AuthReply::Rejected(Rejection::EmailExists),
        Err(_) => AuthReply::ServerError,
    }
}

/// The login reply, given how the credential check went and, for accepted
/// credentials, whether the session was stored.
pub fn login_reply(verified: &Result<User, AuthError>, session_stored: bool, session_id: String) -> (r: AuthReply)
    ensures
        r == match verified {
            Ok(user) => if session_stored {
                AuthReply::Account {
                    status: 200,
                    session_id,
                    account: LoginResponse { uuid: user.uuid, email: user.email },
                }
            } else {
                AuthReply::ServerError
            },
            Err(AuthError::InvalidCredentials) => AuthReply::Rejected(Rejection::InvalidCredentials),
            Err(_) => AuthReply::ServerError,
        },
{
    match verified {
        Ok(user) => if session_stored {
            create_auth_response(user, session_id, 200)
        } else {
            AuthReply::ServerError
        },
        Err(AuthError::InvalidCredentials) => AuthReply::Rejected(Rejection::InvalidCredentials),
        Err(_) => AuthReply::ServerError,
    }
}

/// Whether a session carrying `token` with `csrf_token` belongs to `user_id`.
pub open spec fn holds_session(sessions: Seq<Session>, user_id: i64, token: Seq<char>, csrf_token: Seq<char>) -> bool {
    exists|s: Session|
        #![trigger sessions.contains(s)]
        sessions.contains(s) && s.user_id == user_id && s.token@ == token && s.csrf_token@ == csrf_token
}

/// Whether both an account id and a session id can still be handed out.
pub open spec fn two_free_ids(repo: MemoryAuthRepository) -> bool {
    repo.next_id_view() + 1 < i64::MAX
}

/// Creates the account, then promotes the pre-authentication session, both
/// stamped `now`: 201 with the account, 409 for a taken email, 500 for any
/// other failure.
pub fn register(
    repo: &mut MemoryAuthRepository,
    request: RegisterRequest,
    session_id: String,
    csrf_token: String,
    now: i64,
) -> (r: AuthReply)
    requires
        old(repo).wf(),
    ensures
        final(repo).wf(),
        final(repo).temp_sessions_view() == old(repo).temp_sessions_view(),
        match r {
            AuthReply::Account { status, session_id: cookie, account } => {
                &&& status == 201
                &&& cookie == session_id
                &&& account.email == request.email
                &&& !email_taken(old(repo).users_view(), request.email@)
                &&& final(repo).users_view() == old(repo).users_view().push(final(repo).users_view().last())
                &&& final(repo).users_view().last().email == request.email
                &&& account.uuid == final(repo).users_view().last().uuid
                &&& holds_session(final(repo).sessions_view(), final(repo).users_view().last().id, session_id@, csrf_token@)
                &&& final(repo).sessions_view().contains(final(repo).sessions_view().last())
                &&& final(repo).sessions_view().last().token == session_id
                &&& final(repo).sessions_view().last().expires_at == now + SESSION_TTL_MS
            },
            AuthReply::Rejected(rejection) => {
                &&& rejection == Rejection::EmailExists
                &&& email_taken(old(repo).users_view(), request.email@)
                &&& final(repo).users_view() == old(repo).users_view()
                &&& final(repo).sessions_view() == old(repo).sessions_view()
            },
            AuthReply::ServerError => {
                &&& final(repo).sessions_view() == old(repo).sessions_view()
                &&& final(repo).users_view() == old(repo).users_view() || final(repo).users_view()
                    == old(repo).users_view().push(final(repo).users_view().last())
                &&& !(!email_taken(old(repo).users_view(), request.email@) && request.password@.len() <= MAX_PASSWORD_CHARS
                    && now <= LATEST_CREATION_MS && two_free_ids(*old(repo)))
            },
            AuthReply::LoggedOut { .. } => false,
        },
        email_taken(old(repo).users_view(), request.email@) ==> r == AuthReply::Rejected(Rejection::EmailExists),
        !email_taken(old(repo).users_view(), request.email@) && request.password@.len() <= MAX_PASSWORD_CHARS && now
            <= LATEST_CREATION_MS && two_free_ids(*old(repo)) ==> r is Account,
{
    let ghost before = *repo;
    let created = repo.create_user_at(request.email, request.password, now);
    let stored = match &created {
        Ok(user) => {
            let ghost with_user = *repo;
            proof {
                assert(with_user.users_view()[with_user.users_view().len() - 1] == *user);
            }
            let outcome = repo.create_session_at(user.id, session_id.clone(), csrf_token, now);
            proof {
                if outcome is Ok {
                    let s = outcome->Ok_0;
                    let sessions = repo.sessions_view();
                    assert(sessions[sessions.len() - 1] == s);
                    assert(sessions.contains(s));
                }
                assert(repo.users_view() == with_user.users_view());
                assert(repo.users_view().last() == *user);
            }
            outcome.is_ok()
        },
        Err(_) => false,
    };
    registration_reply(&created, stored, session_id)
}

/// Checks the credentials, then promotes the pre-authentication session
/// stamped `now`: 200 with the account, 401 for an unknown email or a wrong
/// password alike, 500 when the session cannot be stored.
pub fn login(
    repo: &mut MemoryAuthRepository,
    request: LoginRequest,
    session_id: String,
    csrf_token: String,
    now: i64,
) -> (r: AuthReply)
    requires
        old(repo).wf(),
    ensures
        final(repo).wf(),
        final(repo).users_view() == old(repo).users_view(),
        final(repo).temp_sessions_view() == old(repo).temp_sessions_view(),
        !credentials_accepted(old(repo).users_view(), request.email@, request.password@) ==> r == AuthReply::Rejected(
            Rejection::InvalidCredentials,
        ) && *final(repo) == *old(repo),
        credentials_accepted(old(repo).users_view(), request.email@, request.password@) && old(repo).has_free_id() && now
            <= LATEST_CREATION_MS ==> r is Account,
        match r {
            AuthReply::Account { status, session_id: cookie, account } => {
                &&& status == 200
                &&& cookie == session_id
                &&& credentials_accepted(old(repo).users_view(), request.email@, request.password@)
                &&& exists|user: User| {
                    &&& old(repo).users_view().contains(user)
                    &&& user.email@ == request.email@
                    &&& account.uuid == user.uuid
                    &&& account.email == user.email
                    &&& #[trigger] holds_session(final(repo).sessions_view(), user.id, session_id@, csrf_token@)
                }
            },
            AuthReply::Rejected(rejection) => rejection == Rejection::InvalidCredentials,
            AuthReply::ServerError => {
                &&& credentials_accepted(old(repo).users_view(), request.email@, request.password@)
                &&& !old(repo).has_free_id() || now > LATEST_CREATION_MS
                &&& final(repo).sessions_view() == old(repo).sessions_view()
            },
            AuthReply::LoggedOut { .. } => false,
        },
{
    let verified = repo.verify_credentials(request.email, request.password);
    let stored = match &verified {
        Ok(user) => {
            proof {
                let users = repo.users_view();
                let i = choose|i: int| 0 <= i < users.len() && users[i] == *user;
                assert(user_exists(users, user.id));
            }
            let ghost csrf = csrf_token@;
            let outcome = repo.create_session_at(user.id, session_id.clone(), csrf_token, now);
            proof {
                if outcome is Ok {
                    let s = outcome->Ok_0;
                    let sessions = repo.sessions_view();
                    assert(sessions[sessions.len() - 1] == s);
                    assert(sessions.contains(s));
                    assert(holds_session(sessions, user.id, session_id@, csrf));
                }
            }
            outcome.is_ok()
        },
        Err(_) => false,
    };
    login_reply(&verified, stored, session_id)
}

/// Best-effort logout: the session carrying the cookie's token is deleted and
/// the reply is 200 whatever happened.
pub fn logout(repo: &mut MemoryAuthRepository, session_cookie: Option<String>) -> (r: AuthReply)
    requires
        old(repo).wf(),
    ensures
        final(repo).wf(),
        r == (AuthReply::LoggedOut { clear_cookie: session_cookie is Some }),
        final(repo).users_view() == old(repo).users_view(),
        final(repo).temp_sessions_view() == old(repo).temp_sessions_view(),
        match session_cookie {
            Some(token) => final(repo).sessions_view() == old(repo).sessions_view().filter(session_token_other_than(token@)),
            None => final(repo).sessions_view() == old(repo).sessions_view(),
        },
{
    match session_cookie {
        Some(token) => {
            let _ = repo.invalidate_session(token.as_str());
            AuthReply::LoggedOut { clear_cookie: true }
        },
        None => AuthReply::LoggedOut { clear_cookie: false },
    }
}

} // verus!
