use workout_auth::auth_repository::{AuthError, MemoryAuthRepository};
use workout_auth::auth_routes::{create_auth_response, login, register, AuthReply, LoginRequest, LoginResponse, RegisterRequest};
use workout_auth::clock::{SESSION_TTL_MS, TEMP_SESSION_TTL_MS};
use workout_auth::csrf_gate::{CsrfCheck, CsrfProtection};
use workout_auth::entropy::new_csrf_token;
use workout_auth::general::Message;
use workout_auth::http::{GateVerdict, HttpMethod, Rejection};
use workout_auth::models::{Session, TempSession, User};
use workout_auth::password::hash_password;
use workout_auth::session_gate::{SessionCheck, SessionProtection};
use workout_auth::user_routes::{create_user, CreateUserRequest, UserReply};

const T0: i64 = 1_700_000_000_000;

fn store_with_user(email: &str) -> (MemoryAuthRepository, i64) {
    let mut repo = MemoryAuthRepository::new();
    let user = repo
        .insert_user(User::new(email.to_string(), "stored-hash".to_string(), "uuid-1".to_string(), T0))
        .unwrap();
    (repo, user.id)
}

#[test]
fn csrf_pair_accepted_within_five_minutes() {
    let mut repo = MemoryAuthRepository::new();
    repo.insert_temp_session(TempSession::new("sid-1".to_string(), "tok-1".to_string(), T0)).unwrap();
    assert_eq!(repo.validate_csrf_at("sid-1", "tok-1", T0), Ok(()));
    assert_eq!(repo.validate_csrf_at("sid-1", "tok-1", T0 + TEMP_SESSION_TTL_MS - 1), Ok(()));
}

#[test]
fn csrf_pair_rejected_after_five_minutes_and_swept() {
    let mut repo = MemoryAuthRepository::new();
    repo.insert_temp_session(TempSession::new("sid-1".to_string(), "tok-1".to_string(), T0)).unwrap();
    assert_eq!(repo.validate_csrf_at("sid-1", "tok-1", T0 + TEMP_SESSION_TTL_MS), Err(AuthError::InvalidSession));
    assert_eq!(repo.temp_session_count(), 1);
    assert_eq!(repo.validate_csrf_at("sid-1", "tok-1", T0 + TEMP_SESSION_TTL_MS + 1), Err(AuthError::InvalidSession));
    assert_eq!(repo.temp_session_count(), 0);
}

#[test]
fn csrf_pair_rejected_when_altered() {
    let mut repo = MemoryAuthRepository::new();
    repo.insert_temp_session(TempSession::new("sid-1".to_string(), "tok-1".to_string(), T0)).unwrap();
    assert_eq!(repo.validate_csrf_at("sid-1", "tok-2", T0), Err(AuthError::InvalidSession));
    assert_eq!(repo.validate_csrf_at("sid-2", "tok-1", T0), Err(AuthError::InvalidSession));
}

#[test]
fn csrf_middleware_verdicts() {
    let mut repo = MemoryAuthRepository::new();
    repo.insert_temp_session(TempSession::new("sid-1".to_string(), "tok-1".to_string(), T0)).unwrap();
    let gate = CsrfProtection::new().new_transform();
    let sid = Some("sid-1".to_string());
    let tok = Some("tok-1".to_string());
    assert_eq!(gate.call(&mut repo, HttpMethod::Get, None, None, T0), GateVerdict::Forward);
    assert_eq!(gate.call(&mut repo, HttpMethod::Post, sid.clone(), tok.clone(), T0), GateVerdict::Forward);
    assert_eq!(gate.call(&mut repo, HttpMethod::Delete, sid.clone(), None, T0), GateVerdict::Reject(Rejection::MissingCsrf));
    assert_eq!(gate.call(&mut repo, HttpMethod::Put, None, tok.clone(), T0), GateVerdict::Reject(Rejection::MissingCsrf));
    assert_eq!(
        gate.call(&mut repo, HttpMethod::Patch, sid.clone(), Some("forged".to_string()), T0),
        GateVerdict::Reject(Rejection::InvalidCsrf)
    );
    assert_eq!(
        gate.call(&mut repo, HttpMethod::Post, sid, tok, T0 + TEMP_SESSION_TTL_MS),
        GateVerdict::Reject(Rejection::InvalidCsrf)
    );
}

#[test]
fn csrf_inspect_and_verdict() {
    let gate = CsrfProtection::new().new_transform();
    assert!(matches!(gate.inspect(HttpMethod::Head, None, None), CsrfCheck::PassThrough));
    assert!(matches!(gate.inspect(HttpMethod::Post, Some("s".to_string()), None), CsrfCheck::Missing));
    let check = gate.inspect(HttpMethod::Post, Some("s".to_string()), Some("c".to_string()));
    match &check {
        CsrfCheck::Validate { session_id, csrf_token } => {
            assert_eq!(session_id, "s");
            assert_eq!(csrf_token, "c");
        }
        _ => panic!("expected a pair to validate"),
    }
    assert_eq!(gate.verdict(&check, Ok(())), GateVerdict::Forward);
    assert_eq!(gate.verdict(&check, Err(AuthError::InvalidSession)), GateVerdict::Reject(Rejection::InvalidCsrf));
}

#[test]
fn session_token_resolves_to_its_owner_until_expiry() {
    let (mut repo, user_id) = store_with_user("a@b.com");
    let created = repo.insert_session(Session::new(user_id, "tok".to_string(), "csrf".to_string(), T0)).unwrap();
    assert_eq!(created.expires_at, T0 + SESSION_TTL_MS);
    assert_eq!(repo.validate_session_at("tok", T0 + 1), Ok(user_id));
    assert_eq!(repo.validate_session_at("tok", T0 + SESSION_TTL_MS - 1), Ok(user_id));
    assert_eq!(repo.validate_session_at("tok", T0 + SESSION_TTL_MS), Err(AuthError::InvalidSession));
    assert_eq!(repo.validate_session_at("other", T0), Err(AuthError::InvalidSession));
}

#[test]
fn session_token_reissued_moves_to_new_owner() {
    let mut repo = MemoryAuthRepository::new();
    let first = repo.insert_user(User::new("a@b.com".to_string(), "h1".to_string(), "u1".to_string(), T0)).unwrap();
    let second = repo.insert_user(User::new("c@d.com".to_string(), "h2".to_string(), "u2".to_string(), T0)).unwrap();
    repo.insert_session(Session::new(first.id, "tok".to_string(), "csrf".to_string(), T0)).unwrap();
    repo.insert_session(Session::new(second.id, "tok".to_string(), "csrf".to_string(), T0)).unwrap();
    assert_eq!(repo.session_count(), 1);
    assert_eq!(repo.validate_session_at("tok", T0), Ok(second.id));
}

#[test]
fn session_for_unknown_user_is_refused() {
    let mut repo = MemoryAuthRepository::new();
    let result = repo.insert_session(Session::new(42, "tok".to_string(), "csrf".to_string(), T0));
    assert!(matches!(result, Err(AuthError::NotFound)));
    assert_eq!(repo.session_count(), 0);
}

#[test]
fn duplicate_email_refused_without_second_row() {
    let (mut repo, _) = store_with_user("a@b.com");
    let again = repo.insert_user(User::new("a@b.com".to_string(), "other".to_string(), "uuid-2".to_string(), T0));
    assert!(matches!(again, Err(AuthError::DuplicateEmail)));
    assert_eq!(repo.user_count(), 1);
}

#[test]
fn create_user_with_duplicate_email_via_route() {
    let mut repo = MemoryAuthRepository::new();
    let request = CreateUserRequest { email: "a@b.com".to_string(), password: "pw123456".to_string() };
    let reply = create_user(&mut repo, request, T0);
    let body = match reply {
        UserReply::Created(body) => body,
        _ => panic!("expected a created account"),
    };
    assert_eq!(body.email, "a@b.com");
    assert_eq!(body.uuid.len(), 36);
    let request = CreateUserRequest { email: "a@b.com".to_string(), password: "other".to_string() };
    let reply = create_user(&mut repo, request, T0);
    assert!(matches!(reply, UserReply::Rejected(Rejection::EmailExists)));
    assert_eq!(repo.user_count(), 1);
}

#[test]
fn credential_failures_look_alike() {
    let mut repo = MemoryAuthRepository::new();
    let user = repo.create_user("a@b.com".to_string(), "pw123456".to_string()).unwrap();
    assert_eq!(user.email, "a@b.com");
    assert_ne!(user.password_hash, "pw123456");
    let wrong = repo.verify_credentials("a@b.com".to_string(), "wrong".to_string());
    let unknown = repo.verify_credentials("nobody@b.com".to_string(), "pw123456".to_string());
    assert!(matches!(wrong, Err(AuthError::InvalidCredentials)));
    assert!(matches!(unknown, Err(AuthError::InvalidCredentials)));
    let right = repo.verify_credentials("a@b.com".to_string(), "pw123456".to_string()).unwrap();
    assert_eq!(right.id, user.id);
}

#[test]
fn invalidated_session_no_longer_resolves() {
    let (mut repo, user_id) = store_with_user("a@b.com");
    repo.insert_session(Session::new(user_id, "tok".to_string(), "csrf".to_string(), T0)).unwrap();
    assert_eq!(repo.invalidate_session("tok"), Ok(()));
    assert_eq!(repo.validate_session_at("tok", T0), Err(AuthError::InvalidSession));
    assert_eq!(repo.invalidate_session("tok"), Ok(()));
}

#[test]
fn exempt_path_reachable_without_cookie() {
    let mut repo = MemoryAuthRepository::new();
    let paths = vec!["/health".to_string(), "/echo".to_string(), "/".to_string()];
    let gate = SessionProtection::new().ignore(paths).new_transform();
    assert!(gate.is_exempt("/health"));
    assert!(!gate.is_exempt("/health/"));
    assert_eq!(gate.call(&mut repo, "/health", None, T0), GateVerdict::Forward);
    assert_eq!(gate.call(&mut repo, "/", None, T0), GateVerdict::Forward);
    assert_eq!(gate.call(&mut repo, "/workouts", None, T0), GateVerdict::Reject(Rejection::AuthenticationRequired));
    assert_eq!(
        gate.call(&mut repo, "/workouts", Some("nope".to_string()), T0),
        GateVerdict::Reject(Rejection::InvalidSession)
    );
}

#[test]
fn session_inspect_and_verdict() {
    let gate = SessionProtection::new().ignore(vec!["/health".to_string()]).new_transform();
    assert!(matches!(gate.inspect("/health", None), SessionCheck::Bypass));
    assert!(matches!(gate.inspect("/api", None), SessionCheck::Missing));
    let check = gate.inspect("/api", Some("tok".to_string()));
    assert!(matches!(&check, SessionCheck::Validate { token } if token == "tok"));
    assert_eq!(gate.verdict(&check, Ok(7)), GateVerdict::ForwardAs(7));
    assert_eq!(gate.verdict(&check, Err(AuthError::InvalidSession)), GateVerdict::Reject(Rejection::InvalidSession));
}

#[test]
fn delete_user_removes_account_and_sessions() {
    let (mut repo, user_id) = store_with_user("a@b.com");
    repo.insert_session(Session::new(user_id, "tok-1".to_string(), "csrf".to_string(), T0)).unwrap();
    repo.insert_session(Session::new(user_id, "tok-2".to_string(), "csrf".to_string(), T0)).unwrap();
    assert_eq!(repo.delete_user_at("missing", T0), Err(AuthError::InvalidSession));
    assert_eq!(repo.user_count(), 1);
    assert_eq!(repo.delete_user_at("tok-1", T0), Ok(()));
    assert_eq!(repo.user_count(), 0);
    assert_eq!(repo.session_count(), 0);
    assert_eq!(repo.validate_session_at("tok-2", T0), Err(AuthError::InvalidSession));
}

#[test]
fn delete_user_refuses_expired_session() {
    let (mut repo, user_id) = store_with_user("a@b.com");
    repo.insert_session(Session::new(user_id, "tok".to_string(), "csrf".to_string(), T0)).unwrap();
    assert_eq!(repo.delete_user_at("tok", T0 + SESSION_TTL_MS), Err(AuthError::InvalidSession));
    assert_eq!(repo.user_count(), 1);
}

#[test]
fn clock_reading_operations() {
    let mut repo = MemoryAuthRepository::new();
    let temp = repo.create_temp_session("tok".to_string()).unwrap();
    assert_eq!(temp.session_id.len(), 36);
    assert_eq!(temp.expires_at - temp.created_at, TEMP_SESSION_TTL_MS);
    assert_eq!(repo.validate_csrf(&temp.session_id, "tok"), Ok(()));
    assert_eq!(repo.validate_csrf(&temp.session_id, "other"), Err(AuthError::InvalidSession));
    let user = repo.insert_user(User::new("a@b.com".to_string(), "h".to_string(), "u".to_string(), T0)).unwrap();
    let session = repo.create_session(user.id, temp.session_id.clone(), "tok".to_string()).unwrap();
    assert_eq!(session.expires_at - session.created_at, SESSION_TTL_MS);
    assert_eq!(session.token, temp.session_id);
    assert_eq!(repo.validate_session(&temp.session_id), Ok(user.id));
    assert_eq!(repo.delete_user(&temp.session_id), Ok(()));
    assert_eq!(repo.validate_session(&temp.session_id), Err(AuthError::InvalidSession));
    assert!(matches!(repo.create_session(user.id, "x".to_string(), "y".to_string()), Err(AuthError::NotFound)));
}

#[test]
fn storage_failures_are_classified() {
    assert_eq!(AuthError::from_storage(true), AuthError::DuplicateEmail);
    assert_eq!(AuthError::from_storage(false), AuthError::DatabaseError);
}

#[test]
fn rejection_statuses_and_texts() {
    assert_eq!(Rejection::MissingCsrf.status(), 401);
    assert_eq!(Rejection::MissingCsrf.message(), "Missing CSRF token or session");
    assert_eq!(Rejection::InvalidCsrf.message(), "Invalid CSRF token");
    assert_eq!(Rejection::AuthenticationRequired.message(), "Authentication required");
    assert_eq!(Rejection::InvalidSession.status(), 401);
    assert_eq!(Rejection::InvalidSession.message(), "Invalid session");
    assert_eq!(Rejection::EmailExists.status(), 409);
    assert_eq!(Rejection::EmailExists.message(), "Email already exists");
    assert_eq!(Rejection::InvalidCredentials.status(), 401);
    assert_eq!(Rejection::InvalidCredentials.message(), "Invalid credentials");
}

#[test]
fn mutating_methods() {
    assert!(HttpMethod::Post.is_mutating());
    assert!(HttpMethod::Put.is_mutating());
    assert!(HttpMethod::Patch.is_mutating());
    assert!(HttpMethod::Delete.is_mutating());
    assert!(!HttpMethod::Get.is_mutating());
    assert!(!HttpMethod::Head.is_mutating());
    assert!(!HttpMethod::Options.is_mutating());
}

#[test]
fn csrf_tokens_are_fresh_base64() {
    let a = new_csrf_token();
    let b = new_csrf_token();
    assert_eq!(a.len(), 44);
    assert!(a.ends_with('='));
    assert_ne!(a, b);
}

#[test]
fn password_hash_is_argon2_phc() {
    let hashed = hash_password("pw123456").unwrap();
    assert!(hashed.starts_with("$argon2id$"));
    assert!(!hashed.contains("pw123456"));
    assert_ne!(hash_password("pw123456").unwrap(), hashed);
}

#[test]
fn auth_response_carries_account() {
    let user = User {
        id: 3,
        uuid: "u-3".to_string(),
        email: "a@b.com".to_string(),
        password_hash: "h".to_string(),
        created_at: T0,
        updated_at: T0,
    };
    let body = LoginResponse::new(&user);
    assert_eq!(body.uuid, "u-3");
    match create_auth_response(&user, "sid".to_string(), 201) {
        AuthReply::Account { status, session_id, account } => {
            assert_eq!(status, 201);
            assert_eq!(session_id, "sid");
            assert_eq!(account.email, "a@b.com");
        }
        _ => panic!("expected an account reply"),
    }
}

#[test]
fn test_echo() {
    assert_eq!(Message::new("Hello, test!".to_string()).content, "Hello, test!");
}

#[test]
fn temp_session_ids_and_tokens_are_unique() {
    let mut repo = MemoryAuthRepository::new();
    repo.insert_temp_session(TempSession::new("sid-1".to_string(), "tok-1".to_string(), T0)).unwrap();
    let same_id = repo.insert_temp_session(TempSession::new("sid-1".to_string(), "tok-2".to_string(), T0));
    assert!(matches!(same_id, Err(AuthError::DatabaseError)));
    let same_token = repo.insert_temp_session(TempSession::new("sid-2".to_string(), "tok-1".to_string(), T0));
    assert!(matches!(same_token, Err(AuthError::DatabaseError)));
    assert_eq!(repo.temp_session_count(), 1);
}

#[test]
fn create_user_at_is_exact() {
    let mut repo = MemoryAuthRepository::new();
    let user = repo.create_user_at("a@b.com".to_string(), "pw123456".to_string(), T0).unwrap();
    assert_eq!(user.created_at, T0);
    assert_eq!(user.updated_at, T0);
    let again = repo.create_user_at("a@b.com".to_string(), "other".to_string(), T0);
    assert!(matches!(again, Err(AuthError::DuplicateEmail)));
    let again = repo.create_user("a@b.com".to_string(), "other".to_string());
    assert!(matches!(again, Err(AuthError::DuplicateEmail)));
    assert_eq!(repo.user_count(), 1);
}

#[test]
fn create_session_at_bounds() {
    let (mut repo, user_id) = store_with_user("a@b.com");
    let session = repo.create_session_at(user_id, "tok".to_string(), "csrf".to_string(), T0).unwrap();
    assert_eq!(session.created_at, T0);
    assert_eq!(session.expires_at, T0 + SESSION_TTL_MS);
    assert!(matches!(
        repo.create_session_at(user_id, "tok2".to_string(), "csrf".to_string(), i64::MAX),
        Err(AuthError::DatabaseError)
    ));
    assert!(matches!(
        repo.create_session_at(user_id + 1, "tok3".to_string(), "csrf".to_string(), T0),
        Err(AuthError::NotFound)
    ));
    assert_eq!(repo.session_count(), 1);
}

#[test]
fn gates_leave_store_alone_when_nothing_is_validated() {
    let mut repo = MemoryAuthRepository::new();
    repo.insert_temp_session(TempSession::new("old".to_string(), "tok".to_string(), T0)).unwrap();
    let later = T0 + 10 * TEMP_SESSION_TTL_MS;
    let csrf = CsrfProtection::new().new_transform();
    assert_eq!(csrf.call(&mut repo, HttpMethod::Get, None, None, later), GateVerdict::Forward);
    assert_eq!(csrf.call(&mut repo, HttpMethod::Post, Some("old".to_string()), None, later), GateVerdict::Reject(Rejection::MissingCsrf));
    assert_eq!(repo.temp_session_count(), 1);
    let user = repo.insert_user(User::new("a@b.com".to_string(), "h".to_string(), "u".to_string(), T0)).unwrap();
    repo.insert_session(Session::new(user.id, "tok".to_string(), "csrf".to_string(), T0)).unwrap();
    let guard = SessionProtection::new().ignore(vec!["/health".to_string()]).new_transform();
    let much_later = T0 + 2 * SESSION_TTL_MS;
    assert_eq!(guard.call(&mut repo, "/health", None, much_later), GateVerdict::Forward);
    assert_eq!(guard.call(&mut repo, "/x", None, much_later), GateVerdict::Reject(Rejection::AuthenticationRequired));
    assert_eq!(repo.session_count(), 1);
    assert_eq!(guard.call(&mut repo, "/x", Some("tok".to_string()), much_later), GateVerdict::Reject(Rejection::InvalidSession));
    assert_eq!(repo.session_count(), 0);
}

#[test]
fn register_and_login_fail_cleanly_past_the_latest_time() {
    let mut repo = MemoryAuthRepository::new();
    let request = RegisterRequest { email: "a@b.com".to_string(), password: "pw123456".to_string() };
    let reply = register(&mut repo, request, "sid".to_string(), "tok".to_string(), i64::MAX);
    assert!(matches!(reply, AuthReply::ServerError));
    assert_eq!(repo.session_count(), 0);
    let request = LoginRequest { email: "a@b.com".to_string(), password: "pw123456".to_string() };
    let reply = login(&mut repo, request, "sid".to_string(), "tok".to_string(), i64::MAX);
    assert!(matches!(reply, AuthReply::ServerError));
    let request = LoginRequest { email: "a@b.com".to_string(), password: "pw123456".to_string() };
    let reply = login(&mut repo, request, "sid".to_string(), "tok".to_string(), T0);
    assert!(matches!(reply, AuthReply::Account { status: 200, .. }));
}
