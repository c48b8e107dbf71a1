use workout_auth::auth_repository::MemoryAuthRepository;
use workout_auth::auth_routes::{login, logout, register, AuthReply, LoginRequest, RegisterRequest};
use workout_auth::clock::TEMP_SESSION_TTL_MS;
use workout_auth::csrf_gate::{CsrfMiddleware, CsrfProtection};
use workout_auth::entropy::new_csrf_token;
use workout_auth::http::{GateVerdict, HttpMethod, Rejection};
use workout_auth::models::TempSession;
use workout_auth::session_gate::{SessionMiddleware, SessionProtection};

const T0: i64 = 1_700_000_000_000;

struct Client {
    repo: MemoryAuthRepository,
    csrf: CsrfMiddleware,
    guard: SessionMiddleware,
}

impl Client {
    fn new() -> Client {
        Client {
            repo: MemoryAuthRepository::new(),
            csrf: CsrfProtection::new().new_transform(),
            guard: SessionProtection::new().ignore(vec!["/health".to_string()]).new_transform(),
        }
    }

    /// `GET /auth/csrf-token` at time `now`: the cookie value and the body token.
    fn csrf_token(&mut self, now: i64) -> (String, String) {
        let token = new_csrf_token();
        let temp = self.repo.insert_temp_session(TempSession::new("sid-".to_string() + &now.to_string(), token, now)).unwrap();
        (temp.session_id, temp.csrf_token)
    }

    fn register(&mut self, cookie: &str, token: &str, email: &str, password: &str, now: i64) -> u16 {
        let verdict = self.csrf.call(&mut self.repo, HttpMethod::Post, Some(cookie.to_string()), Some(token.to_string()), now);
        if let GateVerdict::Reject(rejection) = verdict {
            return rejection.status();
        }
        let request = RegisterRequest { email: email.to_string(), password: password.to_string() };
        match register(&mut self.repo, request, cookie.to_string(), token.to_string(), now) {
            AuthReply::Account { status, .. } => status,
            AuthReply::Rejected(rejection) => rejection.status(),
            AuthReply::ServerError => 500,
            AuthReply::LoggedOut { .. } => 200,
        }
    }

    fn login(&mut self, cookie: &str, token: &str, email: &str, password: &str, now: i64) -> u16 {
        let verdict = self.csrf.call(&mut self.repo, HttpMethod::Post, Some(cookie.to_string()), Some(token.to_string()), now);
        if let GateVerdict::Reject(rejection) = verdict {
            return rejection.status();
        }
        let request = LoginRequest { email: email.to_string(), password: password.to_string() };
        match login(&mut self.repo, request, cookie.to_string(), token.to_string(), now) {
            AuthReply::Account { status, .. } => status,
            AuthReply::Rejected(rejection) => rejection.status(),
            AuthReply::ServerError => 500,
            AuthReply::LoggedOut { .. } => 200,
        }
    }

    fn get_protected(&mut self, cookie: Option<&str>, now: i64) -> u16 {
        match self.guard.call(&mut self.repo, "/workouts", cookie.map(|c| c.to_string()), now) {
            GateVerdict::Reject(rejection) => rejection.status(),
            _ => 200,
        }
    }
}

#[test]
fn scenario_issue_token_then_register_and_use_session() {
    let mut client = Client::new();
    let (cookie, token) = client.csrf_token(T0);
    assert!(!token.is_empty());
    assert_eq!(client.register(&cookie, &token, "a@b.com", "pw123456", T0 + 1_000), 201);
    assert_eq!(client.get_protected(Some(&cookie), T0 + 2_000), 200);
    assert_eq!(client.get_protected(None, T0 + 2_000), 401);
}

#[test]
fn scenario_register_replayed_after_sweep_is_refused() {
    let mut client = Client::new();
    let (cookie, token) = client.csrf_token(T0);
    let late = T0 + TEMP_SESSION_TTL_MS + 1;
    assert_eq!(client.register(&cookie, &token, "a@b.com", "pw123456", late), 401);
    assert_eq!(client.repo.user_count(), 0);
    assert_eq!(client.repo.temp_session_count(), 0);
}

#[test]
fn scenario_login_with_wrong_password_is_refused() {
    let mut client = Client::new();
    let (cookie, token) = client.csrf_token(T0);
    assert_eq!(client.register(&cookie, &token, "a@b.com", "pw123456", T0), 201);
    assert_eq!(client.login(&cookie, &token, "a@b.com", "wrong", T0), 401);
    assert_eq!(client.login(&cookie, &token, "nobody@b.com", "pw123456", T0), 401);
    assert_eq!(client.login(&cookie, &token, "a@b.com", "pw123456", T0), 200);
}

#[test]
fn scenario_logout_closes_protected_access() {
    let mut client = Client::new();
    let (cookie, token) = client.csrf_token(T0);
    assert_eq!(client.register(&cookie, &token, "a@b.com", "pw123456", T0), 201);
    assert_eq!(client.get_protected(Some(&cookie), T0), 200);
    let reply = logout(&mut client.repo, Some(cookie.clone()));
    assert!(matches!(reply, AuthReply::LoggedOut { clear_cookie: true }));
    assert_eq!(client.get_protected(Some(&cookie), T0), 401);
    assert!(matches!(logout(&mut client.repo, None), AuthReply::LoggedOut { clear_cookie: false }));
}

#[test]
fn scenario_duplicate_registration_conflicts() {
    let mut client = Client::new();
    let (cookie, token) = client.csrf_token(T0);
    assert_eq!(client.register(&cookie, &token, "a@b.com", "pw123456", T0), 201);
    let (cookie2, token2) = client.csrf_token(T0 + 1);
    assert_eq!(client.register(&cookie2, &token2, "a@b.com", "other-pw", T0 + 1), 409);
    assert_eq!(client.repo.user_count(), 1);
}

#[test]
fn scenario_session_expires_after_a_day() {
    let mut client = Client::new();
    let (cookie, token) = client.csrf_token(T0);
    let user = client.repo.insert_user(workout_auth::models::User::new("a@b.com".to_string(), "h".to_string(), "u".to_string(), T0)).unwrap();
    client.repo.insert_session(workout_auth::models::Session::new(user.id, cookie.clone(), token, T0)).unwrap();
    assert_eq!(client.get_protected(Some(&cookie), T0 + 86_400_000 - 1), 200);
    assert_eq!(client.get_protected(Some(&cookie), T0 + 86_400_000), 401);
    assert_eq!(
        client.guard.call(&mut client.repo, "/health", None, T0),
        GateVerdict::Forward
    );
    assert_eq!(
        client.guard.call(&mut client.repo, "/workouts", Some(cookie), T0 + 86_400_000),
        GateVerdict::Reject(Rejection::InvalidSession)
    );
}
