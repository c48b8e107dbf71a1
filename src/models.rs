use vstd::prelude::*;

use crate::clock::{LATEST_CREATION_MS, SESSION_TTL_MS, TEMP_SESSION_TTL_MS};

verus! {

/// A stored account.
pub struct User {
    pub id: i64,
    pub uuid: String,
    pub email: String,
    pub password_hash: String,
    pub created_at: i64,
    pub updated_at: i64,
}

/// An account before the store has given it an id.
pub struct NewUser {
    pub uuid: String,
    pub email: String,
    pub password_hash: String,
    pub created_at: i64,
    pub updated_at: i64,
}

/// A pre-authentication record binding a session id to a CSRF token.
pub struct TempSession {
    pub id: i64,
    pub session_id: String,
    pub csrf_token: String,
    pub created_at: i64,
    pub expires_at: i64,
}

/// A pre-authentication record before the store has given it an id.
pub struct NewTempSession {
    pub session_id: String,
    pub csrf_token: String,
    pub created_at: i64,
    pub expires_at: i64,
}

/// An authenticated session owned by one user.
pub struct Session {
    pub id: i64,
    pub user_id: i64,
    pub token: String,
    pub csrf_token: String,
    pub expires_at: i64,
    pub created_at: i64,
}

/// An authenticated session before the store has given it an id.
pub struct NewSession {
    pub user_id: i64,
    pub token: String,
    pub csrf_token: String,
    pub expires_at: i64,
    pub created_at: i64,
}

impl User {
    /// A new account for `email` with the given password hash, stamped `now`.
    pub fn new(email: String, password_hash: String, uuid: String, now: i64) -> (r: NewUser)
        ensures
            r.uuid == uuid,
            r.email == email,
            r.password_hash == password_hash,
            r.created_at == now,
            r.updated_at == now,
    {
        NewUser { uuid, email, password_hash, created_at: now, updated_at: now }
    }

    /// A field-by-field copy.
    pub fn duplicate(&self) -> (r: User)
        ensures
            r == *self,
    {
        User {
            id: self.id,
            uuid: self.uuid.clone(),
            email: self.email.clone(),
            password_hash: self.password_hash.clone(),
            created_at: self.created_at,
            updated_at: self.updated_at,
        }
    }
}

impl TempSession {
    /// A pre-authentication record created `now`, expiring five minutes later.
    pub fn new(session_id: String, csrf_token: String, now: i64) -> (r: NewTempSession)
        requires
            now <= LATEST_CREATION_MS,
        ensures
            r.session_id == session_id,
            r.csrf_token == csrf_token,
            r.created_at == now,
            r.expires_at == now + TEMP_SESSION_TTL_MS,
    {
        NewTempSession { session_id, csrf_token, created_at: now, expires_at: now + TEMP_SESSION_TTL_MS }
    }

    /// Whether the record may still be used at time `now`.
    pub open spec fn live_at(&self, now: int) -> bool {
        now < self.expires_at
    }

    /// A field-by-field copy.
    pub fn duplicate(&self) -> (r: TempSession)
        ensures
            r == *self,
    {
        TempSession {
            id: self.id,
            session_id: self.session_id.clone(),
            csrf_token: self.csrf_token.clone(),
            created_at: self.created_at,
            expires_at: self.expires_at,
        }
    }
}

impl Session {
    /// A session for `user_id` created `now`, expiring twenty-four hours later.
    /// The cookie value of the pre-authentication phase becomes the token.
    pub fn new(user_id: i64, session_id: String, csrf_token: String, now: i64) -> (r: NewSession)
        requires
            now <= LATEST_CREATION_MS,
        ensures
            r.user_id == user_id,
            r.token == session_id,
            r.csrf_token == csrf_token,
            r.created_at == now,
            r.expires_at == now + SESSION_TTL_MS,
    {
        NewSession { user_id, token: session_id, csrf_token, expires_at: now + SESSION_TTL_MS, created_at: now }
    }

    /// Whether the session may still be used at time `now`.
    pub open spec fn live_at(&self, now: int) -> bool {
        now < self.expires_at
    }

    /// A field-by-field copy.
    pub fn duplicate(&self) -> (r: Session)
        ensures
            r == *self,
    {
        Session {
            id: self.id,
            user_id: self.user_id,
            token: self.token.clone(),
            csrf_token: self.csrf_token.clone(),
            expires_at: self.expires_at,
            created_at: self.created_at,
        }
    }
}

} // verus!
