use vstd::prelude::*;

use crate::clock::{current_time_millis, LATEST_CREATION_MS, SESSION_TTL_MS, TEMP_SESSION_TTL_MS};
use crate::entropy::random_uuid_string;
use crate::models::{NewSession, NewTempSession, NewUser, Session, TempSession, User};
use crate::password::{argon2_accepts, argon2_phc_of, argon2_verify, generated_salt, hash_password, MAX_PASSWORD_CHARS};
use crate::seq_filter::{lemma_filter_keeps, lemma_filter_prefix_step, lemma_filter_within};

verus! {

/// Failures of the credential and session operations.
#[derive(Debug, Clone, Copy, PartialEq, Eq, Structural)]
pub enum AuthError {
    DuplicateEmail,
    DatabaseError,
    InvalidCredentials,
    InvalidSession,
    InvalidCsrf,
    NotFound,
    PasswordHashing,
}

impl AuthError {
    /// Classifies a failed write of the backing store: a uniqueness violation
    /// means the email is taken, anything else is a store failure.
    pub fn from_storage(unique_violation: bool) -> (r: AuthError)
        ensures
            r == (if unique_violation { AuthError::DuplicateEmail } else { AuthError::DatabaseError }),
    {
        if unique_violation {
            AuthError::DuplicateEmail
        } else {
            AuthError::DatabaseError
        }
    }
}

/// Records kept by a sweep at time `now`: those whose expiry has not passed.
pub open spec fn temp_unexpired(now: int) -> spec_fn(TempSession) -> bool {
    |t: TempSession| now <= t.expires_at
}

/// Sessions kept by a sweep at time `now`.
pub open spec fn session_unexpired(now: int) -> spec_fn(Session) -> bool {
    |s: Session| now <= s.expires_at
}

/// Sessions that do not carry `token`.
pub open spec fn session_token_other_than(token: Seq<char>) -> spec_fn(Session) -> bool {
    |s: Session| s.token@ != token
}

/// Sessions that do not belong to `user_id`.
pub open spec fn session_owner_other_than(user_id: i64) -> spec_fn(Session) -> bool {
    |s: Session| s.user_id != user_id
}

/// Whether a live pre-authentication record binds `session_id` to `csrf_token`.
pub open spec fn csrf_pair_live(temps: Seq<TempSession>, session_id: Seq<char>, csrf_token: Seq<char>, now: int) -> bool {
    exists|t: TempSession|
        #![trigger temps.contains(t)]
        temps.contains(t) && t.session_id@ == session_id && t.csrf_token@ == csrf_token && t.live_at(now)
}

/// Whether no record of `temps` carries `session_id` or `csrf_token`.
pub open spec fn temp_values_fresh(temps: Seq<TempSession>, session_id: Seq<char>, csrf_token: Seq<char>) -> bool {
    forall|j: int| 0 <= j < temps.len() ==> (#[trigger] temps[j]).session_id@ != session_id && temps[j].csrf_token@ != csrf_token
}

/// Whether a live session with `token` exists.
pub open spec fn session_live(sessions: Seq<Session>, token: Seq<char>, now: int) -> bool {
    exists|s: Session| #![trigger sessions.contains(s)] sessions.contains(s) && s.token@ == token && s.live_at(now)
}

/// Whether a live session with `token` belongs to `user_id`.
pub open spec fn session_held_by(sessions: Seq<Session>, token: Seq<char>, now: int, user_id: i64) -> bool {
    exists|s: Session|
        #![trigger sessions.contains(s)]
        sessions.contains(s) && s.token@ == token && s.live_at(now) && s.user_id == user_id
}

/// Whether an account with id `user_id` exists.
pub open spec fn user_exists(users: Seq<User>, user_id: i64) -> bool {
    exists|i: int| 0 <= i < users.len() && #[trigger] users[i].id == user_id
}

/// Whether an account with `email` exists.
pub open spec fn email_taken(users: Seq<User>, email: Seq<char>) -> bool {
    exists|i: int| 0 <= i < users.len() && users[i].email@ == email
}

/// Whether an account with `email` exists and its stored hash accepts `password`.
pub open spec fn credentials_accepted(users: Seq<User>, email: Seq<char>, password: Seq<char>) -> bool {
    exists|i: int|
        0 <= i < users.len() && users[i].email@ == email && argon2_accepts(password, users[i].password_hash@)
}

/// Which sessions a removal pass keeps.
enum SessionRule {
    Unexpired(i64),
    TokenOtherThan(String),
    OwnerOtherThan(i64),
}

impl SessionRule {
    spec fn keeps(&self) -> spec_fn(Session) -> bool {
        match self {
            SessionRule::Unexpired(now) => session_unexpired(*now as int),
            SessionRule::TokenOtherThan(token) => session_token_other_than(token@),
            SessionRule::OwnerOtherThan(user_id) => session_owner_other_than(*user_id),
        }
    }

    fn check(&self, s: &Session) -> (r: bool)
        ensures
            r == (self.keeps())(*s),
    {
        match self {
            SessionRule::Unexpired(now) => *now <= s.expires_at,
            SessionRule::TokenOtherThan(token) => !(s.token == *token),
            SessionRule::OwnerOtherThan(user_id) => s.user_id != *user_id,
        }
    }
}

/// The records of `temps` whose expiry does not lie before `now`, in order.
fn unexpired_temp_sessions(temps: &Vec<TempSession>, now: i64) -> (r: Vec<TempSession>)
    ensures
        r@ == temps@.filter(temp_unexpired(now as int)),
{
    let ghost keep = temp_unexpired(now as int);
    let mut kept: Vec<TempSession> = Vec::new();
    let mut i: usize = 0;
    while i < temps.len()
        invariant
            i <= temps@.len(),
            kept@ == temps@.subrange(0, i as int).filter(keep),
            keep == temp_unexpired(now as int),
        decreases temps@.len() - i,
    {
        proof {
            lemma_filter_prefix_step(temps@, i as int, keep);
        }
        if now <= temps[i].expires_at {
            kept.push(temps[i].duplicate());
        }
        i = i + 1;
    }
    assert(temps@.subrange(0, i as int) =~= temps@);
    kept
}

/// The sessions of `sessions` that `rule` keeps, in order.
fn sessions_kept_by(sessions: &Vec<Session>, rule: &SessionRule) -> (r: Vec<Session>)
    ensures
        r@ == sessions@.filter(rule.keeps()),
{
    let ghost keep = rule.keeps();
    let mut kept: Vec<Session> = Vec::new();
    let mut i: usize = 0;
    while i < sessions.len()
        invariant
            i <= sessions@.len(),
            kept@ == sessions@.subrange(0, i as int).filter(keep),
            keep == rule.keeps(),
        decreases sessions@.len() - i,
    {
        proof {
            lemma_filter_prefix_step(sessions@, i as int, keep);
        }
        if rule.check(&sessions[i]) {
            kept.push(sessions[i].duplicate());
        }
        i = i + 1;
    }
    assert(sessions@.subrange(0, i as int) =~= sessions@);
    kept
}

/// Whether a record of `temps` binds `session_id` to `csrf_token` and is live at `now`.
fn find_csrf_pair(temps: &Vec<TempSession>, session_id: &String, csrf_token: &String, now: i64) -> (r: bool)
    ensures
        r == csrf_pair_live(temps@, session_id@, csrf_token@, now as int),
{
    let mut i: usize = 0;
    while i < temps.len()
        invariant
            i <= temps@.len(),
            forall|j: int|
                0 <= j < i ==> !(#[trigger] temps@[j].session_id@ == session_id@ && temps@[j].csrf_token@ == csrf_token@
                    && now < temps@[j].expires_at),
        decreases temps@.len() - i,
    {
        let t = &temps[i];
        if t.session_id == *session_id && t.csrf_token == *csrf_token && now < t.expires_at {
            assert(temps@.contains(temps@[i as int]));
            return true;
        }
        i = i + 1;
    }
    false
}

/// Account ids lie in `1..next_id`; emails and ids are unique.
pub open spec fn users_wf(users: Seq<User>, next_id: int) -> bool {
    &&& forall|i: int| 0 <= i < users.len() ==> 1 <= #[trigger] users[i].id < next_id
    &&& forall|i: int, j: int|
        0 <= i < users.len() && 0 <= j < users.len() && i != j ==> #[trigger] users[i].email@ != #[trigger] users[j].email@
    &&& forall|i: int, j: int|
        0 <= i < users.len() && 0 <= j < users.len() && i != j ==> #[trigger] users[i].id != #[trigger] users[j].id
}

/// Session tokens are unique and every session belongs to a stored account.
pub open spec fn sessions_wf(users: Seq<User>, sessions: Seq<Session>) -> bool {
    &&& forall|a: Session, b: Session|
        #![trigger sessions.contains(a), sessions.contains(b)]
        sessions.contains(a) && sessions.contains(b) && a.token@ == b.token@ ==> a == b
    &&& forall|s: Session|
        #![trigger sessions.contains(s)]
        sessions.contains(s) ==> exists|i: int| 0 <= i < users.len() && #[trigger] users[i].id == s.user_id
}

/// Pre-authentication session ids and CSRF tokens are each carried by one
/// record only.
pub open spec fn temps_wf(temps: Seq<TempSession>) -> bool {
    &&& forall|a: TempSession, b: TempSession|
        #![trigger temps.contains(a), temps.contains(b)]
        temps.contains(a) && temps.contains(b) && a.session_id@ == b.session_id@ ==> a == b
    &&& forall|a: TempSession, b: TempSession|
        #![trigger temps.contains(a), temps.contains(b)]
        temps.contains(a) && temps.contains(b) && a.csrf_token@ == b.csrf_token@ ==> a == b
}

/// Dropping pre-authentication records keeps their invariant.
proof fn lemma_temps_wf_subset(before: Seq<TempSession>, after: Seq<TempSession>)
    requires
        temps_wf(before),
        forall|t: TempSession| #[trigger] after.contains(t) ==> before.contains(t),
    ensures
        temps_wf(after),
{
    assert forall|a: TempSession, b: TempSession|
        #![trigger after.contains(a), after.contains(b)]
        after.contains(a) && after.contains(b) && a.session_id@ == b.session_id@ implies a == b by {
        assert(before.contains(a) && before.contains(b));
    }
    assert forall|a: TempSession, b: TempSession|
        #![trigger after.contains(a), after.contains(b)]
        after.contains(a) && after.contains(b) && a.csrf_token@ == b.csrf_token@ implies a == b by {
        assert(before.contains(a) && before.contains(b));
    }
}

/// Whether a record of `temps` already carries `session_id` or `csrf_token`.
fn temp_value_in_use(temps: &Vec<TempSession>, session_id: &String, csrf_token: &String) -> (r: bool)
    ensures
        r == exists|j: int|
            0 <= j < temps@.len() && (#[trigger] temps@[j]).session_id@ == session_id@ || 0 <= j < temps@.len() && temps@[j].csrf_token@ == csrf_token@,
{
    let mut i: usize = 0;
    while i < temps.len()
        invariant
            i <= temps@.len(),
            forall|j: int|
                0 <= j < i ==> (#[trigger] temps@[j]).session_id@ != session_id@ && temps@[j].csrf_token@ != csrf_token@,
        decreases temps@.len() - i,
    {
        if temps[i].session_id == *session_id || temps[i].csrf_token == *csrf_token {
            return true;
        }
        i = i + 1;
    }
    false
}

/// Dropping sessions keeps the session invariant.
proof fn lemma_sessions_wf_subset(users: Seq<User>, before: Seq<Session>, after: Seq<Session>)
    requires
        sessions_wf(users, before),
        forall|s: Session| #[trigger] after.contains(s) ==> before.contains(s),
    ensures
        sessions_wf(users, after),
{
    assert forall|a: Session, b: Session|
        #![trigger after.contains(a), after.contains(b)]
        after.contains(a) && after.contains(b) && a.token@ == b.token@ implies a == b by {
        assert(before.contains(a) && before.contains(b));
    }
    assert forall|s: Session| #![trigger after.contains(s)] after.contains(s) implies
        exists|i: int| 0 <= i < users.len() && #[trigger] users[i].id == s.user_id by {
        assert(before.contains(s));
    }
}

/// The position of the account with `email`, if any.
fn find_user_by_email(users: &Vec<User>, email: &String) -> (r: Option<usize>)
    ensures
        match r {
            Some(i) => i < users@.len() && users@[i as int].email@ == email@,
            None => !email_taken(users@, email@),
        },
{
    let mut i: usize = 0;
    while i < users.len()
        invariant
            i <= users@.len(),
            forall|j: int| 0 <= j < i ==> #[trigger] users@[j].email@ != email@,
        decreases users@.len() - i,
    {
        if users[i].email == *email {
            return Some(i);
        }
        i = i + 1;
    }
    None
}

/// The position of the account with id `user_id`, if any.
fn find_user_by_id(users: &Vec<User>, user_id: i64) -> (r: Option<usize>)
    ensures
        match r {
            Some(i) => i < users@.len() && users@[i as int].id == user_id,
            None => forall|j: int| 0 <= j < users@.len() ==> #[trigger] users@[j].id != user_id,
        },
{
    let mut i: usize = 0;
    while i < users.len()
        invariant
            i <= users@.len(),
            forall|j: int| 0 <= j < i ==> #[trigger] users@[j].id != user_id,
        decreases users@.len() - i,
    {
        if users[i].id == user_id {
            return Some(i);
        }
        i = i + 1;
    }
    None
}

/// Finishes a credential check once the account for the email has been
/// looked up: an absent account and a wrong password give the same error.
pub fn check_password(found: Option<User>, password: &str) -> (r: Result<User, AuthError>)
    ensures
        match found {
            None => r == Err::<User, AuthError>(AuthError::InvalidCredentials),
            Some(user) => r == if argon2_accepts(password@, user.password_hash@) {
                Ok::<User, AuthError>(user)
            } else {
                Err::<User, AuthError>(AuthError::InvalidCredentials)
            },
        },
{
    match found {
        None => Err(AuthError::InvalidCredentials),
        Some(user) => if argon2_verify(password, user.password_hash.as_str()) {
            Ok(user)
        } else {
            Err(AuthError::InvalidCredentials)
        },
    }
}

/// In-memory adapter of the credential and session store.
///
/// Emails are unique, ids are unique and below the next free id, session
/// tokens are unique, and every session belongs to a stored account.
pub struct MemoryAuthRepository {
    users: Vec<User>,
    sessions: Vec<Session>,
    temp_sessions: Vec<TempSession>,
    next_id: i64,
}

impl MemoryAuthRepository {
    pub closed spec fn users_view(&self) -> Seq<User> {
        self.users@
    }

    pub closed spec fn sessions_view(&self) -> Seq<Session> {
        self.sessions@
    }

    pub closed spec fn temp_sessions_view(&self) -> Seq<TempSession> {
        self.temp_sessions@
    }

    /// The id that the next stored record receives.
    pub closed spec fn next_id_view(&self) -> int {
        self.next_id as int
    }

    /// Whether another record can still receive an id.
    pub open spec fn has_free_id(&self) -> bool {
        self.next_id_view() < i64::MAX
    }

    pub open spec fn wf(&self) -> bool {
        &&& 1 <= self.next_id_view()
        &&& users_wf(self.users_view(), self.next_id_view())
        &&& sessions_wf(self.users_view(), self.sessions_view())
        &&& temps_wf(self.temp_sessions_view())
    }

    /// An empty store.
    pub fn new() -> (r: MemoryAuthRepository)
        ensures
            r.wf(),
            r.users_view().len() == 0,
            r.sessions_view().len() == 0,
            r.temp_sessions_view().len() == 0,
            r.next_id_view() == 1,
    {
        MemoryAuthRepository { users: Vec::new(), sessions: Vec::new(), temp_sessions: Vec::new(), next_id: 1 }
    }

    /// Number of stored accounts.
    pub fn user_count(&self) -> (r: usize)
        ensures
            r == self.users_view().len(),
    {
        self.users.len()
    }

    /// Number of stored sessions, expired ones included until swept.
    pub fn session_count(&self) -> (r: usize)
        ensures
            r == self.sessions_view().len(),
    {
        self.sessions.len()
    }

    /// Number of stored pre-authentication records, expired ones included
    /// until swept.
    pub fn temp_session_count(&self) -> (r: usize)
        ensures
            r == self.temp_sessions_view().len(),
    {
        self.temp_sessions.len()
    }

    /// Deletes every pre-authentication record whose expiry lies before `now`.
    fn sweep_temp_sessions(&mut self, now: i64)
        requires
            old(self).wf(),
        ensures
            final(self).wf(),
            final(self).temp_sessions_view() == old(self).temp_sessions_view().filter(temp_unexpired(now as int)),
            final(self).users_view() == old(self).users_view(),
            final(self).sessions_view() == old(self).sessions_view(),
            final(self).next_id_view() == old(self).next_id_view(),
    {
        let ghost before = *self;
        self.temp_sessions = unexpired_temp_sessions(&self.temp_sessions, now);
        assert(self.users_view() == before.users_view());
        assert(self.sessions_view() == before.sessions_view());
        proof {
            lemma_filter_within(before.temp_sessions_view(), temp_unexpired(now as int));
            lemma_temps_wf_subset(before.temp_sessions_view(), self.temp_sessions_view());
        }
    }

    /// Deletes the sessions that `rule` does not keep.
    fn retain_sessions(&mut self, rule: &SessionRule)
        requires
            old(self).wf(),
        ensures
            final(self).wf(),
            final(self).sessions_view() == old(self).sessions_view().filter(rule.keeps()),
            final(self).users_view() == old(self).users_view(),
            final(self).temp_sessions_view() == old(self).temp_sessions_view(),
            final(self).next_id_view() == old(self).next_id_view(),
    {
        let ghost before = *self;
        self.sessions = sessions_kept_by(&self.sessions, rule);
        assert(self.users_view() == before.users_view());
        proof {
            lemma_filter_within(before.sessions_view(), rule.keeps());
            lemma_sessions_wf_subset(self.users_view(), before.sessions_view(), self.sessions_view());
        }
    }

    /// Whether a live session carries `token`, and whose it is.
    fn find_live_session(&self, token: &String, now: i64) -> (r: Option<i64>)
        ensures
            match r {
                Some(user_id) => session_held_by(self.sessions_view(), token@, now as int, user_id),
                None => !session_live(self.sessions_view(), token@, now as int),
            },
    {
        let mut i: usize = 0;
        while i < self.sessions.len()
            invariant
                i <= self.sessions@.len(),
                forall|j: int| 0 <= j < i ==> !(#[trigger] self.sessions@[j].token@ == token@ && now < self.sessions@[j].expires_at),
            decreases self.sessions@.len() - i,
        {
            let s = &self.sessions[i];
            if s.token == *token && now < s.expires_at {
                assert(self.sessions@.contains(self.sessions@[i as int]));
                return Some(s.user_id);
            }
            i = i + 1;
        }
        None
    }

    /// Sweeps expired pre-authentication records, then accepts when a live one
    /// binds `session_id` to `csrf_token` at time `now`.
    pub fn validate_csrf_at(&mut self, session_id: &str, csrf_token: &str, now: i64) -> (r: Result<(), AuthError>)
        requires
            old(self).wf(),
        ensures
            final(self).wf(),
            final(self).temp_sessions_view() == old(self).temp_sessions_view().filter(temp_unexpired(now as int)),
            final(self).users_view() == old(self).users_view(),
            final(self).sessions_view() == old(self).sessions_view(),
            final(self).next_id_view() == old(self).next_id_view(),
            r is Ok <==> csrf_pair_live(old(self).temp_sessions_view(), session_id@, csrf_token@, now as int),
            r is Err ==> r == Err::<(), AuthError>(AuthError::InvalidSession),
    {
        let ghost before = self.temp_sessions_view();
        self.sweep_temp_sessions(now);
        let session_id = session_id.to_owned();
        let csrf_token = csrf_token.to_owned();
        proof {
            let keep = temp_unexpired(now as int);
            let after = self.temp_sessions_view();
            lemma_filter_within(before, keep);
            lemma_filter_keeps(before, keep);
            if csrf_pair_live(before, session_id@, csrf_token@, now as int) {
                let t = choose|t: TempSession|
                    #![trigger before.contains(t)]
                    before.contains(t) && t.session_id@ == session_id@ && t.csrf_token@ == csrf_token@ && t.live_at(now as int);
                assert(after.contains(t));
            }
            if csrf_pair_live(after, session_id@, csrf_token@, now as int) {
                let t = choose|t: TempSession|
                    #![trigger after.contains(t)]
                    after.contains(t) && t.session_id@ == session_id@ && t.csrf_token@ == csrf_token@ && t.live_at(now as int);
                assert(before.contains(t));
            }
        }
        if find_csrf_pair(&self.temp_sessions, &session_id, &csrf_token, now) {
            Ok(())
        } else {
            Err(AuthError::InvalidSession)
        }
    }

    /// Sweeps expired sessions, then resolves `token` to the user owning the
    /// live session that carries it.
    pub fn validate_session_at(&mut self, token: &str, now: i64) -> (r: Result<i64, AuthError>)
        requires
            old(self).wf(),
        ensures
            final(self).wf(),
            final(self).sessions_view() == old(self).sessions_view().filter(session_unexpired(now as int)),
            final(self).users_view() == old(self).users_view(),
            final(self).temp_sessions_view() == old(self).temp_sessions_view(),
            final(self).next_id_view() == old(self).next_id_view(),
            match r {
                Ok(user_id) => session_held_by(old(self).sessions_view(), token@, now as int, user_id),
                Err(e) => e == AuthError::InvalidSession && !session_live(old(self).sessions_view(), token@, now as int),
            },
    {
        let ghost before = self.sessions_view();
        self.retain_sessions(&SessionRule::Unexpired(now));
        let token = token.to_owned();
        proof {
            let keep = session_unexpired(now as int);
            let after = self.sessions_view();
            lemma_filter_within(before, keep);
            lemma_filter_keeps(before, keep);
            if session_live(before, token@, now as int) {
                let s = choose|s: Session|
                    #![trigger before.contains(s)]
                    before.contains(s) && s.token@ == token@ && s.live_at(now as int);
                assert(after.contains(s));
            }
        }
        match self.find_live_session(&token, now) {
            Some(user_id) => {
                proof {
                    let s = choose|s: Session|
                        #![trigger self.sessions@.contains(s)]
                        self.sessions@.contains(s) && s.token@ == token@ && s.live_at(now as int) && s.user_id == user_id;
                    assert(before.contains(s));
                }
                Ok(user_id)
            },
            None => Err(AuthError::InvalidSession),
        }
    }

    /// Stores a new account. The email column is unique: a taken email
    /// yields `DuplicateEmail` and leaves the store as it was.
    pub fn insert_user(&mut self, new_user: NewUser) -> (r: Result<User, AuthError>)
        requires
            old(self).wf(),
        ensures
            final(self).wf(),
            final(self).sessions_view() == old(self).sessions_view(),
            final(self).temp_sessions_view() == old(self).temp_sessions_view(),
            match r {
                Ok(user) => {
                    &&& !email_taken(old(self).users_view(), new_user.email@)
                    &&& old(self).has_free_id()
                    &&& user.id == old(self).next_id_view()
                    &&& user.uuid == new_user.uuid
                    &&& user.email == new_user.email
                    &&& user.password_hash == new_user.password_hash
                    &&& user.created_at == new_user.created_at
                    &&& user.updated_at == new_user.updated_at
                    &&& final(self).users_view() == old(self).users_view().push(user)
                    &&& final(self).next_id_view() == old(self).next_id_view() + 1
                },
                Err(e) => {
                    &&& final(self).users_view() == old(self).users_view()
                    &&& final(self).next_id_view() == old(self).next_id_view()
                    &&& e == (if email_taken(old(self).users_view(), new_user.email@) {
                        AuthError::DuplicateEmail
                    } else {
                        AuthError::DatabaseError
                    })
                    &&& e == AuthError::DatabaseError ==> !old(self).has_free_id()
                },
            },
    {
        if find_user_by_email(&self.users, &new_user.email).is_some() {
            return Err(AuthError::DuplicateEmail);
        }
        if self.next_id == i64::MAX {
            return Err(AuthError::DatabaseError);
        }
        let ghost before = *self;
        let user = User {
            id: self.next_id,
            uuid: new_user.uuid,
            email: new_user.email,
            password_hash: new_user.password_hash,
            created_at: new_user.created_at,
            updated_at: new_user.updated_at,
        };
        self.users.push(user.duplicate());
        self.next_id = self.next_id + 1;
        proof {
            let users = self.users_view();
            assert(users == before.users_view().push(user));
            assert forall|i: int| 0 <= i < users.len() implies 1 <= #[trigger] users[i].id < self.next_id_view() by {
                if i < users.len() - 1 {
                    assert(users[i] == before.users_view()[i]);
                }
            }
            assert(!email_taken(before.users_view(), user.email@));
            assert forall|i: int, j: int|
                0 <= i < users.len() && 0 <= j < users.len() && i != j implies #[trigger] users[i].email@ != #[trigger] users[j].email@ by {
                let last = users.len() - 1;
                if i < last {
                    assert(users[i] == before.users_view()[i]);
                }
                if j < last {
                    assert(users[j] == before.users_view()[j]);
                }
                if i == last {
                    assert(before.users_view()[j].email@ != user.email@);
                }
                if j == last {
                    assert(before.users_view()[i].email@ != user.email@);
                }
            }
            assert forall|i: int, j: int|
                0 <= i < users.len() && 0 <= j < users.len() && i != j implies #[trigger] users[i].id != #[trigger] users[j].id by {
                if i < users.len() - 1 {
                    assert(users[i] == before.users_view()[i]);
                }
                if j < users.len() - 1 {
                    assert(users[j] == before.users_view()[j]);
                }
            }
            let sessions = self.sessions_view();
            assert(sessions == before.sessions_view());
            assert forall|s: Session| #![trigger sessions.contains(s)] sessions.contains(s) implies
                exists|i: int| 0 <= i < users.len() && #[trigger] users[i].id == s.user_id by {
                let i = choose|i: int| 0 <= i < before.users_view().len() && #[trigger] before.users_view()[i].id == s.user_id;
                assert(users[i] == before.users_view()[i]);
            }
        }
        Ok(user)
    }

    /// Stores a new pre-authentication record under a fresh id. Session ids
    /// and CSRF tokens are unique: one already in use is a store failure.
    pub fn insert_temp_session(&mut self, new_temp: NewTempSession) -> (r: Result<TempSession, AuthError>)
        requires
            old(self).wf(),
        ensures
            final(self).wf(),
            final(self).users_view() == old(self).users_view(),
            final(self).sessions_view() == old(self).sessions_view(),
            match r {
                Ok(t) => {
                    &&& old(self).has_free_id()
                    &&& t.id == old(self).next_id_view()
                    &&& t.session_id == new_temp.session_id
                    &&& t.csrf_token == new_temp.csrf_token
                    &&& t.created_at == new_temp.created_at
                    &&& t.expires_at == new_temp.expires_at
                    &&& temp_values_fresh(old(self).temp_sessions_view(), t.session_id@, t.csrf_token@)
                    &&& final(self).temp_sessions_view() == old(self).temp_sessions_view().push(t)
                    &&& final(self).next_id_view() == old(self).next_id_view() + 1
                },
                Err(e) => {
                    &&& e == AuthError::DatabaseError
                    &&& !old(self).has_free_id() || !temp_values_fresh(
                        old(self).temp_sessions_view(),
                        new_temp.session_id@,
                        new_temp.csrf_token@,
                    )
                    &&& *final(self) == *old(self)
                },
            },
    {
        if self.next_id == i64::MAX || temp_value_in_use(&self.temp_sessions, &new_temp.session_id, &new_temp.csrf_token) {
            return Err(AuthError::DatabaseError);
        }
        let ghost before = *self;
        let t = TempSession {
            id: self.next_id,
            session_id: new_temp.session_id,
            csrf_token: new_temp.csrf_token,
            created_at: new_temp.created_at,
            expires_at: new_temp.expires_at,
        };
        self.temp_sessions.push(t.duplicate());
        self.next_id = self.next_id + 1;
        assert(self.users_view() == before.users_view());
        assert(self.sessions_view() == before.sessions_view());
        assert forall|i: int| 0 <= i < self.users_view().len() implies 1 <= #[trigger] self.users_view()[i].id < self.next_id_view() by {
            assert(self.users_view()[i] == before.users_view()[i]);
        }
        proof {
            let old_temps = before.temp_sessions_view();
            let temps = self.temp_sessions_view();
            assert(temps == old_temps.push(t));
            assert forall|x: TempSession| #[trigger] temps.contains(x) implies x == t || old_temps.contains(x) by {
                let k = choose|k: int| 0 <= k < temps.len() && temps[k] == x;
                if k < old_temps.len() {
                    assert(old_temps[k] == x);
                }
            }
            assert forall|x: TempSession| #[trigger] old_temps.contains(x) implies x.session_id@ != t.session_id@
                && x.csrf_token@ != t.csrf_token@ by {
                let k = choose|k: int| 0 <= k < old_temps.len() && old_temps[k] == x;
                assert(old_temps[k].session_id@ != t.session_id@);
            }
        }
        Ok(t)
    }

    /// Stores a session for an existing account. A session already carrying
    /// the same token is replaced, so tokens stay unique.
    pub fn insert_session(&mut self, new_session: NewSession) -> (r: Result<Session, AuthError>)
        requires
            old(self).wf(),
        ensures
            final(self).wf(),
            final(self).users_view() == old(self).users_view(),
            final(self).temp_sessions_view() == old(self).temp_sessions_view(),
            match r {
                Ok(s) => {
                    &&& exists|i: int| 0 <= i < old(self).users_view().len() && #[trigger] old(self).users_view()[i].id == new_session.user_id
                    &&& old(self).has_free_id()
                    &&& s.id == old(self).next_id_view()
                    &&& s.user_id == new_session.user_id
                    &&& s.token == new_session.token
                    &&& s.csrf_token == new_session.csrf_token
                    &&& s.created_at == new_session.created_at
                    &&& s.expires_at == new_session.expires_at
                    &&& final(self).sessions_view() == old(self).sessions_view().filter(
                        session_token_other_than(new_session.token@),
                    ).push(s)
                    &&& final(self).next_id_view() == old(self).next_id_view() + 1
                },
                Err(e) => {
                    &&& *final(self) == *old(self)
                    &&& e == (if forall|i: int| 0 <= i < old(self).users_view().len() ==> #[trigger] old(self).users_view()[i].id != new_session.user_id {
                        AuthError::NotFound
                    } else {
                        AuthError::DatabaseError
                    })
                    &&& e == AuthError::DatabaseError ==> !old(self).has_free_id()
                },
            },
    {
        let found = find_user_by_id(&self.users, new_session.user_id);
        if found.is_none() {
            return Err(AuthError::NotFound);
        }
        if self.next_id == i64::MAX {
            return Err(AuthError::DatabaseError);
        }
        let ghost owner = found.unwrap() as int;
        let ghost before = *self;
        let rule = SessionRule::TokenOtherThan(new_session.token.clone());
        self.retain_sessions(&rule);
        let ghost kept = self.sessions_view();
        let s = Session {
            id: self.next_id,
            user_id: new_session.user_id,
            token: new_session.token,
            csrf_token: new_session.csrf_token,
            expires_at: new_session.expires_at,
            created_at: new_session.created_at,
        };
        self.sessions.push(s.duplicate());
        self.next_id = self.next_id + 1;
        proof {
            let users = self.users_view();
            let sessions = self.sessions_view();
            assert(users == before.users_view());
            assert(sessions == kept.push(s));
            lemma_filter_within(before.sessions_view(), rule.keeps());
            assert forall|i: int| 0 <= i < users.len() implies 1 <= #[trigger] users[i].id < self.next_id_view() by {
                assert(users[i] == before.users_view()[i]);
            }
            assert forall|x: Session| #[trigger] sessions.contains(x) implies x == s || kept.contains(x) by {
                let k = choose|k: int| 0 <= k < sessions.len() && sessions[k] == x;
                if k < kept.len() {
                    assert(kept[k] == x);
                }
            }
            assert forall|a: Session, b: Session|
                #![trigger sessions.contains(a), sessions.contains(b)]
                sessions.contains(a) && sessions.contains(b) && a.token@ == b.token@ implies a == b by {
                if a != s && b != s {
                    assert(kept.contains(a) && kept.contains(b));
                    assert(before.sessions_view().contains(a) && before.sessions_view().contains(b));
                } else if a == s && b != s {
                    assert(kept.contains(b));
                } else if a != s && b == s {
                    assert(kept.contains(a));
                }
            }
            assert forall|x: Session| #![trigger sessions.contains(x)] sessions.contains(x) implies
                exists|i: int| 0 <= i < users.len() && #[trigger] users[i].id == x.user_id by {
                if x == s {
                    assert(users[owner].id == x.user_id);
                } else {
                    assert(kept.contains(x));
                    assert(before.sessions_view().contains(x));
                }
            }
        }
        Ok(s)
    }

    /// Hashes `password` with a fresh salt and stores the account for `email`,
    /// stamped `now`. A taken email is detected by the store's uniqueness rule
    /// and yields `DuplicateEmail` without adding a row.
    pub fn create_user_at(&mut self, email: String, password: String, now: i64) -> (r: Result<User, AuthError>)
        requires
            old(self).wf(),
        ensures
            final(self).wf(),
            final(self).sessions_view() == old(self).sessions_view(),
            final(self).temp_sessions_view() == old(self).temp_sessions_view(),
            match r {
                Ok(user) => {
                    &&& !email_taken(old(self).users_view(), email@)
                    &&& user.id == old(self).next_id_view()
                    &&& user.email == email
                    &&& user.uuid@.len() == 36
                    &&& user.created_at == now
                    &&& user.updated_at == now
                    &&& exists|salt: Seq<char>| generated_salt(salt) && user.password_hash@ == #[trigger] argon2_phc_of(password@, salt)
                    &&& final(self).users_view() == old(self).users_view().push(user)
                    &&& final(self).next_id_view() == old(self).next_id_view() + 1
                },
                Err(e) => {
                    &&& final(self).users_view() == old(self).users_view()
                    &&& final(self).next_id_view() == old(self).next_id_view()
                    &&& (e == AuthError::DuplicateEmail <==> email_taken(old(self).users_view(), email@))
                    &&& e == AuthError::PasswordHashing ==> password@.len() > MAX_PASSWORD_CHARS
                    &&& e == AuthError::DatabaseError ==> !old(self).has_free_id()
                    &&& e == AuthError::DuplicateEmail || e == AuthError::PasswordHashing || e == AuthError::DatabaseError
                },
            },
            email_taken(old(self).users_view(), email@) ==> r == Err::<User, AuthError>(AuthError::DuplicateEmail),
            !email_taken(old(self).users_view(), email@) && old(self).has_free_id() && password@.len() <= MAX_PASSWORD_CHARS
                ==> r is Ok,
    {
        let password_hash = match hash_password(password.as_str()) {
            Some(h) => h,
            None => {
                if find_user_by_email(&self.users, &email).is_some() {
                    return Err(AuthError::DuplicateEmail);
                }
                return Err(AuthError::PasswordHashing);
            },
        };
        let uuid = random_uuid_string();
        let new_user = User::new(email, password_hash, uuid, now);
        self.insert_user(new_user)
    }

    /// `create_user_at` at the current time. When the clock cannot be read,
    /// a taken email still yields `DuplicateEmail` and anything else is a
    /// store failure; the store is left as it was.
    pub fn create_user(&mut self, email: String, password: String) -> (r: Result<User, AuthError>)
        requires
            old(self).wf(),
        ensures
            final(self).wf(),
            final(self).sessions_view() == old(self).sessions_view(),
            final(self).temp_sessions_view() == old(self).temp_sessions_view(),
            match r {
                Ok(user) => {
                    &&& !email_taken(old(self).users_view(), email@)
                    &&& user.email == email
                    &&& user.uuid@.len() == 36
                    &&& user.created_at >= 0
                    &&& user.updated_at == user.created_at
                    &&& exists|salt: Seq<char>| generated_salt(salt) && user.password_hash@ == #[trigger] argon2_phc_of(password@, salt)
                    &&& final(self).users_view() == old(self).users_view().push(user)
                },
                Err(e) => {
                    &&& final(self).users_view() == old(self).users_view()
                    &&& (e == AuthError::DuplicateEmail <==> email_taken(old(self).users_view(), email@))
                    &&& e == AuthError::PasswordHashing ==> password@.len() > MAX_PASSWORD_CHARS
                    &&& e == AuthError::DuplicateEmail || e == AuthError::PasswordHashing || e == AuthError::DatabaseError
                },
            },
            email_taken(old(self).users_view(), email@) ==> r == Err::<User, AuthError>(AuthError::DuplicateEmail),
    {
        match current_time_millis() {
            Some(now) => self.create_user_at(email, password, now),
            None => if find_user_by_email(&self.users, &email).is_some() {
                Err(AuthError::DuplicateEmail)
            } else {
                Err(AuthError::DatabaseError)
            },
        }
    }

    /// Issues a pre-authentication record for `csrf_token` under a fresh
    /// random session id, valid for five minutes from now. A clock that
    /// cannot be read, an id space used up, or a session id or token already
    /// in use is a store failure that leaves the store as it was.
    pub fn create_temp_session(&mut self, csrf_token: String) -> (r: Result<TempSession, AuthError>)
        requires
            old(self).wf(),
        ensures
            final(self).wf(),
            final(self).users_view() == old(self).users_view(),
            final(self).sessions_view() == old(self).sessions_view(),
            match r {
                Ok(t) => {
                    &&& t.csrf_token == csrf_token
                    &&& t.session_id@.len() == 36
                    &&& t.created_at >= 0
                    &&& t.expires_at == t.created_at + TEMP_SESSION_TTL_MS
                    &&& temp_values_fresh(old(self).temp_sessions_view(), t.session_id@, t.csrf_token@)
                    &&& final(self).temp_sessions_view() == old(self).temp_sessions_view().push(t)
                },
                Err(e) => e == AuthError::DatabaseError && *final(self) == *old(self),
            },
    {
        let session_id = random_uuid_string();
        let now = match current_time_millis() {
            Some(now) => now,
            None => return Err(AuthError::DatabaseError),
        };
        if now > LATEST_CREATION_MS {
            return Err(AuthError::DatabaseError);
        }
        self.insert_temp_session(TempSession::new(session_id, csrf_token, now))
    }

    /// Promotes a pre-authentication session to a session of `user_id`
    /// created `now` and lasting twenty-four hours, keeping its cookie value as
    /// the token and its CSRF token.
    pub fn create_session_at(&mut self, user_id: i64, session_id: String, csrf_token: String, now: i64) -> (r: Result<Session, AuthError>)
        requires
            old(self).wf(),
        ensures
            final(self).wf(),
            final(self).users_view() == old(self).users_view(),
            final(self).temp_sessions_view() == old(self).temp_sessions_view(),
            match r {
                Ok(s) => {
                    &&& user_exists(old(self).users_view(), user_id)
                    &&& s.id == old(self).next_id_view()
                    &&& s.user_id == user_id
                    &&& s.token == session_id
                    &&& s.csrf_token == csrf_token
                    &&& s.created_at == now
                    &&& s.expires_at == now + SESSION_TTL_MS
                    &&& final(self).sessions_view() == old(self).sessions_view().filter(session_token_other_than(session_id@)).push(s)
                    &&& final(self).next_id_view() == old(self).next_id_view() + 1
                },
                Err(e) => {
                    &&& *final(self) == *old(self)
                    &&& e == (if !user_exists(old(self).users_view(), user_id) {
                        AuthError::NotFound
                    } else {
                        AuthError::DatabaseError
                    })
                    &&& e == AuthError::DatabaseError ==> !old(self).has_free_id() || now > LATEST_CREATION_MS
                },
            },
            user_exists(old(self).users_view(), user_id) && old(self).has_free_id() && now <= LATEST_CREATION_MS ==> r is Ok,
    {
        if now > LATEST_CREATION_MS {
            if find_user_by_id(&self.users, user_id).is_none() {
                return Err(AuthError::NotFound);
            }
            return Err(AuthError::DatabaseError);
        }
        self.insert_session(Session::new(user_id, session_id, csrf_token, now))
    }

    /// `create_session_at` at the current time; a clock that cannot be read
    /// is a store failure that leaves the store as it was.
    pub fn create_session(&mut self, user_id: i64, session_id: String, csrf_token: String) -> (r: Result<Session, AuthError>)
        requires
            old(self).wf(),
        ensures
            final(self).wf(),
            final(self).users_view() == old(self).users_view(),
            final(self).temp_sessions_view() == old(self).temp_sessions_view(),
            match r {
                Ok(s) => {
                    &&& user_exists(old(self).users_view(), user_id)
                    &&& s.user_id == user_id
                    &&& s.token == session_id
                    &&& s.csrf_token == csrf_token
                    &&& s.created_at >= 0
                    &&& s.expires_at == s.created_at + SESSION_TTL_MS
                    &&& final(self).sessions_view() == old(self).sessions_view().filter(session_token_other_than(session_id@)).push(s)
                },
                Err(e) => {
                    &&& *final(self) == *old(self)
                    &&& e == AuthError::NotFound || e == AuthError::DatabaseError
                    &&& e == AuthError::NotFound <==> !user_exists(old(self).users_view(), user_id)
                },
            },
    {
        match current_time_millis() {
            Some(now) => self.create_session_at(user_id, session_id, csrf_token, now),
            None => if find_user_by_id(&self.users, user_id).is_none() {
                Err(AuthError::NotFound)
            } else {
                Err(AuthError::DatabaseError)
            },
        }
    }

    /// `validate_csrf_at` at the current time; a clock that cannot be read is
    /// a store failure that leaves the store as it was.
    pub fn validate_csrf(&mut self, session_id: &str, csrf_token: &str) -> (r: Result<(), AuthError>)
        requires
            old(self).wf(),
        ensures
            final(self).wf(),
            final(self).users_view() == old(self).users_view(),
            final(self).sessions_view() == old(self).sessions_view(),
            r == Err::<(), AuthError>(AuthError::DatabaseError) ==> final(self).temp_sessions_view() == old(self).temp_sessions_view(),
            r != Err::<(), AuthError>(AuthError::DatabaseError) ==> exists|now: int| {
                &&& now >= 0
                &&& final(self).temp_sessions_view() == old(self).temp_sessions_view().filter(temp_unexpired(now))
                &&& (r is Ok <==> csrf_pair_live(old(self).temp_sessions_view(), session_id@, csrf_token@, now))
            },
            r is Err ==> r == Err::<(), AuthError>(AuthError::InvalidSession) || r == Err::<(), AuthError>(AuthError::DatabaseError),
    {
        match current_time_millis() {
            Some(now) => self.validate_csrf_at(session_id, csrf_token, now),
            None => Err(AuthError::DatabaseError),
        }
    }

    /// `validate_session_at` at the current time; a clock that cannot be read
    /// is a store failure that leaves the store as it was.
    pub fn validate_session(&mut self, token: &str) -> (r: Result<i64, AuthError>)
        requires
            old(self).wf(),
        ensures
            final(self).wf(),
            final(self).users_view() == old(self).users_view(),
            final(self).temp_sessions_view() == old(self).temp_sessions_view(),
            r == Err::<i64, AuthError>(AuthError::DatabaseError) ==> final(self).sessions_view() == old(self).sessions_view(),
            r != Err::<i64, AuthError>(AuthError::DatabaseError) ==> exists|now: int| {
                &&& now >= 0
                &&& final(self).sessions_view() == old(self).sessions_view().filter(session_unexpired(now))
                &&& match r {
                    Ok(user_id) => session_held_by(old(self).sessions_view(), token@, now, user_id),
                    Err(e) => e == AuthError::InvalidSession && !session_live(old(self).sessions_view(), token@, now),
                }
            },
    {
        match current_time_millis() {
            Some(now) => self.validate_session_at(token, now),
            None => Err(AuthError::DatabaseError),
        }
    }

    /// Deletes the session carrying `token`, if there is one. Always succeeds.
    pub fn invalidate_session(&mut self, token: &str) -> (r: Result<(), AuthError>)
        requires
            old(self).wf(),
        ensures
            final(self).wf(),
            r is Ok,
            final(self).sessions_view() == old(self).sessions_view().filter(session_token_other_than(token@)),
            final(self).users_view() == old(self).users_view(),
            final(self).temp_sessions_view() == old(self).temp_sessions_view(),
    {
        self.retain_sessions(&SessionRule::TokenOtherThan(token.to_owned()));
        Ok(())
    }

    /// The account for `email` when `password` matches its stored hash. An
    /// unknown email and a wrong password give the same error.
    pub fn verify_credentials(&self, email: String, password: String) -> (r: Result<User, AuthError>)
        requires
            self.wf(),
        ensures
            r is Ok <==> credentials_accepted(self.users_view(), email@, password@),
            match r {
                Ok(user) => self.users_view().contains(user) && user.email@ == email@,
                Err(e) => e == AuthError::InvalidCredentials,
            },
    {
        let found = match find_user_by_email(&self.users, &email) {
            Some(i) => Some(self.users[i].duplicate()),
            None => None,
        };
        let ghost users = self.users_view();
        proof {
            if found is Some {
                let u = found->Some_0;
                let i = choose|i: int| 0 <= i < users.len() && users[i] == u && u.email@ == email@;
                assert forall|j: int|
                    0 <= j < users.len() && users[j].email@ == email@ implies users[j] == u by {
                    if j != i {
                        assert(users[j].email@ != users[i].email@);
                    }
                }
                assert(users.contains(u));
            }
        }
        check_password(found, password.as_str())
    }

    /// Resolves `token` as `validate_session_at` does, then deletes the
    /// owning account together with all of its sessions.
    pub fn delete_user_at(&mut self, token: &str, now: i64) -> (r: Result<(), AuthError>)
        requires
            old(self).wf(),
        ensures
            final(self).wf(),
            final(self).temp_sessions_view() == old(self).temp_sessions_view(),
            match r {
                Ok(()) => exists|user_id: i64, k: int| {
                    &&& session_held_by(old(self).sessions_view(), token@, now as int, user_id)
                    &&& 0 <= k < old(self).users_view().len()
                    &&& old(self).users_view()[k].id == user_id
                    &&& final(self).users_view() == old(self).users_view().remove(k)
                    &&& final(self).sessions_view() == old(self).sessions_view().filter(session_unexpired(now as int)).filter(
                        session_owner_other_than(user_id),
                    )
                },
                Err(e) => {
                    &&& e == AuthError::InvalidSession
                    &&& !session_live(old(self).sessions_view(), token@, now as int)
                    &&& final(self).users_view() == old(self).users_view()
                    &&& final(self).sessions_view() == old(self).sessions_view().filter(session_unexpired(now as int))
                },
            },
    {
        let user_id = match self.validate_session_at(token, now) {
            Ok(user_id) => user_id,
            Err(e) => return Err(e),
        };
        let ghost swept = *self;
        proof {
            let s = choose|s: Session|
                #![trigger old(self).sessions_view().contains(s)]
                old(self).sessions_view().contains(s) && s.token@ == token@ && s.live_at(now as int) && s.user_id == user_id;
            assert(swept.users_view() == old(self).users_view());
            assert(exists|i: int| 0 <= i < swept.users_view().len() && #[trigger] swept.users_view()[i].id == user_id);
        }
        let k = match find_user_by_id(&self.users, user_id) {
            Some(k) => k,
            None => return Err(AuthError::InvalidSession),
        };
        let rule = SessionRule::OwnerOtherThan(user_id);
        self.retain_sessions(&rule);
        let ghost kept = *self;
        self.users.remove(k);
        proof {
            let users = swept.users_view();
            let rest = self.users_view();
            assert(rest == users.remove(k as int));
            assert forall|i: int| 0 <= i < rest.len() implies #[trigger] rest[i] == users[if i < k { i } else { i + 1 }] by {}
            assert forall|i: int| 0 <= i < rest.len() implies 1 <= #[trigger] rest[i].id < self.next_id_view() by {
                assert(rest[i] == users[if i < k { i } else { i + 1 }]);
            }
            assert forall|i: int, j: int|
                0 <= i < rest.len() && 0 <= j < rest.len() && i != j implies #[trigger] rest[i].email@ != #[trigger] rest[j].email@ by {
                assert(rest[i] == users[if i < k { i } else { i + 1 }]);
                assert(rest[j] == users[if j < k { j } else { j + 1 }]);
            }
            assert forall|i: int, j: int|
                0 <= i < rest.len() && 0 <= j < rest.len() && i != j implies #[trigger] rest[i].id != #[trigger] rest[j].id by {
                assert(rest[i] == users[if i < k { i } else { i + 1 }]);
                assert(rest[j] == users[if j < k { j } else { j + 1 }]);
            }
            let sessions = self.sessions_view();
            assert(sessions == kept.sessions_view());
            lemma_filter_within(swept.sessions_view(), rule.keeps());
            assert forall|x: Session| #![trigger sessions.contains(x)] sessions.contains(x) implies
                exists|i: int| 0 <= i < rest.len() && #[trigger] rest[i].id == x.user_id by {
                assert(swept.sessions_view().contains(x));
                let i = choose|i: int| 0 <= i < users.len() && #[trigger] users[i].id == x.user_id;
                assert(i != k);
                let j = if i < k { i } else { i - 1 };
                assert(rest[j] == users[i]);
            }
        }
        Ok(())
    }

    /// `delete_user_at` at the current time; a clock that cannot be read is a
    /// store failure that leaves the store as it was.
    pub fn delete_user(&mut self, token: &str) -> (r: Result<(), AuthError>)
        requires
            old(self).wf(),
        ensures
            final(self).wf(),
            final(self).temp_sessions_view() == old(self).temp_sessions_view(),
            r == Err::<(), AuthError>(AuthError::DatabaseError) ==> final(self).users_view() == old(self).users_view()
                && final(self).sessions_view() == old(self).sessions_view(),
            r != Err::<(), AuthError>(AuthError::DatabaseError) ==> exists|now: int|
                now >= 0 && #[trigger] deletion_outcome(*old(self), *final(self), token@, now, r),
    {
        match current_time_millis() {
            Some(now) => {
                let ghost before = *self;
                let r = self.delete_user_at(token, now);
                proof {
                    if r is Ok {
                        let (user_id, k) = choose|user_id: i64, k: int| {
                            &&& session_held_by(before.sessions_view(), token@, now as int, user_id)
                            &&& 0 <= k < before.users_view().len()
                            &&& before.users_view()[k].id == user_id
                            &&& self.users_view() == before.users_view().remove(k)
                            &&& self.sessions_view() == before.sessions_view().filter(session_unexpired(now as int)).filter(
                                session_owner_other_than(user_id),
                            )
                        };
                        assert(session_held_by(before.sessions_view(), token@, now as int, before.users_view()[k].id));
                    }
                }
                assert(deletion_outcome(before, *self, token@, now as int, r));
                r
            },
            None => Err(AuthError::DatabaseError),
        }
    }
}

/// What deleting the owner of `token` at time `now` does: on success the
/// owning account is gone with all of its sessions, and expired sessions are
/// swept; otherwise no live session carries the token and only the sweep
/// happened.
pub open spec fn deletion_outcome(
    before: MemoryAuthRepository,
    after: MemoryAuthRepository,
    token: Seq<char>,
    now: int,
    r: Result<(), AuthError>,
) -> bool {
    match r {
        Ok(()) => exists|k: int| {
            &&& 0 <= k < before.users_view().len()
            &&& session_held_by(before.sessions_view(), token, now, #[trigger] before.users_view()[k].id)
            &&& after.users_view() == before.users_view().remove(k)
            &&& after.sessions_view() == before.sessions_view().filter(session_unexpired(now)).filter(
                session_owner_other_than(before.users_view()[k].id),
            )
        },
        Err(e) => {
            &&& e == AuthError::InvalidSession
            &&& !session_live(before.sessions_view(), token, now)
            &&& after.users_view() == before.users_view()
            &&& after.sessions_view() == before.sessions_view().filter(session_unexpired(now))
        },
    }
}

/// A token resolves only to the account its session was created for, and to
/// nothing once twenty-four hours have passed since the session was created.
pub proof fn lemma_session_token_owner(repo: MemoryAuthRepository, created: Session, now: int, user_id: i64)
    requires
        repo.wf(),
        repo.sessions_view().contains(created),
    ensures
        session_held_by(repo.sessions_view(), created.token@, now, user_id) ==> user_id == created.user_id,
        created.expires_at == created.created_at + SESSION_TTL_MS && now >= created.created_at + SESSION_TTL_MS
            ==> !session_live(repo.sessions_view(), created.token@, now),
{
    let sessions = repo.sessions_view();
    if session_held_by(sessions, created.token@, now, user_id) {
        let s = choose|s: Session|
            #![trigger sessions.contains(s)]
            sessions.contains(s) && s.token@ == created.token@ && s.live_at(now) && s.user_id == user_id;
        assert(s == created);
    }
    if session_live(sessions, created.token@, now) {
        let s = choose|s: Session| #![trigger sessions.contains(s)] sessions.contains(s) && s.token@ == created.token@ && s.live_at(now);
        assert(s == created);
    }
}

/// Once a token has been invalidated, no session answers to it at any time.
pub proof fn lemma_invalidated_token_rejected(sessions: Seq<Session>, token: Seq<char>, now: int)
    ensures
        !session_live(sessions.filter(session_token_other_than(token)), token, now),
{
    lemma_filter_within(sessions, session_token_other_than(token));
}

/// A wrong password for a stored email and any password for an unknown email
/// are refused alike.
pub proof fn lemma_credential_failures_alike(
    repo: MemoryAuthRepository,
    known_email: Seq<char>,
    wrong_password: Seq<char>,
    unknown_email: Seq<char>,
    any_password: Seq<char>,
)
    requires
        repo.wf(),
        forall|i: int|
            0 <= i < repo.users_view().len() && #[trigger] repo.users_view()[i].email@ == known_email
                ==> !argon2_accepts(wrong_password, repo.users_view()[i].password_hash@),
        !email_taken(repo.users_view(), unknown_email),
    ensures
        !credentials_accepted(repo.users_view(), known_email, wrong_password),
        !credentials_accepted(repo.users_view(), unknown_email, any_password),
{
}

} // verus!
