use vstd::prelude::*;

use crate::auth_repository::{email_taken, AuthError, MemoryAuthRepository};
use crate::http::Rejection;
use crate::password::MAX_PASSWORD_CHARS;

verus! {

/// Body of an account creation request.
pub struct CreateUserRequest {
    pub email: String,
    pub password: String,
}

/// Body of a created account; `created_at` in milliseconds since the epoch.
pub struct UserResponse {
    pub uuid: String,
    pub email: String,
    pub created_at: i64,
}

/// How the account creation endpoint answers.
pub enum UserReply {
    /// 201 with the account as body.
    Created(UserResponse),
    /// The rejection's status with `{"error": message}` as body.
    Rejected(Rejection),
    /// 500 with an empty body.
    ServerError,
}

/// Creates an account stamped `now` without logging in: 201 with the
/// account, 409 for a taken email, 500 for any other failure.
pub fn create_user(repo: &mut MemoryAuthRepository, request: CreateUserRequest, now: i64) -> (r: UserReply)
    requires
        old(repo).wf(),
    ensures
        final(repo).wf(),
        final(repo).sessions_view() == old(repo).sessions_view(),
        final(repo).temp_sessions_view() == old(repo).temp_sessions_view(),
        match r {
            UserReply::Created(body) => {
                &&& !email_taken(old(repo).users_view(), request.email@)
                &&& final(repo).users_view() == old(repo).users_view().push(final(repo).users_view().last())
                &&& body.email == request.email
                &&& body.uuid == final(repo).users_view().last().uuid
                &&& body.created_at == final(repo).users_view().last().created_at
                &&& body.created_at == now
            },
            UserReply::Rejected(rejection) => {
                &&& rejection == Rejection::EmailExists
                &&& email_taken(old(repo).users_view(), request.email@)
                &&& final(repo).users_view() == old(repo).users_view()
            },
            UserReply::ServerError => {
                &&& final(repo).users_view() == old(repo).users_view()
                &&& !old(repo).has_free_id() || request.password@.len() > MAX_PASSWORD_CHARS
            },
        },
        email_taken(old(repo).users_view(), request.email@) ==> r == UserReply::Rejected(Rejection::EmailExists),
        !email_taken(old(repo).users_view(), request.email@) && old(repo).has_free_id() && request.password@.len()
            <= MAX_PASSWORD_CHARS ==> r is Created,
{
    match repo.create_user_at(request.email, request.password, now) {
        Ok(user) => {
            assert(repo.users_view().last() == user);
            UserReply::Created(UserResponse { uuid: user.uuid, email: user.email, created_at: user.created_at })
        },
        Err(AuthError::DuplicateEmail) => UserReply::Rejected(Rejection::EmailExists),
        Err(_) => UserReply::ServerError,
    }
}

} // verus!
