//! The HTTP status class each typed failure converts to at the route
//! boundary. Failures never crash the process: each becomes one of
//! these codes for the serving layer to answer with.

use vstd::prelude::*;
use crate::project;
use crate::user;

verus! {

/// The status for an account-side failure: unknown mail or id are
/// not-found, a rejected password is unauthorized, a hasher fault is a
/// server error, and a store fault is service-unavailable.
pub fn convert_auth_error(err: user::AuthenticationError) -> (r: u16)
    ensures
        err == user::AuthenticationError::IncorrectMail ==> r == 404,
        err == user::AuthenticationError::IncorrectUuid ==> r == 404,
        err == user::AuthenticationError::IncorrectPassword ==> r == 401,
        err == user::AuthenticationError::BcryptError ==> r == 501,
        err == user::AuthenticationError::DatabaseError ==> r == 503,
{
    match err {
        user::AuthenticationError::IncorrectMail => 404,
        user::AuthenticationError::IncorrectUuid => 404,
        user::AuthenticationError::IncorrectPassword => 401,
        user::AuthenticationError::BcryptError => 501,
        user::AuthenticationError::DatabaseError => 503,
    }
}

/// The status for a project-side failure: an unknown id is not-found,
/// a rejected password unauthorized, a store fault
/// service-unavailable.
pub fn convert_auth_error_project(err: project::AuthenticationError) -> (r: u16)
    ensures
        err == project::AuthenticationError::IncorrectUuid ==> r == 404,
        err == project::AuthenticationError::IncorrectPassword ==> r == 401,
        err == project::AuthenticationError::DatabaseError ==> r == 503,
{
    match err {
        project::AuthenticationError::IncorrectUuid => 404,
        project::AuthenticationError::IncorrectPassword => 401,
        project::AuthenticationError::DatabaseError => 503,
    }
}

} // verus!
