//! The principal model and the credential decisions made over what the
//! store hands back. The store itself is an outside collaborator: the
//! serving layer runs the parameterized queries and passes each
//! outcome — the rows found, or a driver fault — into these functions,
//! which alone decide what it means. Zero rows and a driver fault are
//! kept apart throughout.

use vstd::prelude::*;
use crate::codec;
use crate::db::StoreFailure;
use crate::hasher;
use crate::hasher::bcrypt_match;
use crate::hasher::bcrypt_readable;
use crate::role::Role;

verus! {

/// Why an authentication step failed. The store and hasher payloads of
/// the two operational variants live with the serving layer; the
/// variant alone decides the status class.
#[derive(Clone, Copy, PartialEq, Eq, Structural, Debug)]
pub enum AuthenticationError {
    /// A lookup by id found no single matching row.
    IncorrectUuid,
    /// The offered password does not match the stored hash.
    IncorrectPassword,
    /// A lookup by email found no single matching row.
    IncorrectMail,
    /// The hasher could not answer.
    BcryptError,
    /// The store could not run the query.
    DatabaseError,
}

/// A new account row as handed to the store at registration.
#[derive(Debug, PartialEq)]
pub struct newUser {
    pub full_name: String,
    pub email: String,
    pub password: String,
    pub role: Role,
}

/// A principal: an authenticated identity with an assigned role. The
/// identity fields are immutable after registration; the password
/// field holds the stored hash, never a plaintext.
#[derive(Debug, PartialEq, Clone)]
pub struct User {
    pub uuid: Vec<u8>,
    pub full_name: String,
    pub email: String,
    pub created_at: i64,
    pub password: String,
    pub role: Role,
}

/// The credentials a login offers.
#[derive(Debug, PartialEq)]
pub struct UserWithPassword {
    pub email: String,
    pub password: String,
}

/// Prepare a registration row: the offered password is replaced by its
/// hash at the given work factor, the other fields are kept, and the
/// role is forced to standard. The stored hash is readable and matches
/// the offered password, so a login against the stored row is owed its
/// token; a work factor outside bcrypt's range is refused.
pub fn prepare_new_user(user: newUser, cost_factor: u32) -> (r: Result<
    newUser,
    AuthenticationError,
>)
    ensures
        r matches Ok(u) ==> u.full_name == user.full_name && u.email == user.email && u.role
            == Role::Standard && bcrypt_match(user.password@, u.password@)
            && bcrypt_readable(u.password@),
        r matches Err(e) ==> e == AuthenticationError::BcryptError,
        cost_factor < 4 || cost_factor > 31 ==> r is Err,
{
    match hasher::hash(&user.password, cost_factor) {
        Ok(h) => Ok(
            newUser {
                full_name: user.full_name,
                email: user.email,
                password: h,
                role: Role::Standard,
            },
        ),
        Err(_) => Err(AuthenticationError::BcryptError),
    }
}

/// What a profile lookup by id means: a driver fault is kept apart as
/// a store error, exactly one row is the record, and anything else is
/// an unknown id.
pub fn get_user(outcome: Result<Vec<User>, StoreFailure>) -> (r: Result<
    User,
    AuthenticationError,
>)
    ensures
        outcome matches Err(f) ==> (r matches Err(e) && e == AuthenticationError::DatabaseError),
        outcome matches Ok(rows) ==> rows@.len() == 1 ==> (r matches Ok(u) && u == rows@[0]),
        outcome matches Ok(rows) ==> rows@.len() != 1 ==> (r matches Err(e) && e
            == AuthenticationError::IncorrectUuid),
{
    match outcome {
        Err(_) => Err(AuthenticationError::DatabaseError),
        Ok(mut rows) => {
            if rows.len() == 1 {
                Ok(rows.remove(0))
            } else {
                Err(AuthenticationError::IncorrectUuid)
            }
        },
    }
}

/// What the credential lookup means. A driver fault is a store error;
/// no single row for the email is an unknown mail; on exactly one row
/// the offered password is checked against the stored hash. A readable
/// stored hash owes an answer: the principal on a match, the password
/// error otherwise; an unreadable stored hash fails closed with the
/// hasher error.
pub fn find_user(user: &UserWithPassword, outcome: Result<Vec<User>, StoreFailure>) -> (r: Result<
    Option<User>,
    AuthenticationError,
>)
    ensures
        outcome matches Err(f) ==> (r matches Err(e) && e == AuthenticationError::DatabaseError),
        outcome matches Ok(rows) ==> rows@.len() != 1 ==> (r matches Err(e) && e
            == AuthenticationError::IncorrectMail),
        outcome matches Ok(rows) ==> rows@.len() == 1 ==> ({
            let row = rows@[0];
            &&& bcrypt_readable(row.password@) && bcrypt_match(user.password@, row.password@)
                ==> (r matches Ok(ou) && ou matches Some(u) && u == row)
            &&& bcrypt_readable(row.password@) && !bcrypt_match(user.password@, row.password@)
                ==> (r matches Err(e) && e == AuthenticationError::IncorrectPassword)
            &&& !bcrypt_readable(row.password@) ==> (r matches Err(e) && e
                == AuthenticationError::BcryptError)
        }),
{
    match outcome {
        Err(_) => Err(AuthenticationError::DatabaseError),
        Ok(mut rows) => {
            if rows.len() == 1 {
                let row = rows.remove(0);
                match hasher::verify(&user.password, &row.password) {
                    Err(_) => Err(AuthenticationError::BcryptError),
                    Ok(true) => Ok(Some(row)),
                    Ok(false) => Err(AuthenticationError::IncorrectPassword),
                }
            } else {
                Err(AuthenticationError::IncorrectMail)
            }
        },
    }
}

/// The plainest view of the lookup: every failure collapses into "no
/// user". A principal comes out exactly for one row whose readable
/// hash matches the offered password.
pub fn check_login(user: &UserWithPassword, outcome: Result<Vec<User>, StoreFailure>) -> (r:
    Option<User>)
    ensures
        r matches Some(u) ==> (outcome matches Ok(rows) && rows@.len() == 1 && u == rows@[0]
            && bcrypt_match(user.password@, u.password@)),
        outcome matches Ok(rows) ==> rows@.len() == 1 && bcrypt_readable(rows@[0].password@)
            && bcrypt_match(user.password@, rows@[0].password@) ==> r == Some(rows@[0]),
        !(outcome matches Ok(rows) && rows@.len() == 1) ==> r is None,
        outcome matches Ok(rows) && rows@.len() == 1 && !bcrypt_match(
            user.password@,
            rows@[0].password@,
        ) ==> r is None,
{
    match find_user(user, outcome) {
        Ok(u) => u,
        Err(_) => None,
    }
}

/// The login decision: an offered credential pair against the rows the
/// store found for its email, under the process signing key. A single
/// row whose readable hash matches the password is owed a token issued
/// for that principal's id and role at the given time. Failure classes
/// stay apart: a store fault is service-unavailable, an unreadable
/// stored hash a server error, and every credential failure — unknown
/// mail or wrong password — the same not-found, which tells a caller
/// nothing about which part was wrong.
pub fn login(
    user: &UserWithPassword,
    outcome: Result<Vec<User>, StoreFailure>,
    signing_key: &Vec<u8>,
    issued_at: u64,
) -> (r: Result<Vec<u8>, u16>)
    ensures
        r matches Ok(t) ==> (outcome matches Ok(rows) && rows@.len() == 1 && bcrypt_match(
            user.password@,
            rows@[0].password@,
        ) && t@ == codec::issue_spec(rows@[0].uuid@, rows@[0].role, issued_at, signing_key@)),
        outcome matches Err(f) ==> (r matches Err(s) && s == 503),
        outcome matches Ok(rows) ==> rows@.len() != 1 ==> (r matches Err(s) && s == 404),
        outcome matches Ok(rows) ==> rows@.len() == 1 ==> ({
            let row = rows@[0];
            &&& bcrypt_readable(row.password@) && bcrypt_match(user.password@, row.password@)
                ==> (r matches Ok(t) && t@ == codec::issue_spec(
                row.uuid@,
                row.role,
                issued_at,
                signing_key@,
            ))
            &&& bcrypt_readable(row.password@) && !bcrypt_match(user.password@, row.password@)
                ==> (r matches Err(s) && s == 404)
            &&& !bcrypt_readable(row.password@) ==> (r matches Err(s) && s == 501)
        }),
{
    match find_user(user, outcome) {
        Ok(Some(u)) => Ok(codec::issue(&u.uuid, u.role, issued_at, signing_key)),
        Ok(None) => Err(404),
        Err(AuthenticationError::DatabaseError) => Err(503),
        Err(AuthenticationError::BcryptError) => Err(501),
        Err(_) => Err(404),
    }
}

} // verus!
