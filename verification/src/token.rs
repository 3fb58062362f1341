//! Request-scoped guarding. A guard extracts the designated header's
//! occurrences, demands exactly one, and delegates to the codec. Its
//! outcome is a tagged result handed to the dispatcher, which alone
//! decides the fallback route: anything but authentication is a
//! routing signal, never an abort of the pipeline.

use vstd::prelude::*;
use crate::codec;
use crate::codec::VerifyError;
use crate::codec::verify_spec;
use crate::role::Role;

verus! {

/// The principal id carried by a verified token.
#[derive(Debug, PartialEq)]
pub struct ApiToken(pub Vec<u8>);

/// The principal id carried by a verified token whose audience is the
/// admin role.
#[derive(Debug, PartialEq)]
pub struct AdminToken(pub Vec<u8>);

/// What a guard hands the dispatcher. Only the first variant lets the
/// guarded handler run; the other two are forwarding signals selecting
/// a lower-ranked handler, not errors.
#[derive(Debug, PartialEq)]
pub enum GuardOutcome<T> {
    /// Exactly one header occurrence, and it verified.
    Authenticated(T),
    /// The guard is not applicable: the header is absent or occurs
    /// more than once.
    Unauthenticated,
    /// Exactly one occurrence, but it did not verify.
    Malformed,
}

impl<T> GuardOutcome<T> {
    /// A routing signal: dispatch falls through to the next-ranked
    /// handler exactly when the guard did not authenticate.
    pub open spec fn is_forward(&self) -> bool {
        !(self matches GuardOutcome::Authenticated(_))
    }

    pub fn forwards(&self) -> (r: bool)
        ensures
            r == self.is_forward(),
    {
        !matches!(self, GuardOutcome::Authenticated(_))
    }
}

/// Read the subject out of a token under a signing key: the claims'
/// subject on success, and otherwise exactly the codec's rejection.
pub fn read_token(token: &Vec<u8>, signing_key: &Vec<u8>) -> (r: Result<Vec<u8>, VerifyError>)
    ensures
        match verify_spec(token@, signing_key@, None) {
            Ok(c) => r matches Ok(s) && s@ == c.subject,
            Err(e) => r matches Err(re) && re == e,
        },
{
    match codec::verify(token, signing_key, None) {
        Ok(c) => Ok(c.subject),
        Err(e) => Err(e),
    }
}

/// Read the subject out of a token while demanding the admin audience:
/// the claims' subject when the token verifies and names the admin
/// role, and otherwise exactly the codec's rejection.
pub fn read_token_admin(token: &Vec<u8>, signing_key: &Vec<u8>) -> (r: Result<
    Vec<u8>,
    VerifyError,
>)
    ensures
        match verify_spec(token@, signing_key@, Some(Role::Admin)) {
            Ok(c) => r matches Ok(s) && s@ == c.subject,
            Err(e) => r matches Err(re) && re == e,
        },
{
    match codec::verify(token, signing_key, Some(Role::Admin)) {
        Ok(c) => Ok(c.subject),
        Err(e) => Err(e),
    }
}

/// The fixed body of the fallback route that runs exactly when a
/// guard forwards: the uniform not-authorized answer, never a server
/// error.
pub fn profile_error() -> (r: String)
    ensures
        r@ == "{ \"success\": false, \"message\": \"Not authorized\" }"@,
{
    "{ \"success\": false, \"message\": \"Not authorized\" }".to_owned()
}

impl ApiToken {
    /// Guard a request by the given occurrences of the designated
    /// header: zero or several occurrences forward untouched, one
    /// occurrence authenticates exactly when it verifies.
    pub fn from_headers(headers: &Vec<Vec<u8>>, signing_key: &Vec<u8>) -> (r: GuardOutcome<
        ApiToken,
    >)
        ensures
            headers@.len() != 1 ==> r is Unauthenticated && r.is_forward(),
            headers@.len() == 1 ==> match verify_spec(headers@[0]@, signing_key@, None) {
                Ok(c) => r matches GuardOutcome::Authenticated(t) && t.0@ == c.subject,
                Err(_) => r is Malformed,
            },
    {
        if headers.len() != 1 {
            return GuardOutcome::Unauthenticated;
        }
        match read_token(&headers[0], signing_key) {
            Ok(subject) => GuardOutcome::Authenticated(ApiToken(subject)),
            Err(_) => GuardOutcome::Malformed,
        }
    }
}

impl AdminToken {
    /// Guard a privileged request: as the plain guard, but the one
    /// occurrence must also name the admin audience to authenticate.
    pub fn from_headers(headers: &Vec<Vec<u8>>, signing_key: &Vec<u8>) -> (r: GuardOutcome<
        AdminToken,
    >)
        ensures
            headers@.len() != 1 ==> r is Unauthenticated && r.is_forward(),
            headers@.len() == 1 ==> match verify_spec(headers@[0]@, signing_key@, Some(Role::Admin)) {
                Ok(c) => r matches GuardOutcome::Authenticated(t) && t.0@ == c.subject,
                Err(_) => r is Malformed,
            },
    {
        if headers.len() != 1 {
            return GuardOutcome::Unauthenticated;
        }
        match read_token_admin(&headers[0], signing_key) {
            Ok(subject) => GuardOutcome::Authenticated(AdminToken(subject)),
            Err(_) => GuardOutcome::Malformed,
        }
    }
}

} // verus!
