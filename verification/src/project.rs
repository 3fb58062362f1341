//! The project and backing-pledge records and the decisions made over
//! what the store hands back for them. As with accounts, the serving
//! layer runs the parameterized queries; these functions decide what
//! each outcome means, keeping zero rows apart from a driver fault.

use vstd::prelude::*;
use crate::db::StoreFailure;

verus! {

/// Why a project-side lookup failed; the variant alone decides the
/// status class.
#[derive(Clone, Copy, PartialEq, Eq, Structural, Debug)]
pub enum AuthenticationError {
    /// The store could not run the query.
    DatabaseError,
    /// The lookup found no single matching row.
    IncorrectUuid,
    /// Kept for the shared status mapping; no project lookup checks a
    /// password.
    IncorrectPassword,
}

/// A backing pledge: one principal supporting one project.
#[derive(Debug, PartialEq, Clone)]
pub struct Support {
    pub support_id: Vec<u8>,
    pub user_id: Vec<u8>,
    pub project_id: Vec<u8>,
    pub created_at: i64,
}

/// A new pledge row as handed to the store.
#[derive(Debug, PartialEq)]
pub struct newSupport {
    pub user_id: Vec<u8>,
    pub project_id: Vec<u8>,
}

/// A project record, with the pledge count the store aggregates for it.
#[derive(Debug, PartialEq, Clone)]
pub struct Project {
    pub project_id: Vec<u8>,
    pub name: String,
    pub description: String,
    pub owner_id: Vec<u8>,
    pub created_at: i64,
    pub count: i64,
    pub image_url: String,
}

/// A new project row as handed to the store.
#[derive(Debug, PartialEq)]
pub struct newProject {
    pub name: String,
    pub description: String,
    pub owner_id: Vec<u8>,
    pub image_url: String,
}

impl Support {
    /// What a pledge lookup by principal id means: a driver fault is a
    /// store error, exactly one row is the pledge, anything else an
    /// unknown id.
    pub fn get_support_user(outcome: Result<Vec<Support>, StoreFailure>) -> (r: Result<
        Support,
        AuthenticationError,
    >)
        ensures
            outcome matches Err(f) ==> (r matches Err(e) && e
                == AuthenticationError::DatabaseError),
            outcome matches Ok(rows) ==> rows@.len() == 1 ==> (r matches Ok(s) && s == rows@[0]),
            outcome matches Ok(rows) ==> rows@.len() != 1 ==> (r matches Err(e) && e
                == AuthenticationError::IncorrectUuid),
    {
        match outcome {
            Err(_) => Err(AuthenticationError::DatabaseError),
            Ok(mut rows) => {
                if rows.len() == 1 {
                    Ok(rows.remove(0))
                } else {
                    Err(AuthenticationError::IncorrectUuid)
                }
            },
        }
    }
}

impl Project {
    /// What a project lookup by id means: a driver fault is a store
    /// error, exactly one row is the project, anything else an unknown
    /// id.
    pub fn get_project(outcome: Result<Vec<Project>, StoreFailure>) -> (r: Result<
        Project,
        AuthenticationError,
    >)
        ensures
            outcome matches Err(f) ==> (r matches Err(e) && e
                == AuthenticationError::DatabaseError),
            outcome matches Ok(rows) ==> rows@.len() == 1 ==> (r matches Ok(p) && p == rows@[0]),
            outcome matches Ok(rows) ==> rows@.len() != 1 ==> (r matches Err(e) && e
                == AuthenticationError::IncorrectUuid),
    {
        match outcome {
            Err(_) => Err(AuthenticationError::DatabaseError),
            Ok(mut rows) => {
                if rows.len() == 1 {
                    Ok(rows.remove(0))
                } else {
                    Err(AuthenticationError::IncorrectUuid)
                }
            },
        }
    }
}

} // verus!
