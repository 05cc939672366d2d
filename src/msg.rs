//! The messages the service accepts and the answers it gives.

use vstd::prelude::*;

use crate::permit::Permit;

verus! {

/// Sets the service up; `entropy` seeds key derivation.
#[derive(Clone, Debug, PartialEq, Eq)]
pub struct InstantiateMsg {
    pub entropy: String,
}

/// State-changing requests.
#[derive(Clone, Debug, PartialEq, Eq)]
pub enum ExecuteMsg {
    CreateViewingKey { entropy: String },
    SetViewingKey { key: String },
    /// Disallows the use of the sender's permits of the given name.
    RevokePermit {
        /// Name of the permits that are no longer valid.
        permit_name: String,
        /// Optional message length padding.
        padding: Option<String>,
    },
}

/// Read requests.
#[derive(Clone, Debug)]
pub enum QueryMsg {
    QueryEx {},
    Permissioned { viewer: String, key: String },
    WithPermit { permit: Permit, query: QueryWithPermit },
}

/// Queries authenticated by a permit.
#[derive(Clone, Copy, Debug, PartialEq, Eq, Structural)]
pub enum QueryWithPermit {
    Permissioned {},
}

/// Answers to queries.
#[derive(Clone, Debug, PartialEq, Eq)]
pub enum QueryAnswer {
    QueryExAns {},
    ViewingKeyError { error: String },
}

impl QueryMsg {
    /// The account and viewing key that a viewing-key query presents; `None`
    /// for a query that is not authenticated by a viewing key.
    pub fn get_validation_params(&self) -> (r: Option<(String, String)>)
        ensures
            match *self {
                QueryMsg::Permissioned { viewer, key } => r is Some && (r->0).0@ == viewer@
                    && (r->0).1@ == key@,
                _ => r is None,
            },
    {
        match self {
            QueryMsg::Permissioned { viewer, key } => Some((viewer.clone(), key.clone())),
            _ => None,
        }
    }
}

} // verus!
