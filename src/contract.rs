//! Request handling: setting the service up, state-changing requests, and
//! the dispatch of queries to the two authentication schemes.

use vstd::prelude::*;
use vstd::utf8::encode_utf8;

use crate::crypto::{sha256_of, sha_256};
use crate::msg::{ExecuteMsg, InstantiateMsg, QueryAnswer, QueryMsg, QueryWithPermit};
use crate::permit::{scope_ok, signer_ok, validate, validate_result, Permit, TokenPermissions};
use crate::state::{after_revoke, AuthState, AuthView};
use crate::viewing_key::{
    after_create,
    after_set,
    check_key,
    create_key,
    created_key,
    key_valid,
    set_key,
    BlockInfo,
};

verus! {

/// Why a request was refused. Every failed credential check gives
/// `Unauthorized`, so that the answer does not tell which check failed.
#[derive(Clone, Copy, Debug, PartialEq, Eq, Structural)]
pub enum ContractError {
    Unauthorized,
    /// The query is not of a kind that the chosen scheme authenticates.
    MalformedRequest,
}

/// A key/value pair reported back to the sender of a request.
#[derive(Clone, Debug, PartialEq, Eq)]
pub struct Attribute {
    pub key: String,
    pub value: String,
}

/// What a state-changing request reports back.
#[derive(Clone, Debug, PartialEq, Eq)]
pub struct Response {
    pub attributes: Vec<Attribute>,
}

/// The name of the attribute that carries a new viewing key.
pub open spec fn viewing_key_attr() -> Seq<char> {
    seq!['v', 'i', 'e', 'w', 'i', 'n', 'g', '_', 'k', 'e', 'y']
}

/// `r` reports `key` as the new viewing key, and nothing else.
pub open spec fn reports_key(r: Response, key: Seq<char>) -> bool {
    &&& r.attributes@.len() == 1
    &&& r.attributes@[0].key@ == viewing_key_attr()
    &&& r.attributes@[0].value@ == key
}

/// The outcome of a permit query.
pub open spec fn permit_query_result(
    v: AuthView,
    permit: Permit,
    recovered: Option<String>,
    query: QueryWithPermit,
) -> Result<QueryAnswer, ContractError> {
    match validate_result(v, permit, recovered, v.contract_address) {
        Err(_) => Err(ContractError::Unauthorized),
        Ok(_) => match query {
            QueryWithPermit::Permissioned {  } => {
                if permit.permissions@.contains(TokenPermissions::Balance) {
                    Ok(QueryAnswer::QueryExAns {  })
                } else {
                    Err(ContractError::Unauthorized)
                }
            },
        },
    }
}

/// The outcome of a query that must be authenticated by a viewing key.
pub open spec fn key_query_result(v: AuthView, msg: QueryMsg) -> Result<QueryAnswer, ContractError> {
    match msg {
        QueryMsg::Permissioned { viewer, key } => {
            if key_valid(v, viewer@, key@) {
                Ok(QueryAnswer::QueryExAns {  })
            } else {
                Err(ContractError::Unauthorized)
            }
        },
        _ => Err(ContractError::MalformedRequest),
    }
}

/// The outcome of any query; `recovered` is the signer recovered from the
/// signature of the permit that the query carries, if it carries one.
pub open spec fn query_result(v: AuthView, msg: QueryMsg, recovered: Option<String>) -> Result<
    QueryAnswer,
    ContractError,
> {
    match msg {
        QueryMsg::QueryEx {  } => Ok(QueryAnswer::QueryExAns {  }),
        QueryMsg::WithPermit { permit, query } => permit_query_result(v, permit, recovered, query),
        _ => key_query_result(v, msg),
    }
}

/// A validly signed, unrevoked permit that grants balance access answers a
/// balance query; once its signer revokes its name, the same permit is
/// refused as unauthorized.
pub proof fn lemma_revoked_permit_refused(v: AuthView, permit: Permit, recovered: Option<String>)
    requires
        signer_ok(permit, recovered),
        scope_ok(permit.scope, v.contract_address),
        permit.permissions@.contains(TokenPermissions::Balance),
        !v.revoked.contains((permit.signer@, permit.permit_name@)),
    ensures
        permit_query_result(v, permit, recovered, QueryWithPermit::Permissioned {  }) == Ok::<
            QueryAnswer,
            ContractError,
        >(QueryAnswer::QueryExAns {  }),
        permit_query_result(
            after_revoke(v, permit.signer@, permit.permit_name@),
            permit,
            recovered,
            QueryWithPermit::Permissioned {  },
        ) == Err::<QueryAnswer, ContractError>(ContractError::Unauthorized),
{
}

/// Sets the service up: `sender` becomes the owner, and the digest of the
/// message's entropy seeds key derivation.
pub fn instantiate(sender: String, contract_address: String, msg: InstantiateMsg) -> (s: AuthState)
    ensures
        s.wf(),
        s@ == (AuthView {
            owner: sender@,
            contract_address: contract_address@,
            seed: sha256_of(encode_utf8(msg.entropy@)),
            keys: Map::empty(),
            revoked: Set::empty(),
        }),
{
    let seed = sha_256(msg.entropy.as_str().as_bytes());
    AuthState::new(sender, contract_address, seed)
}

fn key_response(key: String) -> (r: Response)
    ensures
        reports_key(r, key@),
{
    let name = String::from_str("viewing_key");
    proof {
        reveal_strlit("viewing_key");
        assert(name@ =~= viewing_key_attr());
    }
    Response { attributes: vec![Attribute { key: name, value: key }] }
}

/// Handles a state-changing request from `sender`.
pub fn execute(state: &mut AuthState, block: &BlockInfo, sender: &str, msg: ExecuteMsg) -> (r:
    Response)
    requires
        old(state).wf(),
    ensures
        final(state).wf(),
        match msg {
            ExecuteMsg::CreateViewingKey { entropy } => {
                &&& final(state)@ == after_create(
                    old(state)@,
                    *block,
                    sender@,
                    encode_utf8(entropy@),
                )
                &&& reports_key(r, created_key(old(state)@, *block, sender@, encode_utf8(entropy@)))
            },
            ExecuteMsg::SetViewingKey { key } => {
                &&& final(state)@ == after_set(old(state)@, sender@, key@)
                &&& reports_key(r, key@)
            },
            ExecuteMsg::RevokePermit { permit_name, .. } => {
                &&& final(state)@ == after_revoke(old(state)@, sender@, permit_name@)
                &&& r.attributes@.len() == 0
            },
        },
{
    match msg {
        ExecuteMsg::CreateViewingKey { entropy } => try_create_key(state, block, sender, entropy),
        ExecuteMsg::SetViewingKey { key } => try_set_key(state, sender, key.as_str()),
        ExecuteMsg::RevokePermit { permit_name, .. } => revoke_permit(state, sender, permit_name),
    }
}

/// Derives a viewing key for `sender` and reports it.
pub fn try_create_key(state: &mut AuthState, block: &BlockInfo, sender: &str, entropy: String) -> (r:
    Response)
    requires
        old(state).wf(),
    ensures
        final(state).wf(),
        final(state)@ == after_create(old(state)@, *block, sender@, encode_utf8(entropy@)),
        reports_key(r, created_key(old(state)@, *block, sender@, encode_utf8(entropy@))),
{
    let key = create_key(state, block, sender, entropy.as_str().as_bytes());
    key_response(key)
}

/// Installs `key` as the viewing key of `sender` and reports it.
pub fn try_set_key(state: &mut AuthState, sender: &str, key: &str) -> (r: Response)
    requires
        old(state).wf(),
    ensures
        final(state).wf(),
        final(state)@ == after_set(old(state)@, sender@, key@),
        reports_key(r, key@),
{
    set_key(state, sender, key);
    key_response(key.to_owned())
}

/// Revokes the permits of `sender` named `permit_name`.
pub fn revoke_permit(state: &mut AuthState, sender: &str, permit_name: String) -> (r: Response)
    requires
        old(state).wf(),
    ensures
        final(state).wf(),
        final(state)@ == after_revoke(old(state)@, sender@, permit_name@),
        old(state)@.revoked.contains((sender@, permit_name@)) ==> final(state)@ == old(state)@,
        r.attributes@.len() == 0,
{
    state.revoke(sender.to_owned(), permit_name);
    Response { attributes: Vec::new() }
}

/// Answers `msg`. `recovered` is the signer recovered from the signature of
/// the permit that a permit query carries; other queries ignore it.
pub fn query(state: &AuthState, msg: &QueryMsg, recovered: &Option<String>) -> (r: Result<
    QueryAnswer,
    ContractError,
>)
    requires
        state.wf(),
    ensures
        r == query_result(state@, *msg, *recovered),
{
    match msg {
        QueryMsg::QueryEx {  } => Ok(query_ex()),
        QueryMsg::WithPermit { permit, query } => permit_queries(state, permit, recovered, *query),
        _ => viewing_keys_queries(state, msg),
    }
}

/// Answers a query authenticated by `permit`, for the permit's signer.
pub fn permit_queries(
    state: &AuthState,
    permit: &Permit,
    recovered: &Option<String>,
    query: QueryWithPermit,
) -> (r: Result<QueryAnswer, ContractError>)
    requires
        state.wf(),
    ensures
        r == permit_query_result(state@, *permit, *recovered, query),
{
    let viewer = match validate(state, permit, recovered, state.contract_address().as_str()) {
        Ok(viewer) => viewer,
        Err(_) => {
            return Err(ContractError::Unauthorized);
        },
    };
    match query {
        QueryWithPermit::Permissioned {  } => {
            if !permit.check_permission(&TokenPermissions::Balance) {
                return Err(ContractError::Unauthorized);
            }
            Ok(query_permissioned(viewer))
        },
    }
}

/// Answers a query authenticated by a viewing key. A query of another kind
/// is a malformed request.
pub fn viewing_keys_queries(state: &AuthState, msg: &QueryMsg) -> (r: Result<
    QueryAnswer,
    ContractError,
>)
    requires
        state.wf(),
    ensures
        r == key_query_result(state@, *msg),
{
    let (address, key) = match msg.get_validation_params() {
        Some(params) => params,
        None => {
            return Err(ContractError::MalformedRequest);
        },
    };
    if !is_key_valid(state, address.as_str(), key) {
        Err(ContractError::Unauthorized)
    } else {
        match msg {
            QueryMsg::Permissioned { viewer, .. } => Ok(query_permissioned(viewer.clone())),
            _ => Err(ContractError::MalformedRequest),
        }
    }
}

/// Answers the query that needs no authentication.
pub fn query_ex() -> (r: QueryAnswer)
    ensures
        r == (QueryAnswer::QueryExAns {  }),
{
    QueryAnswer::QueryExAns {  }
}

/// Answers the authenticated query for `_viewer`.
pub fn query_permissioned(_viewer: String) -> (r: QueryAnswer)
    ensures
        r == (QueryAnswer::QueryExAns {  }),
{
    QueryAnswer::QueryExAns {  }
}

/// Whether `viewing_key` is the live viewing key of `account`.
pub fn is_key_valid(state: &AuthState, account: &str, viewing_key: String) -> (r: bool)
    requires
        state.wf(),
    ensures
        r == key_valid(state@, account@, viewing_key@),
{
    check_key(state, account, viewing_key.as_str())
}

} // verus!
