use query_auth::crypto::ct_eq;
use query_auth::contract::{
    execute, instantiate, is_key_valid, permit_queries, query, query_ex, query_permissioned,
    revoke_permit, try_create_key, try_set_key, viewing_keys_queries, ContractError,
};
use query_auth::msg::{ExecuteMsg, InstantiateMsg, QueryAnswer, QueryMsg, QueryWithPermit};
use query_auth::permit::{validate, Permit, PermitError, TokenPermissions};
use query_auth::state::AuthState;
use query_auth::viewing_key::{check_key, create_key, set_key, BlockInfo};

const CONTRACT: &str = "secret1contract";

fn fresh() -> AuthState {
    instantiate(
        "admin".to_string(),
        CONTRACT.to_string(),
        InstantiateMsg { entropy: "init".to_string() },
    )
}

fn block(height: u64) -> BlockInfo {
    BlockInfo { height, time_seconds: 1_700_000_000 }
}

fn key_query(viewer: &str, key: &str) -> QueryMsg {
    QueryMsg::Permissioned { viewer: viewer.to_string(), key: key.to_string() }
}

fn permit(signer: &str, name: &str, permissions: Vec<TokenPermissions>) -> Permit {
    Permit {
        signer: signer.to_string(),
        permit_name: name.to_string(),
        permissions,
        scope: Some(CONTRACT.to_string()),
    }
}

fn balance_query(p: &Permit) -> QueryMsg {
    QueryMsg::WithPermit { permit: p.clone(), query: QueryWithPermit::Permissioned {} }
}

fn reported_key(r: &query_auth::contract::Response) -> String {
    assert_eq!(r.attributes.len(), 1);
    assert_eq!(r.attributes[0].key, "viewing_key");
    r.attributes[0].value.clone()
}

#[test]
fn viewing_key_end_to_end() {
    let mut st = fresh();
    let r = execute(
        &mut st,
        &block(100),
        "account_a",
        ExecuteMsg::CreateViewingKey { entropy: "seed1".to_string() },
    );
    let k1 = reported_key(&r);
    let none: Option<String> = None;
    assert_eq!(query(&st, &key_query("account_a", &k1), &none), Ok(QueryAnswer::QueryExAns {}));
    assert_eq!(
        query(&st, &key_query("account_a", "wrong"), &none),
        Err(ContractError::Unauthorized)
    );
    let r = execute(
        &mut st,
        &block(101),
        "account_a",
        ExecuteMsg::SetViewingKey { key: "mykey".to_string() },
    );
    assert_eq!(reported_key(&r), "mykey");
    assert_eq!(
        query(&st, &key_query("account_a", &k1), &none),
        Err(ContractError::Unauthorized)
    );
    assert_eq!(query(&st, &key_query("account_a", "mykey"), &none), Ok(QueryAnswer::QueryExAns {}));
}

#[test]
fn permit_end_to_end() {
    let mut st = fresh();
    let p = permit("account_b", "session1", vec![TokenPermissions::Balance]);
    let signer = Some("account_b".to_string());
    assert_eq!(query(&st, &balance_query(&p), &signer), Ok(QueryAnswer::QueryExAns {}));
    let r = execute(
        &mut st,
        &block(5),
        "account_b",
        ExecuteMsg::RevokePermit { permit_name: "session1".to_string(), padding: None },
    );
    assert!(r.attributes.is_empty());
    assert_eq!(query(&st, &balance_query(&p), &signer), Err(ContractError::Unauthorized));
}

#[test]
fn unset_account_rejects_any_key() {
    let st = fresh();
    assert!(!check_key(&st, "nobody", ""));
    assert!(!check_key(&st, "nobody", "api_key_anything"));
    assert!(!is_key_valid(&st, "nobody", "mykey".to_string()));
}

#[test]
fn created_key_is_accepted_and_other_strings_are_not() {
    let mut st = fresh();
    let key = create_key(&mut st, &block(7), "alice", b"entropy");
    assert!(key.starts_with("api_key_"));
    // 32 digest bytes in padded base64 take 44 characters
    assert_eq!(key.len(), 8 + 44);
    assert!(check_key(&st, "alice", &key));
    assert!(!check_key(&st, "alice", "api_key_"));
    assert!(!check_key(&st, "bob", &key));
}

#[test]
fn created_keys_differ_for_same_entropy() {
    let mut st = fresh();
    let k1 = create_key(&mut st, &block(7), "alice", b"entropy");
    let k2 = create_key(&mut st, &block(7), "alice", b"entropy");
    assert_ne!(k1, k2);
    assert!(!check_key(&st, "alice", &k1));
    assert!(check_key(&st, "alice", &k2));
}

#[test]
fn created_key_depends_on_block_and_account() {
    let mut a = fresh();
    let mut b = fresh();
    let ka = create_key(&mut a, &block(7), "alice", b"e");
    let kb = create_key(&mut b, &block(8), "alice", b"e");
    assert_ne!(ka, kb);
    let mut c = fresh();
    let kc = create_key(&mut c, &block(7), "alice", b"e");
    assert_eq!(ka, kc);
}

#[test]
fn set_key_then_replace() {
    let mut st = fresh();
    set_key(&mut st, "alice", "first");
    assert!(check_key(&st, "alice", "first"));
    set_key(&mut st, "alice", "second");
    assert!(!check_key(&st, "alice", "first"));
    assert!(check_key(&st, "alice", "second"));
    assert!(!check_key(&st, "bob", "second"));
}

#[test]
fn set_key_accepts_any_form_and_empty_key() {
    let mut st = fresh();
    set_key(&mut st, "alice", "");
    assert!(check_key(&st, "alice", ""));
    assert!(!check_key(&st, "alice", " "));
}

#[test]
fn stored_hash_is_sha256_of_key() {
    let mut st = fresh();
    set_key(&mut st, "alice", "test");
    let expected: Vec<u8> = vec![
        159, 134, 208, 129, 136, 76, 125, 101, 154, 47, 234, 160, 197, 90, 208, 21, 163, 191, 79,
        27, 43, 11, 130, 44, 209, 93, 108, 21, 176, 240, 10, 8,
    ];
    assert_eq!(st.key_hash(&"alice".to_string()), Some(&expected));
    assert_eq!(st.key_hash(&"bob".to_string()), None);
}

#[test]
fn try_set_key_reports_key() {
    let mut st = fresh();
    let r = try_set_key(&mut st, "alice", "k");
    assert_eq!(reported_key(&r), "k");
    assert!(check_key(&st, "alice", "k"));
}

#[test]
fn try_create_key_reports_working_key() {
    let mut st = fresh();
    let r = try_create_key(&mut st, &block(1), "alice", "x".to_string());
    let k = reported_key(&r);
    assert!(is_key_valid(&st, "alice", k));
}

#[test]
fn revoke_twice_is_same_as_once() {
    let mut st = fresh();
    assert!(!st.is_revoked(&"bob".to_string(), &"p".to_string()));
    revoke_permit(&mut st, "bob", "p".to_string());
    assert!(st.is_revoked(&"bob".to_string(), &"p".to_string()));
    revoke_permit(&mut st, "bob", "p".to_string());
    assert!(st.is_revoked(&"bob".to_string(), &"p".to_string()));
    assert!(!st.is_revoked(&"bob".to_string(), &"q".to_string()));
    assert!(!st.is_revoked(&"carol".to_string(), &"p".to_string()));
}

#[test]
fn revocation_pairs_are_not_concatenated() {
    let mut st = fresh();
    revoke_permit(&mut st, "ab", "c".to_string());
    assert!(!st.is_revoked(&"a".to_string(), &"bc".to_string()));
}

#[test]
fn permission_not_granted_is_refused() {
    let st = fresh();
    let p = permit("bob", "s", vec![TokenPermissions::History, TokenPermissions::Allowance]);
    assert!(!p.check_permission(&TokenPermissions::Balance));
    assert!(p.check_permission(&TokenPermissions::History));
    assert!(!p.check_permission(&TokenPermissions::Owner));
    let signer = Some("bob".to_string());
    assert_eq!(validate(&st, &p, &signer, CONTRACT), Ok("bob".to_string()));
    assert_eq!(
        permit_queries(&st, &p, &signer, QueryWithPermit::Permissioned {}),
        Err(ContractError::Unauthorized)
    );
}

#[test]
fn empty_permission_set_grants_nothing() {
    let p = permit("bob", "s", vec![]);
    assert!(!p.check_permission(&TokenPermissions::Balance));
}

#[test]
fn signer_mismatch_fails_validate() {
    let mut st = fresh();
    let p = permit("bob", "s", vec![TokenPermissions::Balance]);
    let other = Some("mallory".to_string());
    assert_eq!(validate(&st, &p, &other, CONTRACT), Err(PermitError::SignerMismatch));
    assert_eq!(validate(&st, &p, &None, CONTRACT), Err(PermitError::SignerMismatch));
    revoke_permit(&mut st, "bob", "s".to_string());
    assert_eq!(validate(&st, &p, &other, CONTRACT), Err(PermitError::SignerMismatch));
}

#[test]
fn wrong_scope_fails_validate() {
    let st = fresh();
    let mut p = permit("bob", "s", vec![TokenPermissions::Balance]);
    let signer = Some("bob".to_string());
    assert_eq!(validate(&st, &p, &signer, "secret1other"), Err(PermitError::WrongScope));
    p.scope = None;
    assert_eq!(validate(&st, &p, &signer, "secret1other"), Ok("bob".to_string()));
}

#[test]
fn revoked_permit_fails_validate() {
    let mut st = fresh();
    let p = permit("bob", "s", vec![TokenPermissions::Balance]);
    let signer = Some("bob".to_string());
    assert_eq!(validate(&st, &p, &signer, CONTRACT), Ok("bob".to_string()));
    revoke_permit(&mut st, "alice", "s".to_string());
    assert_eq!(validate(&st, &p, &signer, CONTRACT), Ok("bob".to_string()));
    revoke_permit(&mut st, "bob", "s".to_string());
    assert_eq!(validate(&st, &p, &signer, CONTRACT), Err(PermitError::Revoked));
}

#[test]
fn non_key_query_is_malformed_for_key_path() {
    let st = fresh();
    assert_eq!(viewing_keys_queries(&st, &QueryMsg::QueryEx {}), Err(ContractError::MalformedRequest));
    let p = permit("bob", "s", vec![TokenPermissions::Balance]);
    assert_eq!(viewing_keys_queries(&st, &balance_query(&p)), Err(ContractError::MalformedRequest));
}

#[test]
fn validation_params_of_queries() {
    assert_eq!(
        key_query("alice", "k").get_validation_params(),
        Some(("alice".to_string(), "k".to_string()))
    );
    assert_eq!(QueryMsg::QueryEx {}.get_validation_params(), None);
}

#[test]
fn unauthenticated_query_answers() {
    let st = fresh();
    assert_eq!(query(&st, &QueryMsg::QueryEx {}, &None), Ok(QueryAnswer::QueryExAns {}));
    assert_eq!(query_ex(), QueryAnswer::QueryExAns {});
    assert_eq!(query_permissioned("x".to_string()), QueryAnswer::QueryExAns {});
}

#[test]
fn instantiate_records_config() {
    let st = fresh();
    assert_eq!(st.owner(), "admin");
    assert_eq!(st.contract_address(), CONTRACT);
    let other = instantiate(
        "admin".to_string(),
        CONTRACT.to_string(),
        InstantiateMsg { entropy: "different".to_string() },
    );
    assert_ne!(st.seed(), other.seed());
    assert_eq!(st.seed().len(), 32);
}

#[test]
fn ct_eq_compares_whole_slices() {
    assert!(ct_eq(b"", b""));
    assert!(ct_eq(b"abc", b"abc"));
    assert!(!ct_eq(b"abc", b"abd"));
    assert!(!ct_eq(b"abc", b"ab"));
    assert!(!ct_eq(b"xbc", b"abc"));
}
