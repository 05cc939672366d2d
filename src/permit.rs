//! Permits: signed, named, revocable grants of query permissions.

use vstd::prelude::*;

use crate::state::{after_revoke, AuthState, AuthView};

verus! {

/// The kinds of access a permit can grant.
#[derive(Clone, Copy, Debug, PartialEq, Eq, Structural)]
pub enum TokenPermissions {
    Allowance,
    Balance,
    History,
    Owner,
}

/// The contents of a permit that bear on authentication. Signature recovery
/// happens outside the library; its outcome is handed to [`validate`].
#[derive(Clone, Debug)]
pub struct Permit {
    /// The account that the permit says signed it.
    pub signer: String,
    /// The name under which the signer can revoke the permit.
    pub permit_name: String,
    pub permissions: Vec<TokenPermissions>,
    /// The service the permit is limited to, if any.
    pub scope: Option<String>,
}

/// Why a permit was refused.
#[derive(Clone, Copy, Debug, PartialEq, Eq, Structural)]
pub enum PermitError {
    WrongScope,
    SignerMismatch,
    Revoked,
}

/// Whether a permit with `scope` may be used at `expected`.
pub open spec fn scope_ok(scope: Option<String>, expected: Seq<char>) -> bool {
    match scope {
        Some(s) => s@ == expected,
        None => true,
    }
}

/// Whether the recovered signer is the declared one.
pub open spec fn signer_ok(permit: Permit, recovered: Option<String>) -> bool {
    match recovered {
        Some(r) => r@ == permit.signer@,
        None => false,
    }
}

/// The outcome of validating `permit` at `expected`, given the signer
/// recovered from its signature.
pub open spec fn validate_result(
    v: AuthView,
    permit: Permit,
    recovered: Option<String>,
    expected: Seq<char>,
) -> Result<Seq<char>, PermitError> {
    if !scope_ok(permit.scope, expected) {
        Err(PermitError::WrongScope)
    } else if !signer_ok(permit, recovered) {
        Err(PermitError::SignerMismatch)
    } else if v.revoked.contains((permit.signer@, permit.permit_name@)) {
        Err(PermitError::Revoked)
    } else {
        Ok(permit.signer@)
    }
}

/// A validly signed, unrevoked permit that grants `permission` passes
/// validation and grants it; after its signer revokes its name, validation
/// fails.
pub proof fn lemma_revocation_ends_permit(
    v: AuthView,
    permit: Permit,
    recovered: Option<String>,
    expected: Seq<char>,
    permission: TokenPermissions,
)
    requires
        signer_ok(permit, recovered),
        scope_ok(permit.scope, expected),
        permit.permissions@.contains(permission),
        !v.revoked.contains((permit.signer@, permit.permit_name@)),
    ensures
        validate_result(v, permit, recovered, expected) == Ok::<Seq<char>, PermitError>(
            permit.signer@,
        ),
        validate_result(
            after_revoke(v, permit.signer@, permit.permit_name@),
            permit,
            recovered,
            expected,
        ) == Err::<Seq<char>, PermitError>(PermitError::Revoked),
{
}

/// A permit whose recovered signer is not its declared signer fails
/// validation, whatever has been revoked.
pub proof fn lemma_signer_mismatch_rejected(
    v: AuthView,
    permit: Permit,
    recovered: Option<String>,
    expected: Seq<char>,
)
    requires
        !signer_ok(permit, recovered),
    ensures
        validate_result(v, permit, recovered, expected) is Err,
{
}

impl Permit {
    /// Whether the permit grants `permission`.
    pub fn check_permission(&self, permission: &TokenPermissions) -> (r: bool)
        ensures
            r == self.permissions@.contains(*permission),
    {
        let mut i: usize = 0;
        while i < self.permissions.len()
            invariant
                i <= self.permissions@.len(),
                forall|j: int| 0 <= j < i ==> self.permissions@[j] != *permission,
            decreases self.permissions@.len() - i,
        {
            if self.permissions[i] == *permission {
                assert(self.permissions@[i as int] == *permission);
                return true;
            }
            i = i + 1;
        }
        false
    }
}

/// Validates `permit` for use at `expected_scope`: its scope, if it has one,
/// must be `expected_scope`, the signer recovered from its signature must be
/// the declared one, and the signer must not have revoked its name. Returns
/// the signer.
pub fn validate(
    state: &AuthState,
    permit: &Permit,
    recovered: &Option<String>,
    expected_scope: &str,
) -> (r: Result<String, PermitError>)
    ensures
        match r {
            Ok(s) => validate_result(state@, *permit, *recovered, expected_scope@) == Ok::<
                Seq<char>,
                PermitError,
            >(s@),
            Err(e) => validate_result(state@, *permit, *recovered, expected_scope@) == Err::<
                Seq<char>,
                PermitError,
            >(e),
        },
{
    let expected = expected_scope.to_owned();
    match &permit.scope {
        Some(s) => {
            if *s != expected {
                return Err(PermitError::WrongScope);
            }
        },
        None => {},
    }
    match recovered {
        Some(signer) => {
            if *signer != permit.signer {
                return Err(PermitError::SignerMismatch);
            }
        },
        None => {
            return Err(PermitError::SignerMismatch);
        },
    }
    if state.is_revoked(&permit.signer, &permit.permit_name) {
        return Err(PermitError::Revoked);
    }
    Ok(permit.signer.clone())
}

} // verus!
