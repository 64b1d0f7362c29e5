//! Decisions shared by the intent endpoints: the errors they answer with
//! and the tenant guard applied when a JWT names a tenant.

use vstd::prelude::*;
use crate::ids::{uuid_string, uuid_text};
use crate::text::push_char;

verus! {

/// Error answered by an intent endpoint. `Service` passes on an error of a
/// backing service unchanged.
#[derive(Debug)]
pub enum HandlerError<E> {
    Service(E),
    Unauthorized(String),
    InvalidIngestRequest(String),
    InvalidIntentVersion(String),
    StorageError(String),
    Internal(String),
}

/// The message of a tenant mismatch: the JWT names `jwt_tenant`, the
/// checked resource belongs to `owner`; `what` names the resource.
pub open spec fn tenant_mismatch_text(what: Seq<char>, jwt_tenant: u128, owner: u128) -> Seq<char> {
    "Tenant mismatch: JWT tenant_id ("@ + uuid_text(jwt_tenant) + ") does not match "@ + what + " tenant_id ("@
        + uuid_text(owner) + seq![')']
}

/// `intent`
pub open spec fn intent_word() -> Seq<char> {
    "intent"@
}

/// `request`
pub open spec fn request_word() -> Seq<char> {
    "request"@
}

fn tenant_mismatch_message(what: &str, jwt_tenant: u128, owner: u128) -> (s: String)
    ensures
        s@ == tenant_mismatch_text(what@, jwt_tenant, owner),
{
    let mut s = String::from_str("Tenant mismatch: JWT tenant_id (");
    s.append(uuid_string(jwt_tenant).as_str());
    s.append(") does not match ");
    s.append(what);
    s.append(" tenant_id (");
    s.append(uuid_string(owner).as_str());
    push_char(&mut s, ')');
    s
}

/// The tenant guard: without JWT claims every tenant passes; with claims
/// the owner must be the claimed tenant. `what` names the owner checked.
pub open spec fn guard_outcome<E>(what: Seq<char>, claims_tenant: Option<u128>, owner: u128, r: Result<(), HandlerError<E>>) -> bool {
    match claims_tenant {
        Some(t) if t != owner => r matches Err(HandlerError::Unauthorized(m)) && m@ == tenant_mismatch_text(
            what,
            t,
            owner,
        ),
        _ => r is Ok,
    }
}

/// Fails closed on a tenant mismatch when JWT claims are present; passes
/// when they are absent.
pub fn tenant_guard<E>(what: &str, claims_tenant: Option<u128>, owner: u128) -> (r: Result<(), HandlerError<E>>)
    ensures
        guard_outcome(what@, claims_tenant, owner, r),
{
    match claims_tenant {
        Some(t) => {
            if t != owner {
                Err(HandlerError::Unauthorized(tenant_mismatch_message(what, t, owner)))
            } else {
                Ok(())
            }
        },
        None => Ok(()),
    }
}

/// Outcome label of a request, for request counters.
pub open spec fn outcome_label_text(success: bool) -> Seq<char> {
    if success {
        "success"@
    } else {
        "error"@
    }
}

/// `success` or `error`.
pub fn outcome_label(success: bool) -> (s: &'static str)
    ensures
        s@ == outcome_label_text(success),
{
    if success {
        "success"
    } else {
        "error"
    }
}

} // verus!
