//! The interface through which requests are authorized.

use vstd::prelude::*;

use crate::error::AuthzError;
use crate::types::{Action, Authorized, Principal, ResourceSpec};

verus! {

/// The answer to an authorization request.
pub type AuthzResult = Result<Authorized, AuthzError>;

/// Decides whether a principal may perform an action on a resource.
/// Implementations record each decision in the audit trail.
pub trait Authorizer: Send + Sync {
    fn authorize(&self, principal: &Principal, action: Action, resource: &ResourceSpec) -> AuthzResult;
}

} // verus!
