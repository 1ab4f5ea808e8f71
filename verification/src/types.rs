//! The domain values that authorization and the audit trail speak of.

use std::collections::HashMap;
use vstd::prelude::*;

use crate::time::Timestamp;

verus! {

/// Who asks: a local user, by uid.
#[derive(Debug, Clone, Copy, PartialEq, Eq, Structural)]
pub enum Principal {
    Local(u32),
}

/// What is asked for.
#[derive(Debug, Clone, Copy, PartialEq, Eq, Structural)]
pub enum Action {
    Spawn,
}

impl Action {
    /// Every action, in declaration order.
    pub const ALL: [Action; 1] = [Action::Spawn];
}

/// The agent runtime that a resource runs on.
#[derive(Debug, Clone, Copy, PartialEq, Eq, Structural)]
pub enum RuntimeKind {
    Codex,
}

/// A capability granted with an authorization, by name.
#[derive(Debug, Clone, PartialEq, Eq)]
pub struct Capability(pub String);

/// What an action is aimed at. `session_id` is a UUID held as an integer.
#[derive(Debug, Clone, PartialEq, Eq)]
pub struct ResourceSpec {
    pub workspace: Option<String>,
    pub role: Option<String>,
    pub runtime: Option<RuntimeKind>,
    pub session_id: Option<u128>,
    pub labels: HashMap<String, String>,
}

impl Default for ResourceSpec {
    fn default() -> (r: ResourceSpec)
        ensures
            r.workspace is None,
            r.role is None,
            r.runtime is None,
            r.session_id is None,
            r.labels@ == Map::<String, String>::empty(),
    {
        ResourceSpec {
            workspace: None,
            role: None,
            runtime: None,
            session_id: None,
            labels: HashMap::new(),
        }
    }
}

/// A granted request: who, in which role, with which capabilities.
#[derive(Debug, Clone, PartialEq, Eq)]
pub struct Authorized {
    pub principal: Principal,
    pub role: String,
    pub capabilities: Vec<Capability>,
}

/// The outcome that an audit row records.
#[derive(Debug, Clone, PartialEq, Eq)]
pub enum AuditDecision {
    Allow,
    Deny { reason: String },
}

/// One row of the audit trail. `id` and `session_ref` are UUIDs held as integers.
#[derive(Debug, Clone, PartialEq, Eq)]
pub struct AuditRow {
    pub id: u128,
    pub timestamp: Timestamp,
    pub principal: Principal,
    pub action: Action,
    pub resource: ResourceSpec,
    pub decision: AuditDecision,
    pub session_ref: Option<u128>,
    pub notes: Option<String>,
    pub policy_id: Option<String>,
    pub evaluation_trace: Option<String>,
    pub denial_reason: Option<String>,
}

} // verus!
