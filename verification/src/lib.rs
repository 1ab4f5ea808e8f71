//! Audit records for the identity manager: the domain types, the encoding of
//! an audit row into the text columns of the audit table and back, and the
//! decisions made while reading the table.

pub mod authz;
pub mod error;
pub mod ids;
pub mod record;
pub mod schema;
pub mod time;
pub mod types;

pub use authz::{Authorizer, AuthzResult};
pub use error::{AuditError, AuthzError, StoreError};
pub use ids::{parse_uuid, uuid_to_text};
pub use record::{collect_results, parse_optional_uuid, AuditRecord};
pub use schema::{AuditTableColumn, AUDIT_TABLE, RESERVED_AUDIT_COLUMNS};
pub use time::Timestamp;
pub use types::{
    Action, AuditDecision, AuditRow, Authorized, Capability, Principal, ResourceSpec, RuntimeKind,
};
