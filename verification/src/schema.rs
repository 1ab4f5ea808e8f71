//! The audit table's layout as the store reads it back.

use vstd::prelude::*;

verus! {

/// The name of the audit table.
pub const AUDIT_TABLE: &'static str = "audit";

/// The columns of the audit table that later policy work fills; they must
/// stay nullable.
pub const RESERVED_AUDIT_COLUMNS: [&'static str; 3] = ["policy_id", "evaluation_trace", "denial_reason"];

/// One column of a table as `PRAGMA table_info` describes it.
#[derive(Debug, Clone, PartialEq, Eq)]
pub struct AuditTableColumn {
    pub name: String,
    pub data_type: String,
    pub not_null: bool,
    pub primary_key: bool,
}

impl AuditTableColumn {
    /// The column described by one row of `PRAGMA table_info`: its `name`,
    /// `type`, `notnull` and `pk` fields. A flag is set where its field is not 0.
    pub fn from_table_info(name: String, data_type: String, notnull: i64, pk: i64) -> (c: Self)
        ensures
            c.name == name,
            c.data_type == data_type,
            c.not_null == (notnull != 0),
            c.primary_key == (pk != 0),
    {
        AuditTableColumn { name, data_type, not_null: notnull != 0, primary_key: pk != 0 }
    }
}

} // verus!
