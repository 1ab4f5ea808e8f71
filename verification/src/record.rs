//! The text columns of an audit row as the audit table stores them, the
//! encoding of a row into them and the decoding of a stored row.

use vstd::prelude::*;

use crate::error::StoreError;
use crate::ids::{parse_uuid, uuid_hyphenated, uuid_parse, uuid_to_text};
use crate::time::{format_rfc3339, parse_rfc3339, rfc3339_instant, rfc3339_text, Timestamp};
use crate::types::{Action, AuditDecision, AuditRow, Principal, ResourceSpec};

verus! {

/// An audit row as the columns of the audit table hold it: the identifiers as
/// UUID text, the instant as RFC 3339 text, and the principal, action,
/// resource and decision as JSON text.
#[derive(Debug, Clone, PartialEq, Eq)]
pub struct AuditRecord {
    pub id: String,
    pub timestamp: String,
    pub principal: String,
    pub action: String,
    pub resource: String,
    pub decision: String,
    pub session_ref: Option<String>,
    pub notes: Option<String>,
    pub policy_id: Option<String>,
    pub evaluation_trace: Option<String>,
    pub denial_reason: Option<String>,
}

/// The optional UUID that an optional text denotes: `Some(None)` for no text,
/// `None` where the text is no UUID.
pub open spec fn optional_uuid(text: Option<String>) -> Option<Option<u128>> {
    match text {
        None => Some(None),
        Some(s) => match uuid_parse(s@) {
            Some(v) => Some(Some(v)),
            None => None,
        },
    }
}

/// The stored text of an optional UUID.
pub open spec fn optional_uuid_text(v: Option<u128>) -> Option<Seq<char>> {
    match v {
        None => None,
        Some(u) => Some(uuid_hyphenated(u)),
    }
}

pub open spec fn optional_view(s: Option<String>) -> Option<Seq<char>> {
    match s {
        None => None,
        Some(t) => Some(t@),
    }
}

/// The step of decoding a stored row at which it fails first.
#[derive(Debug, Clone, Copy, PartialEq, Eq, Structural)]
pub enum DecodeStep {
    Id,
    Timestamp,
    Principal,
    Action,
    Resource,
    Decision,
    SessionRef,
}

/// The row that a stored record and the JSON readings of its four JSON columns
/// give, where every column reads.
pub open spec fn decoded_row(
    rec: AuditRecord,
    principal: Result<Principal, StoreError>,
    action: Result<Action, StoreError>,
    resource: Result<ResourceSpec, StoreError>,
    decision: Result<AuditDecision, StoreError>,
) -> Option<AuditRow> {
    match (
        uuid_parse(rec.id@),
        rfc3339_instant(rec.timestamp@),
        principal,
        action,
        resource,
        decision,
        optional_uuid(rec.session_ref),
    ) {
        (Some(id), Some((secs, nanos)), Ok(p), Ok(a), Ok(r), Ok(d), Some(session_ref)) => Some(
            AuditRow {
                id,
                timestamp: Timestamp { secs, nanos },
                principal: p,
                action: a,
                resource: r,
                decision: d,
                session_ref,
                notes: rec.notes,
                policy_id: rec.policy_id,
                evaluation_trace: rec.evaluation_trace,
                denial_reason: rec.denial_reason,
            },
        ),
        _ => None,
    }
}

/// The first column, in the order id, timestamp, principal, action, resource,
/// decision, session reference, that does not read.
pub open spec fn first_failure(
    rec: AuditRecord,
    principal: Result<Principal, StoreError>,
    action: Result<Action, StoreError>,
    resource: Result<ResourceSpec, StoreError>,
    decision: Result<AuditDecision, StoreError>,
) -> Option<DecodeStep> {
    if uuid_parse(rec.id@) is None {
        Some(DecodeStep::Id)
    } else if rfc3339_instant(rec.timestamp@) is None {
        Some(DecodeStep::Timestamp)
    } else if principal is Err {
        Some(DecodeStep::Principal)
    } else if action is Err {
        Some(DecodeStep::Action)
    } else if resource is Err {
        Some(DecodeStep::Resource)
    } else if decision is Err {
        Some(DecodeStep::Decision)
    } else if optional_uuid(rec.session_ref) is None {
        Some(DecodeStep::SessionRef)
    } else {
        None
    }
}

/// An optional UUID column reads as the UUID that `parse_uuid` reads from its
/// text, whatever form the text takes (any case, simple, hyphenated, braced or
/// URN); it is absent only where there is no text, and fails only where the
/// text is no UUID.
pub proof fn lemma_optional_uuid_reads_every_form(text: Option<String>)
    ensures
        (optional_uuid(text) == Some(None::<u128>)) <==> text is None,
        (optional_uuid(text) is None) <==> (text matches Some(s) && uuid_parse(s@) is None),
        forall|v: u128|
            (optional_uuid(text) == Some(Some(v))) <==> (text matches Some(s) && uuid_parse(s@)
                == Some(v)),
{
}

/// Decoding a stored record reads its id column exactly as `parse_uuid` reads
/// the text: it fails at the id step exactly where the text is no UUID, and a
/// decoded row carries the UUID that the text denotes, in whichever form it is
/// written. The columns are read in the order id, timestamp, principal,
/// action, resource, decision, session reference, and the first that does not
/// read is the step reported. The session reference reads as `parse_uuid`
/// reads it too, the instant is the one
/// that the RFC 3339 parser reads; every other column is carried over.
pub proof fn lemma_decoding_reads_ids_as_uuids(
    rec: AuditRecord,
    principal: Result<Principal, StoreError>,
    action: Result<Action, StoreError>,
    resource: Result<ResourceSpec, StoreError>,
    decision: Result<AuditDecision, StoreError>,
)
    ensures
        (first_failure(rec, principal, action, resource, decision) == Some(DecodeStep::Id)) <==> uuid_parse(rec.id@) is None,
        (first_failure(rec, principal, action, resource, decision) == Some(DecodeStep::Timestamp))
            <==> (uuid_parse(rec.id@) is Some && rfc3339_instant(rec.timestamp@) is None),
        (first_failure(rec, principal, action, resource, decision) == Some(DecodeStep::Principal))
            <==> (uuid_parse(rec.id@) is Some && rfc3339_instant(rec.timestamp@) is Some
            && principal is Err),
        (first_failure(rec, principal, action, resource, decision) == Some(DecodeStep::Action))
            <==> (uuid_parse(rec.id@) is Some && rfc3339_instant(rec.timestamp@) is Some
            && principal is Ok && action is Err),
        (first_failure(rec, principal, action, resource, decision) == Some(DecodeStep::Resource))
            <==> (uuid_parse(rec.id@) is Some && rfc3339_instant(rec.timestamp@) is Some
            && principal is Ok && action is Ok && resource is Err),
        (first_failure(rec, principal, action, resource, decision) == Some(DecodeStep::Decision))
            <==> (uuid_parse(rec.id@) is Some && rfc3339_instant(rec.timestamp@) is Some
            && principal is Ok && action is Ok && resource is Ok && decision is Err),
        (first_failure(rec, principal, action, resource, decision) == Some(
            DecodeStep::SessionRef,
        )) <==> (uuid_parse(rec.id@) is Some && rfc3339_instant(rec.timestamp@) is Some
            && principal is Ok && action is Ok && resource is Ok && decision is Ok && (
        rec.session_ref matches Some(t) && uuid_parse(t@) is None)),
        (decoded_row(rec, principal, action, resource, decision) is Some) <==> first_failure(
            rec,
            principal,
            action,
            resource,
            decision,
        ) is None,
        ({
            &&& uuid_parse(rec.id@) is Some
            &&& rfc3339_instant(rec.timestamp@) is Some
            &&& principal is Ok
            &&& action is Ok
            &&& resource is Ok
            &&& decision is Ok
            &&& rec.session_ref matches Some(t) ==> uuid_parse(t@) is Some
        }) ==> decoded_row(rec, principal, action, resource, decision) is Some,
        decoded_row(rec, principal, action, resource, decision) matches Some(row) ==> {
            &&& uuid_parse(rec.id@) == Some(row.id)
            &&& rfc3339_instant(rec.timestamp@) == Some((row.timestamp.secs, row.timestamp.nanos))
            &&& principal == Ok::<Principal, StoreError>(row.principal)
            &&& action == Ok::<Action, StoreError>(row.action)
            &&& resource == Ok::<ResourceSpec, StoreError>(row.resource)
            &&& decision == Ok::<AuditDecision, StoreError>(row.decision)
            &&& match rec.session_ref {
                None => row.session_ref is None,
                Some(t) => row.session_ref is Some && uuid_parse(t@) == row.session_ref,
            }
            &&& row.notes == rec.notes
            &&& row.policy_id == rec.policy_id
            &&& row.evaluation_trace == rec.evaluation_trace
            &&& row.denial_reason == rec.denial_reason
        },
{
    lemma_optional_uuid_reads_every_form(rec.session_ref);
}

/// The optional UUID that an optional text denotes; no text gives `Ok(None)`.
pub fn parse_optional_uuid(value: Option<String>) -> (r: Result<Option<u128>, StoreError>)
    ensures
        match r {
            Ok(v) => optional_uuid(value) == Some(v),
            Err(e) => optional_uuid(value) is None && e is Uuid,
        },
        value is None ==> r matches Ok(None),
        forall|v: u128|
            (r == Ok::<Option<u128>, StoreError>(Some(v))) <==> (value matches Some(t) && uuid_parse(
                t@,
            ) == Some(v)),
        r is Err <==> (value matches Some(t) && uuid_parse(t@) is None),
{
    match value {
        None => Ok(None),
        Some(text) => match parse_uuid(text.as_str()) {
            Ok(v) => Ok(Some(v)),
            Err(e) => Err(e),
        },
    }
}

impl AuditRecord {
    /// The audit row that this stored record holds. The JSON columns are read
    /// by the caller and handed in as `principal`, `action`, `resource` and
    /// `decision`; the first column that does not read gives the error, in the
    /// order id, timestamp, principal, action, resource, decision, session
    /// reference.
    pub fn try_into_audit_row(
        self,
        principal: Result<Principal, StoreError>,
        action: Result<Action, StoreError>,
        resource: Result<ResourceSpec, StoreError>,
        decision: Result<AuditDecision, StoreError>,
    ) -> (r: Result<AuditRow, StoreError>)
        ensures
            match r {
                Ok(row) => decoded_row(self, principal, action, resource, decision) == Some(row),
                Err(e) => {
                    &&& decoded_row(self, principal, action, resource, decision) is None
                    &&& match first_failure(self, principal, action, resource, decision) {
                        Some(DecodeStep::Id) => e is Uuid,
                        Some(DecodeStep::Timestamp) => e is Timestamp,
                        Some(DecodeStep::Principal) => principal == Err::<Principal, _>(e),
                        Some(DecodeStep::Action) => action == Err::<Action, _>(e),
                        Some(DecodeStep::Resource) => resource == Err::<ResourceSpec, _>(e),
                        Some(DecodeStep::Decision) => decision == Err::<AuditDecision, _>(e),
                        Some(DecodeStep::SessionRef) => e is Uuid,
                        None => false,
                    }
                },
            },
            uuid_parse(self.id@) is None ==> r matches Err(StoreError::Uuid(_)),
            uuid_parse(self.id@) is Some && rfc3339_instant(self.timestamp@) is None ==> r matches Err(
                StoreError::Timestamp(_),
            ),
            uuid_parse(self.id@) is Some && rfc3339_instant(self.timestamp@) is Some ==> {
                &&& principal matches Err(e) ==> r == Err::<AuditRow, StoreError>(e)
                &&& principal is Ok ==> (action matches Err(e) ==> r == Err::<AuditRow, StoreError>(e))
                &&& principal is Ok && action is Ok ==> (resource matches Err(e) ==> r == Err::<
                    AuditRow,
                    StoreError,
                >(e))
                &&& principal is Ok && action is Ok && resource is Ok ==> (decision matches Err(e)
                    ==> r == Err::<AuditRow, StoreError>(e))
                &&& principal is Ok && action is Ok && resource is Ok && decision is Ok && (
                self.session_ref matches Some(t) && uuid_parse(t@) is None) ==> r matches Err(
                    StoreError::Uuid(_),
                )
            },
            r matches Ok(row) ==> {
                &&& uuid_parse(self.id@) == Some(row.id)
                &&& rfc3339_instant(self.timestamp@) == Some((row.timestamp.secs, row.timestamp.nanos))
                &&& principal == Ok::<Principal, StoreError>(row.principal)
                &&& action == Ok::<Action, StoreError>(row.action)
                &&& resource == Ok::<ResourceSpec, StoreError>(row.resource)
                &&& decision == Ok::<AuditDecision, StoreError>(row.decision)
                &&& match self.session_ref {
                    None => row.session_ref is None,
                    Some(t) => row.session_ref is Some && uuid_parse(t@) == row.session_ref,
                }
                &&& row.notes == self.notes
                &&& row.policy_id == self.policy_id
                &&& row.evaluation_trace == self.evaluation_trace
                &&& row.denial_reason == self.denial_reason
            },
            ({
                &&& uuid_parse(self.id@) is Some
                &&& rfc3339_instant(self.timestamp@) is Some
                &&& principal is Ok
                &&& action is Ok
                &&& resource is Ok
                &&& decision is Ok
                &&& self.session_ref matches Some(t) ==> uuid_parse(t@) is Some
            }) ==> r is Ok,
    {
        let ghost rec = self;
        let id: u128 = match parse_uuid(self.id.as_str()) {
            Ok(v) => v,
            Err(e) => return Err(e),
        };
        let timestamp = match parse_rfc3339(self.timestamp.as_str()) {
            Ok(t) => t,
            Err(e) => return Err(StoreError::Timestamp(e)),
        };
        let principal = match principal {
            Ok(p) => p,
            Err(e) => return Err(e),
        };
        let action = match action {
            Ok(a) => a,
            Err(e) => return Err(e),
        };
        let resource = match resource {
            Ok(v) => v,
            Err(e) => return Err(e),
        };
        let decision = match decision {
            Ok(d) => d,
            Err(e) => return Err(e),
        };
        let session_ref = match parse_optional_uuid(self.session_ref) {
            Ok(s) => s,
            Err(e) => return Err(e),
        };
        Ok(AuditRow {
            id,
            timestamp,
            principal,
            action,
            resource,
            decision,
            session_ref,
            notes: self.notes,
            policy_id: self.policy_id,
            evaluation_trace: self.evaluation_trace,
            denial_reason: self.denial_reason,
        })
    }
}

/// The stored text of an optional UUID.
fn optional_uuid_to_text(v: Option<u128>) -> (r: Option<String>)
    ensures
        optional_view(r) == optional_uuid_text(v),
        optional_uuid(r) == Some(v),
{
    match v {
        None => None,
        Some(u) => Some(uuid_to_text(u)),
    }
}

fn clone_text(s: &Option<String>) -> (r: Option<String>)
    ensures
        r == *s,
{
    match s {
        None => None,
        Some(t) => Some(t.clone()),
    }
}

impl AuditRow {
    /// The record that stores this row, with the JSON text of its principal,
    /// action, resource and decision handed in. Where the instant falls in a
    /// year of four digits, the record reads back as this very row.
    pub fn to_record(
        &self,
        principal: String,
        action: String,
        resource: String,
        decision: String,
    ) -> (rec: AuditRecord)
        requires
            self.timestamp.wf(),
        ensures
            rec.id@ == uuid_hyphenated(self.id),
            rec.timestamp@ == rfc3339_text(self.timestamp.secs, self.timestamp.nanos),
            rec.principal == principal,
            rec.action == action,
            rec.resource == resource,
            rec.decision == decision,
            optional_view(rec.session_ref) == optional_uuid_text(self.session_ref),
            rec.notes == self.notes,
            rec.policy_id == self.policy_id,
            rec.evaluation_trace == self.evaluation_trace,
            rec.denial_reason == self.denial_reason,
            self.timestamp.in_four_digit_years() ==> decoded_row(
                rec,
                Ok(self.principal),
                Ok(self.action),
                Ok(self.resource),
                Ok(self.decision),
            ) == Some(*self),
    {
        let rec = AuditRecord {
            id: uuid_to_text(self.id),
            timestamp: format_rfc3339(&self.timestamp),
            principal,
            action,
            resource,
            decision,
            session_ref: optional_uuid_to_text(self.session_ref),
            notes: clone_text(&self.notes),
            policy_id: clone_text(&self.policy_id),
            evaluation_trace: clone_text(&self.evaluation_trace),
            denial_reason: clone_text(&self.denial_reason),
        };
        rec
    }
}

/// All the values of a sequence of results, in order, or the first error in it.
pub fn collect_results<T>(items: Vec<Result<T, StoreError>>) -> (r: Result<Vec<T>, StoreError>)
    ensures
        match r {
            Ok(values) => {
                &&& values.len() == items.len()
                &&& forall|i: int| 0 <= i < items.len() ==> items@[i] == Ok::<T, StoreError>(#[trigger] values@[i])
            },
            Err(e) => exists|k: int|
                0 <= k < items.len() && items@[k] == Err::<T, StoreError>(e) && forall|j: int|
                    0 <= j < k ==> (#[trigger] items@[j]) is Ok,
        },
{
    let ghost all = items@;
    let mut values: Vec<T> = Vec::new();
    for item in it: items.into_iter()
        invariant
            it.seq() == all,
            values.len() == it.index(),
            forall|i: int| 0 <= i < values.len() ==> all[i] == Ok::<T, StoreError>(#[trigger] values@[i]),
    {
        match item {
            Ok(v) => values.push(v),
            Err(e) => {
                assert forall|j: int| 0 <= j < it.index() implies (#[trigger] all[j]) is Ok by {
                    assert(all[j] == Ok::<T, StoreError>(values@[j]));
                }
                return Err(e);
            },
        }
    }
    Ok(values)
}

} // verus!
