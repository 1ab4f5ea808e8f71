use std::collections::HashMap;

use im_store::{
    collect_results, parse_optional_uuid, parse_uuid, uuid_to_text, Action, AuditDecision,
    AuditError, AuditRecord, AuditRow, AuditTableColumn, Principal, ResourceSpec, RuntimeKind,
    StoreError, Timestamp, RESERVED_AUDIT_COLUMNS, AUDIT_TABLE,
};

const ID: u128 = 0x0190_1234_5678_7abc_8def_0123_4567_89ab;
const SESSION: u128 = 0x550e_8400_e29b_41d4_a716_4466_5544_0000;

fn resource() -> ResourceSpec {
    ResourceSpec {
        workspace: Some("identity-matters".to_owned()),
        role: Some("worker".to_owned()),
        runtime: Some(RuntimeKind::Codex),
        session_id: Some(SESSION),
        labels: HashMap::from([("issue".to_owned(), "ALP-2457".to_owned())]),
    }
}

fn row(timestamp: Timestamp, decision: AuditDecision) -> AuditRow {
    let denial_reason = match &decision {
        AuditDecision::Allow => None,
        AuditDecision::Deny { reason } => Some(reason.clone()),
    };
    AuditRow {
        id: ID,
        timestamp,
        principal: Principal::Local(1000),
        action: Action::Spawn,
        resource: resource(),
        decision,
        session_ref: Some(SESSION),
        notes: Some("note".to_owned()),
        policy_id: None,
        evaluation_trace: None,
        denial_reason,
    }
}

fn decode(record: AuditRecord, source: &AuditRow) -> Result<AuditRow, StoreError> {
    record.try_into_audit_row(
        Ok(source.principal),
        Ok(source.action),
        Ok(source.resource.clone()),
        Ok(source.decision.clone()),
    )
}

fn json(text: &str) -> String {
    text.to_owned()
}

fn record_of(r: &AuditRow) -> AuditRecord {
    r.to_record(json("p"), json("a"), json("r"), json("d"))
}

#[test]
fn uuid_text_is_hyphenated_lower_case() {
    assert_eq!(uuid_to_text(SESSION), "550e8400-e29b-41d4-a716-446655440000");
    assert_eq!(uuid_to_text(0), "00000000-0000-0000-0000-000000000000");
    assert_eq!(uuid_to_text(u128::MAX), "ffffffff-ffff-ffff-ffff-ffffffffffff");
}

#[test]
fn uuid_text_reads_back() {
    for v in [0u128, 1, ID, SESSION, u128::MAX] {
        assert_eq!(parse_uuid(&uuid_to_text(v)).unwrap(), v);
    }
}

#[test]
fn uuid_parse_accepts_every_documented_form() {
    assert_eq!(parse_uuid("550e8400e29b41d4a716446655440000").unwrap(), SESSION);
    assert_eq!(parse_uuid("550E8400-E29B-41D4-A716-446655440000").unwrap(), SESSION);
    assert_eq!(parse_uuid("{550e8400-e29b-41d4-a716-446655440000}").unwrap(), SESSION);
    assert_eq!(parse_uuid("URN:uuid:550e8400-e29b-41d4-a716-446655440000").unwrap(), SESSION);
}

#[test]
fn uuid_parse_refuses_other_text() {
    for text in [
        "",
        "550e8400-e29b-41d4-a716-44665544000",
        "550e8400-e29b-41d4-a716-44665544000g",
        "550e8400+e29b-41d4-a716-446655440000",
        "[550e8400-e29b-41d4-a716-446655440000]",
        "urn:uid::550e8400-e29b-41d4-a716-446655440000",
    ] {
        assert!(matches!(parse_uuid(text), Err(StoreError::Uuid(_))), "{text}");
    }
}

#[test]
fn optional_uuid_reads_absent_present_and_bad_text() {
    assert!(matches!(parse_optional_uuid(None), Ok(None)));
    assert!(matches!(
        parse_optional_uuid(Some("550e8400-e29b-41d4-a716-446655440000".to_owned())),
        Ok(Some(SESSION))
    ));
    assert!(matches!(
        parse_optional_uuid(Some("not a uuid".to_owned())),
        Err(StoreError::Uuid(_))
    ));
}

#[test]
fn timestamp_parts_are_checked() {
    assert_eq!(Timestamp::from_parts(0, 0), Some(Timestamp { secs: 0, nanos: 0 }));
    assert_eq!(Timestamp::from_parts(59, 1_500_000_000).map(|t| t.nanos), Some(1_500_000_000));
    assert_eq!(Timestamp::from_parts(-1, 1_000_000_000).map(|t| t.secs), Some(-1));
    assert_eq!(Timestamp::from_parts(58, 1_000_000_000), None);
    assert_eq!(Timestamp::from_parts(0, 2_000_000_000), None);
    assert_eq!(Timestamp::from_parts(8_210_266_876_800, 0), None);
    assert_eq!(Timestamp::from_parts(-8_334_601_315_201, 0), None);
    assert!(Timestamp::from_parts(-8_334_601_315_200, 0).is_some());
    assert!(Timestamp::from_parts(8_210_266_876_799, 999_999_999).is_some());
}

#[test]
fn record_columns_hold_uuid_and_rfc3339_text() {
    // 2024-05-06T07:08:09.123Z
    let r = row(Timestamp { secs: 1_714_979_289, nanos: 123_000_000 }, AuditDecision::Allow);
    let rec = record_of(&r);
    assert_eq!(rec.id, "01901234-5678-7abc-8def-0123456789ab");
    assert_eq!(rec.timestamp, "2024-05-06T07:08:09.123+00:00");
    assert_eq!(rec.session_ref.as_deref(), Some("550e8400-e29b-41d4-a716-446655440000"));
    assert_eq!(rec.principal, "p");
    assert_eq!(rec.decision, "d");
    assert_eq!(rec.notes.as_deref(), Some("note"));
    assert_eq!(rec.denial_reason, None);
}

#[test]
fn stored_row_reads_back_unchanged() {
    for ts in [
        Timestamp { secs: 1_714_979_289, nanos: 123_000_000 },
        Timestamp { secs: 0, nanos: 0 },
        Timestamp { secs: -1, nanos: 1 },
        Timestamp { secs: 1_483_228_799, nanos: 1_000_000_000 },
        Timestamp { secs: -62_167_219_200, nanos: 500 },
        Timestamp { secs: 253_402_300_799, nanos: 999_999_999 },
    ] {
        let r = row(
            ts,
            AuditDecision::Deny { reason: "non-local uid".to_owned() },
        );
        let back = decode(record_of(&r), &r).unwrap();
        assert_eq!(back, r);
        assert_eq!(back.denial_reason.as_deref(), Some("non-local uid"));
    }
}

#[test]
fn a_year_of_five_digits_does_not_read_back() {
    let r = row(Timestamp { secs: 253_402_300_800, nanos: 0 }, AuditDecision::Allow);
    let rec = record_of(&r);
    assert_eq!(rec.timestamp, "+10000-01-01T00:00:00+00:00");
    assert!(matches!(decode(rec, &r), Err(StoreError::Timestamp(_))));
}

#[test]
fn rfc3339_text_with_an_offset_reads_as_the_utc_instant() {
    let mut rec = record_of(&row(Timestamp { secs: 0, nanos: 0 }, AuditDecision::Allow));
    rec.timestamp = "1970-01-01T01:00:00.5+01:00".to_owned();
    let r = row(Timestamp { secs: 0, nanos: 0 }, AuditDecision::Allow);
    let back = decode(rec, &r).unwrap();
    assert_eq!(back.timestamp, Timestamp { secs: 0, nanos: 500_000_000 });
}

#[test]
fn decoding_reports_the_first_column_that_fails() {
    let r = row(Timestamp { secs: 0, nanos: 0 }, AuditDecision::Allow);
    let good = record_of(&r);

    let mut bad_id = good.clone();
    bad_id.id = "nope".to_owned();
    bad_id.timestamp = "nope".to_owned();
    let e = bad_id.try_into_audit_row(Err(StoreError::Json("p".to_owned())), Ok(r.action), Ok(r.resource.clone()), Ok(r.decision.clone()));
    assert!(matches!(e, Err(StoreError::Uuid(_))));

    let mut bad_time = good.clone();
    bad_time.timestamp = "2024-13-01T00:00:00Z".to_owned();
    let e = bad_time.try_into_audit_row(Err(StoreError::Json("p".to_owned())), Ok(r.action), Ok(r.resource.clone()), Ok(r.decision.clone()));
    assert!(matches!(e, Err(StoreError::Timestamp(_))));

    let e = good.clone().try_into_audit_row(Ok(r.principal), Err(StoreError::Json("a".to_owned())), Err(StoreError::Json("r".to_owned())), Ok(r.decision.clone()));
    assert!(matches!(e, Err(StoreError::Json(m)) if m == "a"));

    let e = good.clone().try_into_audit_row(Ok(r.principal), Ok(r.action), Ok(r.resource.clone()), Err(StoreError::Json("d".to_owned())));
    assert!(matches!(e, Err(StoreError::Json(m)) if m == "d"));

    let mut bad_session = good.clone();
    bad_session.session_ref = Some("zz".to_owned());
    let e = bad_session.try_into_audit_row(Ok(r.principal), Ok(r.action), Ok(r.resource.clone()), Err(StoreError::Json("d".to_owned())));
    assert!(matches!(e, Err(StoreError::Json(m)) if m == "d"));

    let mut bad_session = good;
    bad_session.session_ref = Some("zz".to_owned());
    assert!(matches!(decode(bad_session, &r), Err(StoreError::Uuid(_))));
}

#[test]
fn results_collect_in_order_or_stop_at_the_first_error() {
    let ok: Vec<Result<u32, StoreError>> = vec![Ok(1), Ok(2), Ok(3)];
    assert_eq!(collect_results(ok).unwrap(), vec![1, 2, 3]);
    let empty: Vec<Result<u32, StoreError>> = Vec::new();
    assert_eq!(collect_results(empty).unwrap(), Vec::<u32>::new());
    let mixed: Vec<Result<u32, StoreError>> = vec![
        Ok(1),
        Err(StoreError::Sqlx("first".to_owned())),
        Err(StoreError::Sqlx("second".to_owned())),
    ];
    assert!(matches!(collect_results(mixed), Err(StoreError::Sqlx(m)) if m == "first"));
}

#[test]
fn table_info_flags_are_set_where_not_zero() {
    let c = AuditTableColumn::from_table_info("id".to_owned(), "TEXT".to_owned(), 0, 1);
    assert_eq!(
        c,
        AuditTableColumn {
            name: "id".to_owned(),
            data_type: "TEXT".to_owned(),
            not_null: false,
            primary_key: true,
        }
    );
    let c = AuditTableColumn::from_table_info("t".to_owned(), "TEXT".to_owned(), -3, 0);
    assert!(c.not_null);
    assert!(!c.primary_key);
}

#[test]
fn schema_names() {
    assert_eq!(AUDIT_TABLE, "audit");
    assert_eq!(RESERVED_AUDIT_COLUMNS, ["policy_id", "evaluation_trace", "denial_reason"]);
}

#[test]
fn domain_values() {
    assert_eq!(Action::ALL, [Action::Spawn]);
    let d = ResourceSpec::default();
    assert!(d.workspace.is_none() && d.role.is_none() && d.runtime.is_none());
    assert!(d.session_id.is_none() && d.labels.is_empty());
    assert_eq!(AuditError::sink("disk full".to_owned()), AuditError::Sink("disk full".to_owned()));
}
