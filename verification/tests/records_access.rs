use cyphermed::{AccessAction, ActorId, CypherMed, CypherMedError, RecordType, Role};

fn actor(n: u64) -> ActorId {
    ActorId(n)
}

fn with_patient(authority: ActorId, now: i64) -> CypherMed {
    let mut sys = CypherMed::new();
    sys.initialize_patient(authority, "Pat".to_string(), 0, None, now).unwrap();
    sys
}

fn rid() -> String {
    "rec-001".to_string()
}

#[test]
fn patient_creates_own_record() {
    let alice = actor(1);
    let mut sys = with_patient(alice, 0);
    sys.create_record(
        alice,
        alice,
        rid(),
        RecordType::Prescription,
        "hash-abc".to_string(),
        Some("cid-1".to_string()),
        Some("initial".to_string()),
        50,
    )
    .unwrap();
    assert_eq!(sys.records.len(), 1);
    let r = &sys.records[0];
    assert_eq!(r.patient, alice);
    assert_eq!(r.created_by, alice);
    assert_eq!(r.record_type, RecordType::Prescription);
    assert_eq!(r.record_id, "rec-001");
    assert_eq!(r.data_hash, "hash-abc");
    assert_eq!(r.storage_cid.as_deref(), Some("cid-1"));
    assert_eq!(r.created_at, 50);
    assert_eq!(r.modified_at, 50);
    assert_eq!(r.last_accessed, 50);
    assert_eq!(r.access_count, 0);
    assert!(r.is_active);
    assert_eq!(sys.patients[0].record_count, 1);
    assert_eq!(sys.audit_log.len(), 1);
    let a = &sys.audit_log[0];
    assert_eq!(a.action, AccessAction::Create);
    assert_eq!(a.accessor_role, Role::Patient);
    assert!(a.success);
    assert_eq!(a.metadata.as_deref(), Some("Record created"));
}

#[test]
fn create_record_validates_id_and_uniqueness() {
    let alice = actor(1);
    let mut sys = with_patient(alice, 0);
    let long_id: String = "i".repeat(65);
    assert_eq!(
        sys.create_record(
            alice,
            alice,
            long_id,
            RecordType::GeneralMedical,
            "h".to_string(),
            None,
            None,
            1,
        ),
        Err(CypherMedError::RecordIdTooLong)
    );
    sys.create_record(alice, alice, rid(), RecordType::GeneralMedical, "h".to_string(), None, None, 1)
        .unwrap();
    assert_eq!(
        sys.create_record(
            alice,
            alice,
            rid(),
            RecordType::Imaging,
            "h2".to_string(),
            None,
            None,
            2,
        ),
        Err(CypherMedError::RecordAlreadyExists)
    );
    assert_eq!(sys.records.len(), 1);
    assert_eq!(sys.patients[0].record_count, 1);
}

#[test]
fn create_record_validates_field_bounds() {
    let alice = actor(1);
    let mut sys = with_patient(alice, 0);
    assert_eq!(
        sys.create_record(
            alice,
            alice,
            rid(),
            RecordType::GeneralMedical,
            "h".repeat(65),
            None,
            None,
            1,
        ),
        Err(CypherMedError::DataHashTooLong)
    );
    assert_eq!(
        sys.create_record(
            alice,
            alice,
            rid(),
            RecordType::GeneralMedical,
            "h".to_string(),
            Some("c".repeat(101)),
            None,
            1,
        ),
        Err(CypherMedError::StorageCidTooLong)
    );
    assert_eq!(
        sys.create_record(
            alice,
            alice,
            rid(),
            RecordType::GeneralMedical,
            "h".to_string(),
            None,
            Some("m".repeat(201)),
            1,
        ),
        Err(CypherMedError::MetadataTooLong)
    );
    assert_eq!(sys.records.len(), 0);
    assert_eq!(sys.audit_log.len(), 0);
    // The exact bounds themselves are accepted.
    sys.create_record(
        alice,
        alice,
        rid(),
        RecordType::GeneralMedical,
        "h".repeat(64),
        Some("c".repeat(100)),
        Some("m".repeat(200)),
        2,
    )
    .unwrap();
    assert_eq!(sys.records.len(), 1);
}

#[test]
fn view_rejects_long_client_info_without_audit() {
    let alice = actor(1);
    let mut sys = with_patient(alice, 0);
    sys.create_record(alice, alice, rid(), RecordType::LabResult, "h".to_string(), None, None, 1)
        .unwrap();
    let id = rid();
    let base = sys.audit_log.len();
    assert_eq!(
        sys.access_record(alice, alice, &id, Some("x".repeat(51)), 2),
        Err(CypherMedError::ClientInfoTooLong)
    );
    assert_eq!(sys.audit_log.len(), base);
    assert_eq!(sys.records[0].access_count, 0);
    sys.access_record(alice, alice, &id, Some("x".repeat(50)), 3).unwrap();
    assert_eq!(sys.records[0].access_count, 1);
}

#[test]
fn provider_needs_grant_with_create_bit_and_type() {
    let alice = actor(1);
    let doc = actor(2);
    let mut sys = with_patient(alice, 0);
    assert_eq!(
        sys.create_record(
            doc,
            alice,
            rid(),
            RecordType::LabResult,
            "h".to_string(),
            None,
            None,
            1,
        ),
        Err(CypherMedError::AccessDenied)
    );
    sys.grant_access(
        alice,
        doc,
        Role::Doctor,
        vec![RecordType::LabResult],
        None,
        true,
        false,
        false,
        None,
        2,
    )
    .unwrap();
    // Type outside the allowed set is refused even with the create bit.
    assert_eq!(
        sys.create_record(
            doc,
            alice,
            rid(),
            RecordType::Imaging,
            "h".to_string(),
            None,
            None,
            3,
        ),
        Err(CypherMedError::AccessDenied)
    );
    sys.create_record(doc, alice, rid(), RecordType::LabResult, "h".to_string(), None, None, 4)
        .unwrap();
    assert_eq!(sys.records[0].created_by, doc);
    assert_eq!(sys.audit_log.last().unwrap().accessor_role, Role::Doctor);
}

#[test]
fn create_record_reports_grant_state() {
    let alice = actor(1);
    let doc = actor(2);
    let mut sys = with_patient(alice, 0);
    sys.grant_access(
        alice,
        doc,
        Role::Doctor,
        vec![RecordType::LabResult],
        Some(1_000),
        true,
        false,
        false,
        None,
        2,
    )
    .unwrap();
    assert_eq!(
        sys.create_record(
            doc,
            alice,
            rid(),
            RecordType::LabResult,
            "h".to_string(),
            None,
            None,
            1_001,
        ),
        Err(CypherMedError::AccessGrantExpired)
    );
    sys.revoke_access(alice, alice, doc, 500).unwrap();
    assert_eq!(
        sys.create_record(
            doc,
            alice,
            rid(),
            RecordType::LabResult,
            "h".to_string(),
            None,
            None,
            600,
        ),
        Err(CypherMedError::AccessGrantRevoked)
    );
}

#[test]
fn update_record_replaces_hash_and_metadata() {
    let alice = actor(1);
    let mut sys = with_patient(alice, 0);
    sys.create_record(alice, alice, rid(), RecordType::GeneralMedical, "h1".to_string(), None, None, 1)
        .unwrap();
    let id = rid();
    sys.update_record(
        alice,
        alice,
        &id,
        Some("h2".to_string()),
        Some("checked".to_string()),
        "routine correction".to_string(),
        9,
    )
    .unwrap();
    let r = &sys.records[0];
    assert_eq!(r.data_hash, "h2");
    assert_eq!(r.metadata.as_deref(), Some("checked"));
    assert_eq!(r.modified_at, 9);
    let a = sys.audit_log.last().unwrap();
    assert_eq!(a.action, AccessAction::Modify);
    assert!(a.success);
    assert_eq!(a.metadata.as_deref(), Some("Update: routine correction"));
}

#[test]
fn update_record_validates_note_and_lengths() {
    let alice = actor(1);
    let mut sys = with_patient(alice, 0);
    sys.create_record(alice, alice, rid(), RecordType::GeneralMedical, "h1".to_string(), None, None, 1)
        .unwrap();
    let id = rid();
    assert_eq!(
        sys.update_record(alice, alice, &id, None, None, "".to_string(), 2),
        Err(CypherMedError::UpdateNoteRequired)
    );
    assert_eq!(
        sys.update_record(alice, alice, &id, None, None, "n".repeat(501), 2),
        Err(CypherMedError::UpdateNoteTooLong)
    );
    assert_eq!(
        sys.update_record(alice, alice, &id, Some("h".repeat(65)), None, "note".to_string(), 2),
        Err(CypherMedError::DataHashTooLong)
    );
    assert_eq!(
        sys.update_record(alice, alice, &id, None, Some("m".repeat(201)), "note".to_string(), 2),
        Err(CypherMedError::MetadataTooLong)
    );
    assert_eq!(sys.records[0].data_hash, "h1");
    assert_eq!(sys.audit_log.len(), 1);
}

#[test]
fn creator_may_update_without_grant() {
    let alice = actor(1);
    let doc = actor(2);
    let mut sys = with_patient(alice, 0);
    sys.grant_access(
        alice,
        doc,
        Role::Doctor,
        vec![RecordType::LabResult],
        None,
        true,
        false,
        false,
        None,
        1,
    )
    .unwrap();
    sys.create_record(doc, alice, rid(), RecordType::LabResult, "h1".to_string(), None, None, 2)
        .unwrap();
    sys.revoke_access(alice, alice, doc, 3).unwrap();
    // The creator keeps update rights even after the grant is revoked.
    let id = rid();
    sys.update_record(doc, alice, &id, Some("h2".to_string()), None, "amended".to_string(), 4)
        .unwrap();
    assert_eq!(sys.records[0].data_hash, "h2");
    // A revoked grant still names the role the audit entry records.
    assert_eq!(sys.audit_log.last().unwrap().accessor_role, Role::Doctor);
}

#[test]
fn grant_holder_with_modify_bit_may_update_but_not_delete() {
    let alice = actor(1);
    let doc = actor(2);
    let nurse = actor(3);
    let mut sys = with_patient(alice, 0);
    sys.create_record(alice, alice, rid(), RecordType::GeneralMedical, "h1".to_string(), None, None, 1)
        .unwrap();
    sys.grant_access(
        alice,
        nurse,
        Role::Hospital,
        vec![RecordType::GeneralMedical],
        None,
        false,
        true,
        false,
        None,
        2,
    )
    .unwrap();
    let id = rid();
    sys.update_record(nurse, alice, &id, Some("h2".to_string()), None, "refiled".to_string(), 3)
        .unwrap();
    assert_eq!(sys.records[0].data_hash, "h2");
    assert_eq!(
        sys.delete_record(nurse, alice, &id, "cleanup".to_string(), 4),
        Err(CypherMedError::Unauthorized)
    );
    assert_eq!(
        sys.update_record(doc, alice, &id, Some("h3".to_string()), None, "note".to_string(), 5),
        Err(CypherMedError::AccessDenied)
    );
}

#[test]
fn delete_record_is_soft_and_audited() {
    let alice = actor(1);
    let mut sys = with_patient(alice, 0);
    sys.create_record(alice, alice, rid(), RecordType::GeneralMedical, "h1".to_string(), None, None, 1)
        .unwrap();
    let id = rid();
    assert_eq!(
        sys.delete_record(alice, alice, &id, "".to_string(), 5),
        Err(CypherMedError::DeletionReasonRequired)
    );
    assert_eq!(
        sys.delete_record(alice, alice, &id, "d".repeat(301), 5),
        Err(CypherMedError::DeletionReasonTooLong)
    );
    sys.delete_record(alice, alice, &id, "filed in error".to_string(), 6).unwrap();
    let r = &sys.records[0];
    assert!(!r.is_active);
    assert_eq!(r.modified_at, 6);
    assert_eq!(sys.records.len(), 1);
    let a = sys.audit_log.last().unwrap();
    assert_eq!(a.action, AccessAction::Delete);
    assert_eq!(a.metadata.as_deref(), Some("Deleted: filed in error"));
    assert_eq!(
        sys.delete_record(alice, alice, &id, "again".to_string(), 7),
        Err(CypherMedError::RecordInactive)
    );
}

#[test]
fn view_of_missing_entities_is_not_audited() {
    let alice = actor(1);
    let mut sys = with_patient(alice, 0);
    let id = rid();
    assert_eq!(
        sys.access_record(alice, actor(9), &id, None, 1),
        Err(CypherMedError::PatientNotFound)
    );
    assert_eq!(
        sys.access_record(alice, alice, &id, None, 1),
        Err(CypherMedError::RecordNotFound)
    );
    assert_eq!(sys.audit_log.len(), 0);
}

#[test]
fn every_view_attempt_writes_exactly_one_entry() {
    let alice = actor(1);
    let doc = actor(2);
    let mut sys = with_patient(alice, 0);
    sys.create_record(alice, alice, rid(), RecordType::LabResult, "h".to_string(), None, None, 1)
        .unwrap();
    let id = rid();
    let base = sys.audit_log.len();

    // Denied: no grant at all.
    assert_eq!(
        sys.access_record(doc, alice, &id, None, 2),
        Err(CypherMedError::AccessDenied)
    );
    assert_eq!(sys.audit_log.len(), base + 1);
    let a = sys.audit_log.last().unwrap();
    assert!(!a.success);
    assert_eq!(a.failure_reason.as_deref(), Some("No access grant found"));
    assert_eq!(a.action, AccessAction::View);
    assert_eq!(sys.records[0].access_count, 0);

    // Granted: the patient views their own record.
    sys.access_record(alice, alice, &id, Some("clinic-a".to_string()), 3).unwrap();
    assert_eq!(sys.audit_log.len(), base + 2);
    let a = sys.audit_log.last().unwrap();
    assert!(a.success);
    assert_eq!(a.failure_reason, None);
    assert_eq!(a.accessor_role, Role::Patient);
    assert_eq!(a.client_info.as_deref(), Some("clinic-a"));
    assert_eq!(a.metadata.as_deref(), Some("Record access attempt by Patient"));
    assert_eq!(sys.records[0].access_count, 1);
    assert_eq!(sys.records[0].last_accessed, 3);
}

#[test]
fn view_without_view_bit_is_denied() {
    let alice = actor(1);
    let doc = actor(2);
    let mut sys = with_patient(alice, 0);
    sys.create_record(alice, alice, rid(), RecordType::LabResult, "h".to_string(), None, None, 1)
        .unwrap();
    sys.grant_access(
        alice,
        doc,
        Role::Doctor,
        vec![RecordType::LabResult],
        None,
        true,
        true,
        false,
        None,
        2,
    )
    .unwrap();
    let id = rid();
    assert_eq!(
        sys.access_record(doc, alice, &id, None, 3),
        Err(CypherMedError::AccessDenied)
    );
    let a = sys.audit_log.last().unwrap();
    assert_eq!(a.failure_reason.as_deref(), Some("No view permission"));
    assert_eq!(sys.records[0].access_count, 0);
}

#[test]
fn view_of_disallowed_type_is_denied() {
    let alice = actor(1);
    let doc = actor(2);
    let mut sys = with_patient(alice, 0);
    sys.create_record(alice, alice, rid(), RecordType::Prescription, "h".to_string(), None, None, 1)
        .unwrap();
    sys.grant_access(
        alice,
        doc,
        Role::Doctor,
        vec![RecordType::LabResult],
        None,
        false,
        false,
        true,
        None,
        2,
    )
    .unwrap();
    let id = rid();
    assert_eq!(
        sys.access_record(doc, alice, &id, None, 3),
        Err(CypherMedError::AccessDenied)
    );
    let a = sys.audit_log.last().unwrap();
    assert_eq!(a.failure_reason.as_deref(), Some("Record type not allowed"));
}

#[test]
fn expired_grant_is_denied_whatever_its_bits() {
    let alice = actor(1);
    let doc = actor(2);
    let mut sys = with_patient(alice, 0);
    sys.create_record(alice, alice, rid(), RecordType::LabResult, "h".to_string(), None, None, 1)
        .unwrap();
    sys.grant_access(
        alice,
        doc,
        Role::Doctor,
        vec![RecordType::LabResult],
        Some(100),
        true,
        true,
        true,
        None,
        2,
    )
    .unwrap();
    let id = rid();
    // At the expiration instant the grant still holds.
    sys.access_record(doc, alice, &id, None, 100).unwrap();
    assert_eq!(sys.records[0].access_count, 1);
    // One second past it, every permission bit notwithstanding, it is dead.
    assert_eq!(
        sys.access_record(doc, alice, &id, None, 101),
        Err(CypherMedError::AccessDenied)
    );
    let a = sys.audit_log.last().unwrap();
    assert_eq!(a.failure_reason.as_deref(), Some("Access grant has expired"));
    assert_eq!(sys.records[0].access_count, 1);
}

#[test]
fn view_of_inactive_record_is_audited_denial() {
    let alice = actor(1);
    let mut sys = with_patient(alice, 0);
    sys.create_record(alice, alice, rid(), RecordType::GeneralMedical, "h".to_string(), None, None, 1)
        .unwrap();
    let id = rid();
    sys.delete_record(alice, alice, &id, "done".to_string(), 2).unwrap();
    let base = sys.audit_log.len();
    assert_eq!(
        sys.access_record(alice, alice, &id, None, 3),
        Err(CypherMedError::RecordInactive)
    );
    assert_eq!(sys.audit_log.len(), base + 1);
    let a = sys.audit_log.last().unwrap();
    assert!(!a.success);
    assert_eq!(a.failure_reason.as_deref(), Some("Record is inactive or archived"));
}
