use cyphermed::auth::{authorize, AuthDecision, Capability, DenialCause};
use cyphermed::{AccessAction, ActorId, CypherMed, CypherMedError, RecordType, Role};

fn actor(n: u64) -> ActorId {
    ActorId(n)
}

/// Full consent round trip: create, request, approve, view, revoke, view
/// again — with the audit trail and the access counter checked at each step.
#[test]
fn consent_round_trip_with_revocation() {
    let p = actor(1);
    let d = actor(2);
    let now: i64 = 1_700_000_000;
    let mut sys = CypherMed::new();
    sys.initialize_patient(p, "P".to_string(), 0, None, now).unwrap();
    sys.create_record(
        p,
        p,
        "rx-77".to_string(),
        RecordType::Prescription,
        "hash-77".to_string(),
        None,
        None,
        now,
    )
    .unwrap();

    sys.request_access(d, p, Role::Doctor, Some("follow-up".to_string()), None, now).unwrap();
    assert_eq!(sys.requests[0].expires_at, now + 172_800);

    sys.approve_access_request(p, d, vec![RecordType::Prescription], None, false, false, true, now + 10)
        .unwrap();
    let g = &sys.grants[0];
    assert_eq!(g.role, Role::Doctor);
    assert_eq!(g.allowed_record_types, vec![RecordType::Prescription]);
    assert_eq!(g.expires_at, None);
    assert!(g.can_view);

    let id = "rx-77".to_string();
    sys.access_record(d, p, &id, None, now + 20).unwrap();
    assert_eq!(sys.records[0].access_count, 1);
    let a = sys.audit_log.last().unwrap();
    assert_eq!(a.action, AccessAction::View);
    assert!(a.success);
    assert_eq!(a.accessor_role, Role::Doctor);

    sys.revoke_access(p, p, d, now + 30).unwrap();
    assert_eq!(
        sys.access_record(d, p, &id, None, now + 40),
        Err(CypherMedError::AccessDenied)
    );
    assert_eq!(sys.records[0].access_count, 1);
    let a = sys.audit_log.last().unwrap();
    assert_eq!(a.action, AccessAction::View);
    assert!(!a.success);
    assert_eq!(a.failure_reason.as_deref(), Some("Access grant is not active"));
}

/// Break-glass: emergency access succeeds with no grant whatsoever, flags
/// the entry and stores the justification verbatim.
#[test]
fn emergency_access_bypasses_grants() {
    let p = actor(1);
    let e = actor(5);
    let mut sys = CypherMed::new();
    sys.initialize_patient(p, "P".to_string(), 0, None, 0).unwrap();
    sys.create_record(
        p,
        p,
        "er-1".to_string(),
        RecordType::Emergency,
        "hash-er".to_string(),
        None,
        None,
        1,
    )
    .unwrap();
    let id = "er-1".to_string();
    sys.emergency_access(e, p, &id, "cardiac arrest".to_string(), None, 2).unwrap();
    assert_eq!(sys.records[0].access_count, 1);
    assert_eq!(sys.records[0].last_accessed, 2);
    let a = sys.audit_log.last().unwrap();
    assert_eq!(a.action, AccessAction::EmergencyAccess);
    assert_eq!(a.accessor_role, Role::EmergencyResponder);
    assert!(a.success);
    assert!(a.is_emergency);
    assert_eq!(a.emergency_justification.as_deref(), Some("cardiac arrest"));
    assert_eq!(
        a.metadata.as_deref(),
        Some("EMERGENCY ACCESS - Break-glass protocol activated")
    );

    // Even a revoked grant changes nothing for the emergency path.
    sys.grant_access(p, e, Role::EmergencyResponder, vec![RecordType::Emergency], None, false, false, false, None, 3)
        .unwrap();
    sys.revoke_access(p, p, e, 4).unwrap();
    sys.emergency_access(e, p, &id, "second event".to_string(), None, 5).unwrap();
    assert_eq!(sys.records[0].access_count, 2);
}

#[test]
fn emergency_access_validates_justification_and_context() {
    let p = actor(1);
    let e = actor(5);
    let mut sys = CypherMed::new();
    sys.initialize_patient(p, "P".to_string(), 0, None, 0).unwrap();
    sys.create_record(
        p,
        p,
        "er-1".to_string(),
        RecordType::Emergency,
        "h".to_string(),
        None,
        None,
        1,
    )
    .unwrap();
    let id = "er-1".to_string();
    assert_eq!(
        sys.emergency_access(e, p, &id, "".to_string(), None, 2),
        Err(CypherMedError::EmergencyJustificationRequired)
    );
    assert_eq!(
        sys.emergency_access(e, p, &id, "u".repeat(201), None, 2),
        Err(CypherMedError::ReasonTooLong)
    );
    assert_eq!(
        sys.emergency_access(e, p, &id, "urgent".to_string(), Some("x".repeat(51)), 2),
        Err(CypherMedError::ClientInfoTooLong)
    );
    sys.delete_record(p, p, &id, "closed".to_string(), 3).unwrap();
    assert_eq!(
        sys.emergency_access(e, p, &id, "urgent".to_string(), None, 4),
        Err(CypherMedError::RecordInactive)
    );
    // Only the create and delete entries stand: failed emergency calls are
    // rejected before the audit trail is touched.
    assert_eq!(sys.audit_log.len(), 2);
}

/// The audit trail is append-only: across a workload, earlier entries never
/// change, and entries arrive one per decision.
#[test]
fn audit_trail_grows_append_only() {
    let p = actor(1);
    let d = actor(2);
    let mut sys = CypherMed::new();
    sys.initialize_patient(p, "P".to_string(), 0, None, 0).unwrap();
    sys.create_record(p, p, "r1".to_string(), RecordType::LabResult, "h".to_string(), None, None, 1)
        .unwrap();
    let id = "r1".to_string();
    sys.access_record(p, p, &id, None, 2).unwrap();
    let snapshot: Vec<(AccessAction, bool, i64)> =
        sys.audit_log.iter().map(|a| (a.action, a.success, a.timestamp)).collect();

    let _ = sys.access_record(d, p, &id, None, 3);
    sys.update_record(p, p, &id, Some("h2".to_string()), None, "fix".to_string(), 4).unwrap();
    sys.delete_record(p, p, &id, "done".to_string(), 5).unwrap();

    assert_eq!(sys.audit_log.len(), snapshot.len() + 3);
    for (i, (action, success, ts)) in snapshot.into_iter().enumerate() {
        assert_eq!(sys.audit_log[i].action, action);
        assert_eq!(sys.audit_log[i].success, success);
        assert_eq!(sys.audit_log[i].timestamp, ts);
    }
}

#[test]
fn inactive_patient_blocks_creation_and_viewing() {
    let p = actor(1);
    let mut sys = CypherMed::new();
    sys.initialize_patient(p, "P".to_string(), 0, None, 0).unwrap();
    sys.create_record(p, p, "r1".to_string(), RecordType::LabResult, "h".to_string(), None, None, 1)
        .unwrap();
    sys.deactivate_patient(p, 2).unwrap();
    assert_eq!(
        sys.create_record(p, p, "r2".to_string(), RecordType::LabResult, "h".to_string(), None, None, 3),
        Err(CypherMedError::PatientInactive)
    );
    let id = "r1".to_string();
    let base = sys.audit_log.len();
    assert_eq!(
        sys.access_record(p, p, &id, None, 4),
        Err(CypherMedError::PatientInactive)
    );
    // The view path audits the denial of an inactive patient.
    assert_eq!(sys.audit_log.len(), base + 1);
    assert_eq!(
        sys.audit_log.last().unwrap().failure_reason.as_deref(),
        Some("Patient account is inactive")
    );
    assert_eq!(
        sys.grant_access(p, actor(2), Role::Doctor, vec![RecordType::LabResult], None, true, true, true, None, 5),
        Err(CypherMedError::PatientInactive)
    );
    assert_eq!(
        sys.request_access(actor(2), p, Role::Doctor, None, None, 6),
        Err(CypherMedError::PatientInactive)
    );
}

/// Grants created by a batch behave exactly like direct grants on the view
/// path, with the batch-level expiration honoured.
#[test]
fn batch_granted_provider_can_view_until_expiry() {
    let p = actor(1);
    let mut sys = CypherMed::new();
    sys.initialize_patient(p, "P".to_string(), 0, None, 0).unwrap();
    sys.create_record(p, p, "r1".to_string(), RecordType::Imaging, "h".to_string(), None, None, 1)
        .unwrap();
    assert_eq!(
        sys.batch_grant_access(
            p,
            vec![actor(2), actor(3)],
            vec![Role::Doctor, Role::Insurer],
            vec![RecordType::Imaging],
            Some(1),
            false,
            false,
            true,
            None,
            1,
        ),
        Err(CypherMedError::InvalidExpirationTime)
    );
    sys.batch_grant_access(
        p,
        vec![actor(2), actor(3)],
        vec![Role::Doctor, Role::Insurer],
        vec![RecordType::Imaging],
        Some(500),
        false,
        false,
        true,
        None,
        1,
    )
    .unwrap();
    let id = "r1".to_string();
    sys.access_record(actor(2), p, &id, None, 100).unwrap();
    assert_eq!(sys.audit_log.last().unwrap().accessor_role, Role::Doctor);
    sys.access_record(actor(3), p, &id, None, 200).unwrap();
    assert_eq!(sys.audit_log.last().unwrap().accessor_role, Role::Insurer);
    assert_eq!(sys.records[0].access_count, 2);
    assert_eq!(
        sys.access_record(actor(2), p, &id, None, 501),
        Err(CypherMedError::AccessDenied)
    );
    assert_eq!(sys.records[0].access_count, 2);
}

/// Reactivation restores the full surface, not just the flag.
#[test]
fn reactivated_patient_operates_again() {
    let p = actor(1);
    let mut sys = CypherMed::new();
    sys.initialize_patient(p, "P".to_string(), 0, None, 0).unwrap();
    sys.deactivate_patient(p, 1).unwrap();
    assert_eq!(
        sys.create_record(p, p, "r1".to_string(), RecordType::LabResult, "h".to_string(), None, None, 2),
        Err(CypherMedError::PatientInactive)
    );
    sys.reactivate_patient(p, 3).unwrap();
    sys.create_record(p, p, "r1".to_string(), RecordType::LabResult, "h".to_string(), None, None, 4)
        .unwrap();
    assert_eq!(sys.patients[0].record_count, 1);
}

/// The helper checks on time windows and string lengths.
#[test]
fn utility_checks() {
    assert!(!cyphermed::utils::is_grant_expired(None, i64::MAX));
    assert!(!cyphermed::utils::is_grant_expired(Some(100), 100));
    assert!(cyphermed::utils::is_grant_expired(Some(100), 101));
    assert!(cyphermed::utils::is_valid_timestamp(5, 5));
    assert!(!cyphermed::utils::is_valid_timestamp(6, 5));
    assert!(cyphermed::utils::validate_string_length("abcde", 5));
    assert!(!cyphermed::utils::validate_string_length("abcdef", 5));

    let seed = cyphermed::utils::generate_seed("patient", &actor(0x0102030405060708));
    let mut expected: Vec<u8> = "patient".as_bytes().to_vec();
    expected.extend_from_slice(&[8, 7, 6, 5, 4, 3, 2, 1]);
    assert_eq!(seed, expected);
}

/// The pure decision function, driven directly.
#[test]
fn authorize_is_pure_and_ordered() {
    let p = actor(1);
    let d = actor(2);
    let mut sys = CypherMed::new();
    sys.initialize_patient(p, "P".to_string(), 0, None, 0).unwrap();
    sys.create_record(p, p, "r1".to_string(), RecordType::LabResult, "h".to_string(), None, None, 1)
        .unwrap();
    sys.grant_access(p, d, Role::Doctor, vec![RecordType::LabResult], Some(50), false, false, true, None, 2)
        .unwrap();
    let patient = &sys.patients[0];
    let record = &sys.records[0];
    let grant = &sys.grants[0];

    assert_eq!(
        authorize(p, patient, Some(record), None, Capability::View, 10),
        AuthDecision::Authorized(Role::Patient)
    );
    assert_eq!(
        authorize(d, patient, Some(record), Some(grant), Capability::View, 10),
        AuthDecision::Authorized(Role::Doctor)
    );
    assert_eq!(
        authorize(d, patient, Some(record), Some(grant), Capability::View, 51),
        AuthDecision::Denied(DenialCause::GrantExpired)
    );
    assert_eq!(
        authorize(d, patient, Some(record), Some(grant), Capability::Create, 10),
        AuthDecision::Denied(DenialCause::MissingPermission)
    );
    assert_eq!(
        authorize(d, patient, Some(record), None, Capability::View, 10),
        AuthDecision::Denied(DenialCause::NoGrant)
    );
}
