//! The view path and the emergency break-glass path. The view path is the
//! one deliberate exception to fail-without-side-effects: once the patient
//! and the record are found, exactly one audit entry is committed per call,
//! whether or not access was granted, and only then is a denial surfaced.

use vstd::prelude::*;
use vstd::string::StringExecFns;

use crate::auth::{authorize, authorize_spec, AuthDecision, Capability, DenialCause};
use crate::errors::CypherMedError;
use crate::state::{AccessAction, ActorId, AuditLog, MedicalRecord, Role};
use crate::store::CypherMed;

verus! {

/// The failure text the audit trail stores for a denial cause. The inactive
/// texts mirror the corresponding error descriptions; the grant texts are
/// the view path's own wording.
pub open spec fn denial_text(cause: DenialCause) -> Seq<char> {
    match cause {
        DenialCause::PatientInactive => "Patient account is inactive"@,
        DenialCause::RecordInactive => "Record is inactive or archived"@,
        DenialCause::NoGrant => "No access grant found"@,
        DenialCause::GrantInactive => "Access grant is not active"@,
        DenialCause::GrantExpired => "Access grant has expired"@,
        DenialCause::MissingPermission => "No view permission"@,
        DenialCause::RecordTypeNotAllowed => "Record type not allowed"@,
    }
}

/// The failure text, as a value the audit trail can store.
pub fn denial_text_of(cause: DenialCause) -> (text: String)
    ensures
        text@ == denial_text(cause),
{
    match cause {
        DenialCause::PatientInactive => String::from_str("Patient account is inactive"),
        DenialCause::RecordInactive => String::from_str("Record is inactive or archived"),
        DenialCause::NoGrant => String::from_str("No access grant found"),
        DenialCause::GrantInactive => String::from_str("Access grant is not active"),
        DenialCause::GrantExpired => String::from_str("Access grant has expired"),
        DenialCause::MissingPermission => String::from_str("No view permission"),
        DenialCause::RecordTypeNotAllowed => String::from_str("Record type not allowed"),
    }
}

/// The name of a role, as the audit trail writes it.
pub open spec fn role_name(role: Role) -> Seq<char> {
    match role {
        Role::Patient => "Patient"@,
        Role::Doctor => "Doctor"@,
        Role::Hospital => "Hospital"@,
        Role::Insurer => "Insurer"@,
        Role::EmergencyResponder => "EmergencyResponder"@,
    }
}

/// The name of a role, as a value the audit trail can store.
pub fn role_name_of(role: Role) -> (name: String)
    ensures
        name@ == role_name(role),
{
    match role {
        Role::Patient => String::from_str("Patient"),
        Role::Doctor => String::from_str("Doctor"),
        Role::Hospital => String::from_str("Hospital"),
        Role::Insurer => String::from_str("Insurer"),
        Role::EmergencyResponder => String::from_str("EmergencyResponder"),
    }
}

/// The error a view denial surfaces to the caller: the inactive causes keep
/// their own kind, every grant-path cause surfaces as `AccessDenied`.
pub open spec fn view_error(cause: DenialCause) -> CypherMedError {
    match cause {
        DenialCause::PatientInactive => CypherMedError::PatientInactive,
        DenialCause::RecordInactive => CypherMedError::RecordInactive,
        _ => CypherMedError::AccessDenied,
    }
}

/// The effective role a view audit entry records: the authorized role on
/// success, the patient role on a denial.
pub open spec fn view_audit_role(decision: AuthDecision) -> Role {
    match decision {
        AuthDecision::Authorized(role) => role,
        AuthDecision::Denied(_) => Role::Patient,
    }
}

/// The audit entry the view path commits for `decision`.
pub open spec fn is_view_audit(
    entry: AuditLog,
    patient: ActorId,
    record_id: Seq<char>,
    accessor: ActorId,
    decision: AuthDecision,
    client_info: Option<String>,
    record_type: crate::state::RecordType,
    now: i64,
) -> bool {
    &&& entry.patient == patient
    &&& entry.record_id@ == record_id
    &&& entry.accessor == accessor
    &&& entry.accessor_role == view_audit_role(decision)
    &&& entry.action == AccessAction::View
    &&& entry.record_type == record_type
    &&& entry.timestamp == now
    &&& entry.success == (decision is Authorized)
    &&& match decision {
        AuthDecision::Authorized(_) => entry.failure_reason is None,
        AuthDecision::Denied(cause) => entry.failure_reason matches Some(text) && text@
            == denial_text(cause),
    }
    &&& !entry.is_emergency
    &&& entry.emergency_justification is None
    &&& entry.client_info == client_info
    &&& entry.metadata matches Some(note) && note@ == "Record access attempt by "@ + role_name(
        view_audit_role(decision),
    )
}

/// The audit entry the emergency path commits: always successful, flagged
/// as emergency, carrying the justification verbatim.
pub open spec fn is_emergency_audit(
    entry: AuditLog,
    patient: ActorId,
    record_id: Seq<char>,
    responder: ActorId,
    justification: Seq<char>,
    client_info: Option<String>,
    record_type: crate::state::RecordType,
    now: i64,
) -> bool {
    &&& entry.patient == patient
    &&& entry.record_id@ == record_id
    &&& entry.accessor == responder
    &&& entry.accessor_role == Role::EmergencyResponder
    &&& entry.action == AccessAction::EmergencyAccess
    &&& entry.record_type == record_type
    &&& entry.timestamp == now
    &&& entry.success
    &&& entry.failure_reason is None
    &&& entry.is_emergency
    &&& entry.emergency_justification matches Some(text) && text@ == justification
    &&& entry.client_info == client_info
    &&& entry.metadata matches Some(note) && note@
        == "EMERGENCY ACCESS - Break-glass protocol activated"@
}

impl CypherMed {
    /// The decision the view path reaches for `accessor` on the record of
    /// (`patient`, `record_id`); meaningful only when both exist.
    pub open spec fn view_decision(
        self,
        accessor: ActorId,
        patient: ActorId,
        record_id: Seq<char>,
        now: i64,
    ) -> AuthDecision {
        authorize_spec(
            accessor,
            self.patient_of(patient),
            Some(self.record_of(patient, record_id)),
            self.grant_opt(patient, accessor),
            Capability::View,
            now,
        )
    }

    /// The first failing check of `access_record`, if any: client context
    /// of at most 50 characters, then the patient and the record must
    /// exist; then the decision function rules, and a successful view needs
    /// room in the record's access counter.
    pub open spec fn access_record_err(
        self,
        accessor: ActorId,
        patient: ActorId,
        record_id: Seq<char>,
        client_info: Option<String>,
        now: i64,
    ) -> Option<CypherMedError> {
        if client_info matches Some(text) && text@.len() > 50 {
            Some(CypherMedError::ClientInfoTooLong)
        } else if !self.has_patient(patient) {
            Some(CypherMedError::PatientNotFound)
        } else if !self.has_record(patient, record_id) {
            Some(CypherMedError::RecordNotFound)
        } else {
            match self.view_decision(accessor, patient, record_id, now) {
                AuthDecision::Authorized(_) => if self.record_of(
                    patient,
                    record_id,
                ).access_count == u64::MAX {
                    Some(CypherMedError::CounterOverflow)
                } else {
                    None
                },
                AuthDecision::Denied(cause) => Some(view_error(cause)),
            }
        }
    }

    /// An expired grant never opens the view path: for any accessor other
    /// than the patient, once `now` lies past the stored grant's
    /// expiration, the decision is a denial and `access_record` cannot
    /// succeed — regardless of the grant's permission bits.
    pub proof fn lemma_expired_grant_never_views(
        self,
        accessor: ActorId,
        patient: ActorId,
        record_id: Seq<char>,
        client_info: Option<String>,
        expiration: i64,
        now: i64,
    )
        requires
            self.wf(),
            self.has_patient(patient),
            self.has_record(patient, record_id),
            accessor != patient,
            self.has_grant(patient, accessor),
            self.grant_of(patient, accessor).expires_at == Some(expiration),
            now > expiration,
        ensures
            self.view_decision(accessor, patient, record_id, now) is Denied,
            self.access_record_err(accessor, patient, record_id, client_info, now) is Some,
    {
        crate::auth::lemma_expired_grant_is_denied(
            accessor,
            self.patient_of(patient),
            Some(self.record_of(patient, record_id)),
            self.grant_of(patient, accessor),
            Capability::View,
            expiration,
            now,
        );
    }

    /// View the record of (`patient`, `record_id`) as `accessor`. Once the
    /// client context is validated and the patient and the record are
    /// found, exactly one new audit entry is
    /// committed whether or not access is granted — the entry's success
    /// flag is true exactly when it is — and the record's access counter
    /// steps up if and only if that flag is true. Denials are audited
    /// first, then surfaced.
    pub fn access_record(
        &mut self,
        accessor: ActorId,
        patient: ActorId,
        record_id: &String,
        client_info: Option<String>,
        now: i64,
    ) -> (result: Result<(), CypherMedError>)
        requires
            old(self).wf(),
        ensures
            final(self).wf(),
            final(self).patients@ == old(self).patients@,
            final(self).grants@ == old(self).grants@,
            final(self).requests@ == old(self).requests@,
            old(self).audit_log@.is_prefix_of(final(self).audit_log@),
            match result {
                Ok(()) => {
                    &&& old(self).access_record_err(accessor, patient, record_id@, client_info, now) is None
                    &&& old(self).view_decision(accessor, patient, record_id@, now) is Authorized
                    &&& final(self).records@ == old(self).records@.update(
                        old(self).record_idx(patient, record_id@),
                        MedicalRecord {
                            access_count: (old(self).record_of(patient, record_id@).access_count
                                + 1) as u64,
                            last_accessed: now,
                            ..old(self).record_of(patient, record_id@)
                        },
                    )
                    &&& final(self).audit_log@.len() == old(self).audit_log@.len() + 1
                    &&& is_view_audit(
                        final(self).audit_log@[old(self).audit_log@.len() as int],
                        patient,
                        record_id@,
                        accessor,
                        old(self).view_decision(accessor, patient, record_id@, now),
                        client_info,
                        old(self).record_of(patient, record_id@).record_type,
                        now,
                    )
                },
                Err(e) => {
                    &&& old(self).access_record_err(accessor, patient, record_id@, client_info, now) == Some(e)
                    &&& final(self).records@ == old(self).records@
                    &&& if e == CypherMedError::PatientInactive || e
                        == CypherMedError::RecordInactive || e == CypherMedError::AccessDenied {
                        &&& final(self).audit_log@.len() == old(self).audit_log@.len() + 1
                        &&& is_view_audit(
                            final(self).audit_log@[old(self).audit_log@.len() as int],
                            patient,
                            record_id@,
                            accessor,
                            old(self).view_decision(accessor, patient, record_id@, now),
                            client_info,
                            old(self).record_of(patient, record_id@).record_type,
                            now,
                        )
                    } else {
                        *final(self) == *old(self)
                    }
                },
            },
    {
        if let Some(text) = &client_info {
            if !crate::utils::validate_string_length(text.as_str(), 50) {
                return Err(CypherMedError::ClientInfoTooLong);
            }
        }
        let pi = match self.find_patient(patient) {
            Some(pi) => pi,
            None => {
                return Err(CypherMedError::PatientNotFound);
            },
        };
        let ri = match self.find_record(patient, record_id) {
            Some(ri) => ri,
            None => {
                return Err(CypherMedError::RecordNotFound);
            },
        };
        let gi_found = self.find_grant(patient, accessor);
        let decision = match gi_found {
            Some(gi) => authorize(
                accessor,
                &self.patients[pi],
                Some(&self.records[ri]),
                Some(&self.grants[gi]),
                Capability::View,
                now,
            ),
            None => authorize(
                accessor,
                &self.patients[pi],
                Some(&self.records[ri]),
                None,
                Capability::View,
                now,
            ),
        };
        match decision {
            AuthDecision::Authorized(role) => {
                if self.records[ri].access_count == u64::MAX {
                    return Err(CypherMedError::CounterOverflow);
                }
                let count = self.records[ri].access_count;
                self.records[ri].access_count = count + 1;
                self.records[ri].last_accessed = now;
                let audit = AuditLog {
                    patient,
                    record_id: record_id.clone(),
                    accessor,
                    accessor_role: role,
                    action: AccessAction::View,
                    record_type: self.records[ri].record_type,
                    timestamp: now,
                    success: true,
                    failure_reason: None,
                    is_emergency: false,
                    emergency_justification: None,
                    client_info,
                    metadata: Some(
                        String::from_str("Record access attempt by ").concat(
                            role_name_of(role).as_str(),
                        ),
                    ),
                };
                self.audit_log.push(audit);
                proof {
                    assert(self.records@ =~= old(self).records@.update(
                        old(self).record_idx(patient, record_id@),
                        MedicalRecord {
                            access_count: (old(self).record_of(patient, record_id@).access_count
                                + 1) as u64,
                            last_accessed: now,
                            ..old(self).record_of(patient, record_id@)
                        },
                    ));
                }
                Ok(())
            },
            AuthDecision::Denied(cause) => {
                let audit = AuditLog {
                    patient,
                    record_id: record_id.clone(),
                    accessor,
                    accessor_role: Role::Patient,
                    action: AccessAction::View,
                    record_type: self.records[ri].record_type,
                    timestamp: now,
                    success: false,
                    failure_reason: Some(denial_text_of(cause)),
                    is_emergency: false,
                    emergency_justification: None,
                    client_info,
                    metadata: Some(
                        String::from_str("Record access attempt by ").concat(
                            role_name_of(Role::Patient).as_str(),
                        ),
                    ),
                };
                self.audit_log.push(audit);
                match cause {
                    DenialCause::PatientInactive => Err(CypherMedError::PatientInactive),
                    DenialCause::RecordInactive => Err(CypherMedError::RecordInactive),
                    _ => Err(CypherMedError::AccessDenied),
                }
            },
        }
    }

    /// The first failing check of `emergency_access`, if any: a non-empty
    /// justification of at most 200 characters, client context of at most
    /// 50, an existing active patient and record, and room in the access
    /// counter. No grant is consulted.
    pub open spec fn emergency_access_err(
        self,
        responder: ActorId,
        patient: ActorId,
        record_id: Seq<char>,
        justification: Seq<char>,
        client_info: Option<String>,
    ) -> Option<CypherMedError> {
        if justification.len() == 0 {
            Some(CypherMedError::EmergencyJustificationRequired)
        } else if justification.len() > 200 {
            Some(CypherMedError::ReasonTooLong)
        } else if client_info matches Some(text) && text@.len() > 50 {
            Some(CypherMedError::ClientInfoTooLong)
        } else if !self.has_patient(patient) {
            Some(CypherMedError::PatientNotFound)
        } else if !self.has_record(patient, record_id) {
            Some(CypherMedError::RecordNotFound)
        } else if !self.patient_of(patient).is_active {
            Some(CypherMedError::PatientInactive)
        } else if !self.record_of(patient, record_id).is_active {
            Some(CypherMedError::RecordInactive)
        } else if self.record_of(patient, record_id).access_count == u64::MAX {
            Some(CypherMedError::CounterOverflow)
        } else {
            None
        }
    }

    /// Break-glass access to an active record of an active patient: exempt
    /// from every capability and grant check, it needs only a well-formed,
    /// non-empty justification and always succeeds when the active-state
    /// checks pass.
    /// Nothing ties the caller to an emergency-responder credential — the
    /// recorded role is advisory, by design. The committed audit entry is
    /// flagged `is_emergency` and stores the justification verbatim.
    pub fn emergency_access(
        &mut self,
        responder: ActorId,
        patient: ActorId,
        record_id: &String,
        justification: String,
        client_info: Option<String>,
        now: i64,
    ) -> (result: Result<(), CypherMedError>)
        requires
            old(self).wf(),
        ensures
            final(self).wf(),
            final(self).patients@ == old(self).patients@,
            final(self).grants@ == old(self).grants@,
            final(self).requests@ == old(self).requests@,
            old(self).audit_log@.is_prefix_of(final(self).audit_log@),
            match result {
                Ok(()) => {
                    &&& old(self).emergency_access_err(
                        responder,
                        patient,
                        record_id@,
                        justification@,
                        client_info,
                    ) is None
                    &&& final(self).records@ == old(self).records@.update(
                        old(self).record_idx(patient, record_id@),
                        MedicalRecord {
                            access_count: (old(self).record_of(patient, record_id@).access_count
                                + 1) as u64,
                            last_accessed: now,
                            ..old(self).record_of(patient, record_id@)
                        },
                    )
                    &&& final(self).audit_log@.len() == old(self).audit_log@.len() + 1
                    &&& is_emergency_audit(
                        final(self).audit_log@[old(self).audit_log@.len() as int],
                        patient,
                        record_id@,
                        responder,
                        justification@,
                        client_info,
                        old(self).record_of(patient, record_id@).record_type,
                        now,
                    )
                },
                Err(e) => {
                    &&& old(self).emergency_access_err(
                        responder,
                        patient,
                        record_id@,
                        justification@,
                        client_info,
                    ) == Some(e)
                    &&& *final(self) == *old(self)
                },
            },
    {
        if justification.as_str().is_empty() {
            return Err(CypherMedError::EmergencyJustificationRequired);
        }
        if !crate::utils::validate_string_length(justification.as_str(), 200) {
            return Err(CypherMedError::ReasonTooLong);
        }
        if let Some(text) = &client_info {
            if !crate::utils::validate_string_length(text.as_str(), 50) {
                return Err(CypherMedError::ClientInfoTooLong);
            }
        }
        let pi = match self.find_patient(patient) {
            Some(pi) => pi,
            None => {
                return Err(CypherMedError::PatientNotFound);
            },
        };
        let ri = match self.find_record(patient, record_id) {
            Some(ri) => ri,
            None => {
                return Err(CypherMedError::RecordNotFound);
            },
        };
        if !self.patients[pi].is_active {
            return Err(CypherMedError::PatientInactive);
        }
        if !self.records[ri].is_active {
            return Err(CypherMedError::RecordInactive);
        }
        if self.records[ri].access_count == u64::MAX {
            return Err(CypherMedError::CounterOverflow);
        }
        let count = self.records[ri].access_count;
        self.records[ri].access_count = count + 1;
        self.records[ri].last_accessed = now;
        let audit = AuditLog {
            patient,
            record_id: record_id.clone(),
            accessor: responder,
            accessor_role: Role::EmergencyResponder,
            action: AccessAction::EmergencyAccess,
            record_type: self.records[ri].record_type,
            timestamp: now,
            success: true,
            failure_reason: None,
            is_emergency: true,
            emergency_justification: Some(justification),
            client_info,
            metadata: Some(String::from_str("EMERGENCY ACCESS - Break-glass protocol activated")),
        };
        self.audit_log.push(audit);
        proof {
            assert(self.records@ =~= old(self).records@.update(
                old(self).record_idx(patient, record_id@),
                MedicalRecord {
                    access_count: (old(self).record_of(patient, record_id@).access_count + 1) as u64,
                    last_accessed: now,
                    ..old(self).record_of(patient, record_id@)
                },
            ));
        }
        Ok(())
    }
}

} // verus!
