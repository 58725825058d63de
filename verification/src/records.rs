//! Record store: creation, update, and soft deletion of medical record
//! metadata. Every completed operation here commits one audit entry; no
//! record is ever physically removed, deletion is a transition to inactive.

use vstd::prelude::*;
use vstd::string::StringExecFns;

use crate::auth::{contains_record_type, grant_allows_type};
use crate::errors::CypherMedError;
use crate::state::{
    AccessAction, AccessGrant, ActorId, AuditLog, MedicalRecord, Patient, RecordType, Role,
};
use crate::store::CypherMed;
use crate::utils::{grant_expired, is_grant_expired, validate_string_length};

verus! {

/// The audit entry a successful `create_record` commits.
pub open spec fn is_create_audit(
    entry: AuditLog,
    patient: ActorId,
    record_id: Seq<char>,
    provider: ActorId,
    role: Role,
    record_type: RecordType,
    now: i64,
) -> bool {
    &&& entry.patient == patient
    &&& entry.record_id@ == record_id
    &&& entry.accessor == provider
    &&& entry.accessor_role == role
    &&& entry.action == AccessAction::Create
    &&& entry.record_type == record_type
    &&& entry.timestamp == now
    &&& entry.success
    &&& entry.failure_reason is None
    &&& !entry.is_emergency
    &&& entry.emergency_justification is None
    &&& entry.client_info is None
    &&& entry.metadata matches Some(note) && note@ == "Record created"@
}

/// The audit entry a successful `update_record` commits; its free-text
/// context carries the update note.
pub open spec fn is_modify_audit(
    entry: AuditLog,
    patient: ActorId,
    record_id: Seq<char>,
    updater: ActorId,
    role: Role,
    record_type: RecordType,
    update_note: Seq<char>,
    now: i64,
) -> bool {
    &&& entry.patient == patient
    &&& entry.record_id@ == record_id
    &&& entry.accessor == updater
    &&& entry.accessor_role == role
    &&& entry.action == AccessAction::Modify
    &&& entry.record_type == record_type
    &&& entry.timestamp == now
    &&& entry.success
    &&& entry.failure_reason is None
    &&& !entry.is_emergency
    &&& entry.emergency_justification is None
    &&& entry.client_info is None
    &&& entry.metadata matches Some(note) && note@ == "Update: "@ + update_note
}

/// The audit entry a successful `delete_record` commits; its free-text
/// context carries the deletion reason.
pub open spec fn is_delete_audit(
    entry: AuditLog,
    patient: ActorId,
    record_id: Seq<char>,
    deleter: ActorId,
    role: Role,
    record_type: RecordType,
    deletion_reason: Seq<char>,
    now: i64,
) -> bool {
    &&& entry.patient == patient
    &&& entry.record_id@ == record_id
    &&& entry.accessor == deleter
    &&& entry.accessor_role == role
    &&& entry.action == AccessAction::Delete
    &&& entry.record_type == record_type
    &&& entry.timestamp == now
    &&& entry.success
    &&& entry.failure_reason is None
    &&& !entry.is_emergency
    &&& entry.emergency_justification is None
    &&& entry.client_info is None
    &&& entry.metadata matches Some(note) && note@ == "Deleted: "@ + deletion_reason
}

impl CypherMed {
    /// The failure, if any, of the grant path of `create_record`: a grant
    /// must exist, be active and unexpired, carry the create bit, and allow
    /// the new record's type.
    pub open spec fn create_grant_err(
        self,
        patient: ActorId,
        provider: ActorId,
        record_type: RecordType,
        now: i64,
    ) -> Option<CypherMedError> {
        match self.grant_opt(patient, provider) {
            None => Some(CypherMedError::AccessDenied),
            Some(g) => if !g.is_active {
                Some(CypherMedError::AccessGrantRevoked)
            } else if grant_expired(g.expires_at, now) {
                Some(CypherMedError::AccessGrantExpired)
            } else if !g.can_create {
                Some(CypherMedError::AccessDenied)
            } else if !grant_allows_type(g, record_type) {
                Some(CypherMedError::AccessDenied)
            } else {
                None
            },
        }
    }

    /// The first failing check of `create_record`, if any, in evaluation
    /// order: a record identifier of at most 64 characters, a data hash of
    /// at most 64, a storage locator of at most 100, metadata of at most
    /// 200, an active patient, a free (patient, record id) slot,
    /// authorization — the patient themself, or a grant passing
    /// `create_grant_err` — and room in the record counter.
    pub open spec fn create_record_err(
        self,
        provider: ActorId,
        patient: ActorId,
        record_id: Seq<char>,
        record_type: RecordType,
        data_hash: Seq<char>,
        storage_cid: Option<String>,
        metadata: Option<String>,
        now: i64,
    ) -> Option<CypherMedError> {
        if record_id.len() > 64 {
            Some(CypherMedError::RecordIdTooLong)
        } else if data_hash.len() > 64 {
            Some(CypherMedError::DataHashTooLong)
        } else if storage_cid matches Some(cid) && cid@.len() > 100 {
            Some(CypherMedError::StorageCidTooLong)
        } else if metadata matches Some(meta) && meta@.len() > 200 {
            Some(CypherMedError::MetadataTooLong)
        } else if !self.has_patient(patient) {
            Some(CypherMedError::PatientNotFound)
        } else if !self.patient_of(patient).is_active {
            Some(CypherMedError::PatientInactive)
        } else if self.has_record(patient, record_id) {
            Some(CypherMedError::RecordAlreadyExists)
        } else {
            let auth = if provider == patient {
                None
            } else {
                self.create_grant_err(patient, provider, record_type, now)
            };
            match auth {
                Some(e) => Some(e),
                None => if self.patient_of(patient).record_count == u64::MAX {
                    Some(CypherMedError::CounterOverflow)
                } else {
                    None
                },
            }
        }
    }

    /// The effective role a create by `provider` acts under: the patient
    /// role for the patient themself, the grant's role otherwise.
    pub open spec fn create_audit_role(self, patient: ActorId, provider: ActorId) -> Role {
        if provider == patient {
            Role::Patient
        } else {
            self.grant_of(patient, provider).role
        }
    }

    /// Create a medical record for `patient`, after validating every
    /// string field against its bound. The creator is either the patient or
    /// a provider holding an active, unexpired grant whose create bit is
    /// set and whose allowed types contain `record_type`. On success the
    /// record starts active with a zero access counter, the patient's
    /// record counter steps up, and one `Create` audit entry is committed.
    pub fn create_record(
        &mut self,
        provider: ActorId,
        patient: ActorId,
        record_id: String,
        record_type: RecordType,
        data_hash: String,
        storage_cid: Option<String>,
        metadata: Option<String>,
        now: i64,
    ) -> (result: Result<(), CypherMedError>)
        requires
            old(self).wf(),
        ensures
            final(self).wf(),
            final(self).grants@ == old(self).grants@,
            final(self).requests@ == old(self).requests@,
            match result {
                Ok(()) => {
                    &&& old(self).create_record_err(
                        provider,
                        patient,
                        record_id@,
                        record_type,
                        data_hash@,
                        storage_cid,
                        metadata,
                        now,
                    )
                        is None
                    &&& final(self).records@ == old(self).records@.push(
                        MedicalRecord {
                            patient,
                            created_by: provider,
                            record_type,
                            record_id,
                            data_hash,
                            storage_cid,
                            created_at: now,
                            modified_at: now,
                            last_accessed: now,
                            access_count: 0,
                            is_active: true,
                            metadata,
                        },
                    )
                    &&& final(self).patients@ == old(self).patients@.update(
                        old(self).patient_idx(patient),
                        Patient {
                            record_count: (old(self).patient_of(patient).record_count + 1) as u64,
                            updated_at: now,
                            ..old(self).patient_of(patient)
                        },
                    )
                    &&& final(self).audit_log@.len() == old(self).audit_log@.len() + 1
                    &&& forall|i: int|
                        0 <= i < old(self).audit_log@.len() ==> final(self).audit_log@[i] == old(
                            self,
                        ).audit_log@[i]
                    &&& is_create_audit(
                        final(self).audit_log@[old(self).audit_log@.len() as int],
                        patient,
                        record_id@,
                        provider,
                        old(self).create_audit_role(patient, provider),
                        record_type,
                        now,
                    )
                },
                Err(e) => {
                    &&& old(self).create_record_err(
                        provider,
                        patient,
                        record_id@,
                        record_type,
                        data_hash@,
                        storage_cid,
                        metadata,
                        now,
                    )
                        == Some(e)
                    &&& *final(self) == *old(self)
                },
            },
    {
        if !validate_string_length(record_id.as_str(), 64) {
            return Err(CypherMedError::RecordIdTooLong);
        }
        if !validate_string_length(data_hash.as_str(), 64) {
            return Err(CypherMedError::DataHashTooLong);
        }
        if let Some(cid) = &storage_cid {
            if !validate_string_length(cid.as_str(), 100) {
                return Err(CypherMedError::StorageCidTooLong);
            }
        }
        if let Some(meta) = &metadata {
            if !validate_string_length(meta.as_str(), 200) {
                return Err(CypherMedError::MetadataTooLong);
            }
        }
        let pi = match self.find_patient(patient) {
            Some(pi) => pi,
            None => {
                return Err(CypherMedError::PatientNotFound);
            },
        };
        if !self.patients[pi].is_active {
            return Err(CypherMedError::PatientInactive);
        }
        if self.find_record(patient, &record_id).is_some() {
            return Err(CypherMedError::RecordAlreadyExists);
        }
        let mut role = Role::Patient;
        if provider != patient {
            let gi = match self.find_grant(patient, provider) {
                Some(gi) => gi,
                None => {
                    return Err(CypherMedError::AccessDenied);
                },
            };
            if !self.grants[gi].is_active {
                return Err(CypherMedError::AccessGrantRevoked);
            }
            if is_grant_expired(self.grants[gi].expires_at, now) {
                return Err(CypherMedError::AccessGrantExpired);
            }
            if !self.grants[gi].can_create {
                return Err(CypherMedError::AccessDenied);
            }
            if !contains_record_type(&self.grants[gi].allowed_record_types, record_type)
            {
                return Err(CypherMedError::AccessDenied);
            }
            role = self.grants[gi].role;
        }
        if self.patients[pi].record_count == u64::MAX {
            return Err(CypherMedError::CounterOverflow);
        }
        let audit = AuditLog {
            patient,
            record_id: record_id.clone(),
            accessor: provider,
            accessor_role: role,
            action: AccessAction::Create,
            record_type,
            timestamp: now,
            success: true,
            failure_reason: None,
            is_emergency: false,
            emergency_justification: None,
            client_info: None,
            metadata: Some(String::from_str("Record created")),
        };
        let record = MedicalRecord {
            patient,
            created_by: provider,
            record_type,
            record_id,
            data_hash,
            storage_cid,
            created_at: now,
            modified_at: now,
            last_accessed: now,
            access_count: 0,
            is_active: true,
            metadata,
        };
        self.records.push(record);
        let count = self.patients[pi].record_count;
        self.patients[pi].record_count = count + 1;
        self.patients[pi].updated_at = now;
        self.audit_log.push(audit);
        proof {
            assert(self.patients@ =~= old(self).patients@.update(
                old(self).patient_idx(patient),
                Patient {
                    record_count: (old(self).patient_of(patient).record_count + 1) as u64,
                    updated_at: now,
                    ..old(self).patient_of(patient)
                },
            ));
        }
        Ok(())
    }

    /// The failure, if any, of the grant path of `update_record`: a grant
    /// must exist, be active and unexpired, and carry the modify bit. The
    /// allowed-types set is not consulted for updates.
    pub open spec fn modify_grant_err(
        self,
        patient: ActorId,
        updater: ActorId,
        now: i64,
    ) -> Option<CypherMedError> {
        match self.grant_opt(patient, updater) {
            None => Some(CypherMedError::AccessDenied),
            Some(g) => if !g.is_active {
                Some(CypherMedError::AccessGrantRevoked)
            } else if grant_expired(g.expires_at, now) {
                Some(CypherMedError::AccessGrantExpired)
            } else if !g.can_modify {
                Some(CypherMedError::AccessDenied)
            } else {
                None
            },
        }
    }

    /// The first failing check of `update_record`, if any, in evaluation
    /// order: active patient, an existing active record, authorization —
    /// the patient, the record's creator, or a grant passing
    /// `modify_grant_err` — a non-empty update note of at most 500
    /// characters, a new hash of at most 64, and new metadata of at most
    /// 200.
    pub open spec fn update_record_err(
        self,
        updater: ActorId,
        patient: ActorId,
        record_id: Seq<char>,
        new_data_hash: Option<String>,
        new_metadata: Option<String>,
        update_note: Seq<char>,
        now: i64,
    ) -> Option<CypherMedError> {
        if !self.has_patient(patient) {
            Some(CypherMedError::PatientNotFound)
        } else if !self.patient_of(patient).is_active {
            Some(CypherMedError::PatientInactive)
        } else if !self.has_record(patient, record_id) {
            Some(CypherMedError::RecordNotFound)
        } else if !self.record_of(patient, record_id).is_active {
            Some(CypherMedError::RecordInactive)
        } else {
            let auth = if updater == patient || updater == self.record_of(
                patient,
                record_id,
            ).created_by {
                None
            } else {
                self.modify_grant_err(patient, updater, now)
            };
            match auth {
                Some(e) => Some(e),
                None => if update_note.len() == 0 {
                    Some(CypherMedError::UpdateNoteRequired)
                } else if update_note.len() > 500 {
                    Some(CypherMedError::UpdateNoteTooLong)
                } else if new_data_hash matches Some(hash) && hash@.len() > 64 {
                    Some(CypherMedError::DataHashTooLong)
                } else if new_metadata matches Some(meta) && meta@.len() > 200 {
                    Some(CypherMedError::MetadataTooLong)
                } else {
                    None
                },
            }
        }
    }

    /// The effective role an update or delete by `actor` acts under: the
    /// patient role for the patient themself, the stored grant's role when
    /// one exists for the pair — whatever its state — and the doctor role
    /// for a creator holding no grant.
    pub open spec fn modify_audit_role(self, patient: ActorId, actor: ActorId) -> Role {
        if actor == patient {
            Role::Patient
        } else {
            match self.grant_opt(patient, actor) {
                Some(g) => g.role,
                None => Role::Doctor,
            }
        }
    }

    /// Update an existing active record: replace its data hash and/or its
    /// metadata, stamped with a mandatory note. The updater is the patient,
    /// the record's creator, or a provider holding an active, unexpired
    /// grant whose modify bit is set. One `Modify` audit entry carrying the
    /// note is committed.
    pub fn update_record(
        &mut self,
        updater: ActorId,
        patient: ActorId,
        record_id: &String,
        new_data_hash: Option<String>,
        new_metadata: Option<String>,
        update_note: String,
        now: i64,
    ) -> (result: Result<(), CypherMedError>)
        requires
            old(self).wf(),
        ensures
            final(self).wf(),
            final(self).patients@ == old(self).patients@,
            final(self).grants@ == old(self).grants@,
            final(self).requests@ == old(self).requests@,
            match result {
                Ok(()) => {
                    &&& old(self).update_record_err(
                        updater,
                        patient,
                        record_id@,
                        new_data_hash,
                        new_metadata,
                        update_note@,
                        now,
                    ) is None
                    &&& final(self).records@ == old(self).records@.update(
                        old(self).record_idx(patient, record_id@),
                        MedicalRecord {
                            data_hash: match new_data_hash {
                                Some(hash) => hash,
                                None => old(self).record_of(patient, record_id@).data_hash,
                            },
                            metadata: match new_metadata {
                                Some(meta) => Some(meta),
                                None => old(self).record_of(patient, record_id@).metadata,
                            },
                            modified_at: now,
                            ..old(self).record_of(patient, record_id@)
                        },
                    )
                    &&& final(self).audit_log@.len() == old(self).audit_log@.len() + 1
                    &&& forall|i: int|
                        0 <= i < old(self).audit_log@.len() ==> final(self).audit_log@[i] == old(
                            self,
                        ).audit_log@[i]
                    &&& is_modify_audit(
                        final(self).audit_log@[old(self).audit_log@.len() as int],
                        patient,
                        record_id@,
                        updater,
                        old(self).modify_audit_role(patient, updater),
                        old(self).record_of(patient, record_id@).record_type,
                        update_note@,
                        now,
                    )
                },
                Err(e) => {
                    &&& old(self).update_record_err(
                        updater,
                        patient,
                        record_id@,
                        new_data_hash,
                        new_metadata,
                        update_note@,
                        now,
                    ) == Some(e)
                    &&& *final(self) == *old(self)
                },
            },
    {
        let pi = match self.find_patient(patient) {
            Some(pi) => pi,
            None => {
                return Err(CypherMedError::PatientNotFound);
            },
        };
        if !self.patients[pi].is_active {
            return Err(CypherMedError::PatientInactive);
        }
        let ri = match self.find_record(patient, record_id) {
            Some(ri) => ri,
            None => {
                return Err(CypherMedError::RecordNotFound);
            },
        };
        if !self.records[ri].is_active {
            return Err(CypherMedError::RecordInactive);
        }
        let is_patient = updater == patient;
        let is_creator = updater == self.records[ri].created_by;
        let gi_found = if is_patient {
            None
        } else {
            self.find_grant(patient, updater)
        };
        if !is_patient && !is_creator {
            let gi = match gi_found {
                Some(gi) => gi,
                None => {
                    return Err(CypherMedError::AccessDenied);
                },
            };
            if !self.grants[gi].is_active {
                return Err(CypherMedError::AccessGrantRevoked);
            }
            if is_grant_expired(self.grants[gi].expires_at, now) {
                return Err(CypherMedError::AccessGrantExpired);
            }
            if !self.grants[gi].can_modify {
                return Err(CypherMedError::AccessDenied);
            }
        }
        if update_note.as_str().is_empty() {
            return Err(CypherMedError::UpdateNoteRequired);
        }
        if !validate_string_length(update_note.as_str(), 500) {
            return Err(CypherMedError::UpdateNoteTooLong);
        }
        if let Some(hash) = &new_data_hash {
            if !validate_string_length(hash.as_str(), 64) {
                return Err(CypherMedError::DataHashTooLong);
            }
        }
        if let Some(meta) = &new_metadata {
            if !validate_string_length(meta.as_str(), 200) {
                return Err(CypherMedError::MetadataTooLong);
            }
        }
        let role = if is_patient {
            Role::Patient
        } else {
            match gi_found {
                Some(gi) => self.grants[gi].role,
                None => Role::Doctor,
            }
        };
        if let Some(hash) = new_data_hash {
            self.records[ri].data_hash = hash;
        }
        if let Some(meta) = new_metadata {
            self.records[ri].metadata = Some(meta);
        }
        self.records[ri].modified_at = now;
        let audit = AuditLog {
            patient,
            record_id: record_id.clone(),
            accessor: updater,
            accessor_role: role,
            action: AccessAction::Modify,
            record_type: self.records[ri].record_type,
            timestamp: now,
            success: true,
            failure_reason: None,
            is_emergency: false,
            emergency_justification: None,
            client_info: None,
            metadata: Some(String::from_str("Update: ").concat(update_note.as_str())),
        };
        self.audit_log.push(audit);
        proof {
            assert(self.records@ =~= old(self).records@.update(
                old(self).record_idx(patient, record_id@),
                MedicalRecord {
                    data_hash: match new_data_hash {
                        Some(hash) => hash,
                        None => old(self).record_of(patient, record_id@).data_hash,
                    },
                    metadata: match new_metadata {
                        Some(meta) => Some(meta),
                        None => old(self).record_of(patient, record_id@).metadata,
                    },
                    modified_at: now,
                    ..old(self).record_of(patient, record_id@)
                },
            ));
        }
        Ok(())
    }

    /// The first failing check of `delete_record`, if any, in evaluation
    /// order: active patient, an existing active record, an actor who is
    /// the patient or the record's creator — grant holders may not delete,
    /// whatever their bits — and a non-empty deletion reason of at most 300
    /// characters.
    pub open spec fn delete_record_err(
        self,
        deleter: ActorId,
        patient: ActorId,
        record_id: Seq<char>,
        deletion_reason: Seq<char>,
    ) -> Option<CypherMedError> {
        if !self.has_patient(patient) {
            Some(CypherMedError::PatientNotFound)
        } else if !self.patient_of(patient).is_active {
            Some(CypherMedError::PatientInactive)
        } else if !self.has_record(patient, record_id) {
            Some(CypherMedError::RecordNotFound)
        } else if !self.record_of(patient, record_id).is_active {
            Some(CypherMedError::RecordInactive)
        } else if deleter != patient && deleter != self.record_of(patient, record_id).created_by {
            Some(CypherMedError::Unauthorized)
        } else if deletion_reason.len() == 0 {
            Some(CypherMedError::DeletionReasonRequired)
        } else if deletion_reason.len() > 300 {
            Some(CypherMedError::DeletionReasonTooLong)
        } else {
            None
        }
    }

    /// Soft-delete an active record: only the patient or the record's
    /// creator may do so, with a mandatory reason. The record turns
    /// inactive — it is never physically removed — and one `Delete` audit
    /// entry carrying the reason is committed.
    pub fn delete_record(
        &mut self,
        deleter: ActorId,
        patient: ActorId,
        record_id: &String,
        deletion_reason: String,
        now: i64,
    ) -> (result: Result<(), CypherMedError>)
        requires
            old(self).wf(),
        ensures
            final(self).wf(),
            final(self).patients@ == old(self).patients@,
            final(self).grants@ == old(self).grants@,
            final(self).requests@ == old(self).requests@,
            match result {
                Ok(()) => {
                    &&& old(self).delete_record_err(
                        deleter,
                        patient,
                        record_id@,
                        deletion_reason@,
                    ) is None
                    &&& final(self).records@ == old(self).records@.update(
                        old(self).record_idx(patient, record_id@),
                        MedicalRecord {
                            is_active: false,
                            modified_at: now,
                            ..old(self).record_of(patient, record_id@)
                        },
                    )
                    &&& final(self).audit_log@.len() == old(self).audit_log@.len() + 1
                    &&& forall|i: int|
                        0 <= i < old(self).audit_log@.len() ==> final(self).audit_log@[i] == old(
                            self,
                        ).audit_log@[i]
                    &&& is_delete_audit(
                        final(self).audit_log@[old(self).audit_log@.len() as int],
                        patient,
                        record_id@,
                        deleter,
                        if deleter == patient {
                            Role::Patient
                        } else {
                            Role::Doctor
                        },
                        old(self).record_of(patient, record_id@).record_type,
                        deletion_reason@,
                        now,
                    )
                },
                Err(e) => {
                    &&& old(self).delete_record_err(deleter, patient, record_id@, deletion_reason@)
                        == Some(e)
                    &&& *final(self) == *old(self)
                },
            },
    {
        let pi = match self.find_patient(patient) {
            Some(pi) => pi,
            None => {
                return Err(CypherMedError::PatientNotFound);
            },
        };
        if !self.patients[pi].is_active {
            return Err(CypherMedError::PatientInactive);
        }
        let ri = match self.find_record(patient, record_id) {
            Some(ri) => ri,
            None => {
                return Err(CypherMedError::RecordNotFound);
            },
        };
        if !self.records[ri].is_active {
            return Err(CypherMedError::RecordInactive);
        }
        let is_patient = deleter == patient;
        let is_creator = deleter == self.records[ri].created_by;
        if !is_patient && !is_creator {
            return Err(CypherMedError::Unauthorized);
        }
        if deletion_reason.as_str().is_empty() {
            return Err(CypherMedError::DeletionReasonRequired);
        }
        if !validate_string_length(deletion_reason.as_str(), 300) {
            return Err(CypherMedError::DeletionReasonTooLong);
        }
        self.records[ri].is_active = false;
        self.records[ri].modified_at = now;
        let audit = AuditLog {
            patient,
            record_id: record_id.clone(),
            accessor: deleter,
            accessor_role: if is_patient {
                Role::Patient
            } else {
                Role::Doctor
            },
            action: AccessAction::Delete,
            record_type: self.records[ri].record_type,
            timestamp: now,
            success: true,
            failure_reason: None,
            is_emergency: false,
            emergency_justification: None,
            client_info: None,
            metadata: Some(String::from_str("Deleted: ").concat(deletion_reason.as_str())),
        };
        self.audit_log.push(audit);
        proof {
            assert(self.records@ =~= old(self).records@.update(
                old(self).record_idx(patient, record_id@),
                MedicalRecord {
                    is_active: false,
                    modified_at: now,
                    ..old(self).record_of(patient, record_id@)
                },
            ));
        }
        Ok(())
    }
}

} // verus!
