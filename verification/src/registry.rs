//! Patient registry: profile creation and lifecycle. All mutations here are
//! performed only by the patient's own identity; deactivation is soft and
//! reversible, deletion does not exist.

use vstd::prelude::*;

use crate::errors::CypherMedError;
use crate::state::{ActorId, Patient};
use crate::store::CypherMed;

verus! {

impl CypherMed {
    /// The first failing check of `initialize_patient`, if any.
    pub open spec fn initialize_patient_err(
        self,
        authority: ActorId,
        name: Seq<char>,
    ) -> Option<CypherMedError> {
        if name.len() > 50 {
            Some(CypherMedError::NameTooLong)
        } else if self.has_patient(authority) {
            Some(CypherMedError::PatientAlreadyExists)
        } else {
            None
        }
    }

    /// Create the patient profile for `authority`: active, with zeroed
    /// counters. Fails when the name exceeds 50 characters or a profile for
    /// this identity already exists.
    pub fn initialize_patient(
        &mut self,
        authority: ActorId,
        name: String,
        date_of_birth: i64,
        emergency_contact: Option<ActorId>,
        now: i64,
    ) -> (result: Result<(), CypherMedError>)
        requires
            old(self).wf(),
        ensures
            final(self).wf(),
            final(self).records@ == old(self).records@,
            final(self).grants@ == old(self).grants@,
            final(self).requests@ == old(self).requests@,
            final(self).audit_log@ == old(self).audit_log@,
            match result {
                Ok(()) => {
                    &&& old(self).initialize_patient_err(authority, name@) is None
                    &&& final(self).patients@ == old(self).patients@.push(
                        Patient {
                            authority,
                            name,
                            date_of_birth,
                            created_at: now,
                            updated_at: now,
                            record_count: 0,
                            access_grant_count: 0,
                            is_active: true,
                            emergency_contact,
                        },
                    )
                },
                Err(e) => {
                    &&& old(self).initialize_patient_err(authority, name@) == Some(e)
                    &&& final(self).patients@ == old(self).patients@
                },
            },
    {
        if !crate::utils::validate_string_length(name.as_str(), 50) {
            return Err(CypherMedError::NameTooLong);
        }
        if self.find_patient(authority).is_some() {
            return Err(CypherMedError::PatientAlreadyExists);
        }
        let patient = Patient {
            authority,
            name,
            date_of_birth,
            created_at: now,
            updated_at: now,
            record_count: 0,
            access_grant_count: 0,
            is_active: true,
            emergency_contact,
        };
        self.patients.push(patient);
        Ok(())
    }

    /// The first failing check of an operation that only needs the active
    /// profile of `authority`, if any.
    pub open spec fn active_patient_err(self, authority: ActorId) -> Option<CypherMedError> {
        if !self.has_patient(authority) {
            Some(CypherMedError::PatientNotFound)
        } else if !self.patient_of(authority).is_active {
            Some(CypherMedError::PatientInactive)
        } else {
            None
        }
    }

    /// Update the patient's emergency contact. Requires the profile to be
    /// active.
    pub fn update_patient(
        &mut self,
        authority: ActorId,
        emergency_contact: Option<ActorId>,
        now: i64,
    ) -> (result: Result<(), CypherMedError>)
        requires
            old(self).wf(),
        ensures
            final(self).wf(),
            final(self).records@ == old(self).records@,
            final(self).grants@ == old(self).grants@,
            final(self).requests@ == old(self).requests@,
            final(self).audit_log@ == old(self).audit_log@,
            match result {
                Ok(()) => {
                    &&& old(self).active_patient_err(authority) is None
                    &&& final(self).patients@ == old(self).patients@.update(
                        old(self).patient_idx(authority),
                        Patient {
                            emergency_contact,
                            updated_at: now,
                            ..old(self).patient_of(authority)
                        },
                    )
                },
                Err(e) => {
                    &&& old(self).active_patient_err(authority) == Some(e)
                    &&& final(self).patients@ == old(self).patients@
                },
            },
    {
        let i = match self.find_patient(authority) {
            Some(i) => i,
            None => {
                return Err(CypherMedError::PatientNotFound);
            },
        };
        if !self.patients[i].is_active {
            return Err(CypherMedError::PatientInactive);
        }
        self.patients[i].emergency_contact = emergency_contact;
        self.patients[i].updated_at = now;
        proof {
            assert(self.patients@ =~= old(self).patients@.update(
                old(self).patient_idx(authority),
                Patient { emergency_contact, updated_at: now, ..old(self).patient_of(authority) },
            ));
        }
        Ok(())
    }

    /// The first failing check of `deactivate_patient`, if any: the profile
    /// must exist and still be active.
    pub open spec fn deactivate_patient_err(self, authority: ActorId) -> Option<CypherMedError> {
        self.active_patient_err(authority)
    }

    /// Deactivate the patient profile (soft delete). Fails with
    /// `PatientInactive` when it is already inactive.
    pub fn deactivate_patient(&mut self, authority: ActorId, now: i64) -> (result: Result<
        (),
        CypherMedError,
    >)
        requires
            old(self).wf(),
        ensures
            final(self).wf(),
            final(self).records@ == old(self).records@,
            final(self).grants@ == old(self).grants@,
            final(self).requests@ == old(self).requests@,
            final(self).audit_log@ == old(self).audit_log@,
            match result {
                Ok(()) => {
                    &&& old(self).deactivate_patient_err(authority) is None
                    &&& final(self).patients@ == old(self).patients@.update(
                        old(self).patient_idx(authority),
                        Patient {
                            is_active: false,
                            updated_at: now,
                            ..old(self).patient_of(authority)
                        },
                    )
                },
                Err(e) => {
                    &&& old(self).deactivate_patient_err(authority) == Some(e)
                    &&& final(self).patients@ == old(self).patients@
                },
            },
    {
        let i = match self.find_patient(authority) {
            Some(i) => i,
            None => {
                return Err(CypherMedError::PatientNotFound);
            },
        };
        if !self.patients[i].is_active {
            return Err(CypherMedError::PatientInactive);
        }
        self.patients[i].is_active = false;
        self.patients[i].updated_at = now;
        proof {
            assert(self.patients@ =~= old(self).patients@.update(
                old(self).patient_idx(authority),
                Patient { is_active: false, updated_at: now, ..old(self).patient_of(authority) },
            ));
        }
        Ok(())
    }

    /// The first failing check of `reactivate_patient`, if any: the profile
    /// must exist and be inactive.
    pub open spec fn reactivate_patient_err(self, authority: ActorId) -> Option<CypherMedError> {
        if !self.has_patient(authority) {
            Some(CypherMedError::PatientNotFound)
        } else if self.patient_of(authority).is_active {
            Some(CypherMedError::PatientAlreadyActive)
        } else {
            None
        }
    }

    /// Reactivate a deactivated patient profile. Fails with
    /// `PatientAlreadyActive` when it is already active.
    pub fn reactivate_patient(&mut self, authority: ActorId, now: i64) -> (result: Result<
        (),
        CypherMedError,
    >)
        requires
            old(self).wf(),
        ensures
            final(self).wf(),
            final(self).records@ == old(self).records@,
            final(self).grants@ == old(self).grants@,
            final(self).requests@ == old(self).requests@,
            final(self).audit_log@ == old(self).audit_log@,
            match result {
                Ok(()) => {
                    &&& old(self).reactivate_patient_err(authority) is None
                    &&& final(self).patients@ == old(self).patients@.update(
                        old(self).patient_idx(authority),
                        Patient {
                            is_active: true,
                            updated_at: now,
                            ..old(self).patient_of(authority)
                        },
                    )
                },
                Err(e) => {
                    &&& old(self).reactivate_patient_err(authority) == Some(e)
                    &&& final(self).patients@ == old(self).patients@
                },
            },
    {
        let i = match self.find_patient(authority) {
            Some(i) => i,
            None => {
                return Err(CypherMedError::PatientNotFound);
            },
        };
        if self.patients[i].is_active {
            return Err(CypherMedError::PatientAlreadyActive);
        }
        self.patients[i].is_active = true;
        self.patients[i].updated_at = now;
        proof {
            assert(self.patients@ =~= old(self).patients@.update(
                old(self).patient_idx(authority),
                Patient { is_active: true, updated_at: now, ..old(self).patient_of(authority) },
            ));
        }
        Ok(())
    }
}

} // verus!
