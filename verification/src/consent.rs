//! Consent workflow: providers ask for access, patients approve or deny.
//! A request is keyed by its (patient, requester) pair, transitions exactly
//! once out of `Pending`, and expires lazily: a pending request past its
//! window is rejected at approval time, no background sweep mutates it.

use vstd::prelude::*;

use crate::errors::CypherMedError;
use crate::state::{
    AccessGrant, AccessRequest, ActorId, Patient, RecordType, RequestStatus, Role,
    DEFAULT_EXPIRATION_SECONDS, MAX_EXPIRATION_SECONDS,
};
use crate::store::{clone_opt_string, CypherMed};
use crate::utils::validate_string_length;

verus! {

/// When the new request of a `request_access` at `now` runs out: the custom
/// expiration when one is given, two days from now otherwise.
pub open spec fn request_expiry(custom_expiration: Option<i64>, now: i64) -> int {
    match custom_expiration {
        Some(expiry) => expiry as int,
        None => now + DEFAULT_EXPIRATION_SECONDS,
    }
}

impl CypherMed {
    /// The first failing check of `request_access`, if any, in evaluation
    /// order: active patient, no self-targeting, a reason of at most 200
    /// characters, a custom expiration that is strictly future and at most
    /// 7 days out, and a free (patient, requester) slot.
    pub open spec fn request_access_err(
        self,
        requester: ActorId,
        patient: ActorId,
        reason: Option<String>,
        custom_expiration: Option<i64>,
        now: i64,
    ) -> Option<CypherMedError> {
        if !self.has_patient(patient) {
            Some(CypherMedError::PatientNotFound)
        } else if !self.patient_of(patient).is_active {
            Some(CypherMedError::PatientInactive)
        } else if requester == patient {
            Some(CypherMedError::CannotRequestAccessToSelf)
        } else if reason matches Some(text) && text@.len() > 200 {
            Some(CypherMedError::ReasonTooLong)
        } else if custom_expiration matches Some(expiry) && expiry <= now {
            Some(CypherMedError::InvalidExpirationTime)
        } else if custom_expiration matches Some(expiry) && expiry > now + MAX_EXPIRATION_SECONDS {
            Some(CypherMedError::ExpirationTooLong)
        } else if self.has_request(patient, requester) {
            Some(CypherMedError::AccessRequestAlreadyExists)
        } else {
            None
        }
    }

    /// File an access request from `requester` towards `patient`. The
    /// request starts `Pending` and runs out two days from `now` unless a
    /// custom expiration — strictly future, at most 7 days out — is given.
    /// Self-targeting is rejected before any state change. At most one
    /// request exists per (patient, requester) pair.
    pub fn request_access(
        &mut self,
        requester: ActorId,
        patient: ActorId,
        requester_role: Role,
        reason: Option<String>,
        custom_expiration: Option<i64>,
        now: i64,
    ) -> (result: Result<(), CypherMedError>)
        requires
            old(self).wf(),
            now <= i64::MAX - MAX_EXPIRATION_SECONDS,
        ensures
            final(self).wf(),
            final(self).patients@ == old(self).patients@,
            final(self).records@ == old(self).records@,
            final(self).grants@ == old(self).grants@,
            final(self).audit_log@ == old(self).audit_log@,
            requester == patient ==> *final(self) == *old(self) && result is Err,
            match result {
                Ok(()) => {
                    &&& old(self).request_access_err(
                        requester,
                        patient,
                        reason,
                        custom_expiration,
                        now,
                    ) is None
                    &&& final(self).requests@ == old(self).requests@.push(
                        AccessRequest {
                            patient,
                            requester,
                            requester_role,
                            reason,
                            requested_at: now,
                            expires_at: request_expiry(custom_expiration, now) as i64,
                            status: RequestStatus::Pending,
                            responded_at: None,
                            responded_by: None,
                            denial_reason: None,
                            notification_sent: false,
                        },
                    )
                },
                Err(e) => {
                    &&& old(self).request_access_err(
                        requester,
                        patient,
                        reason,
                        custom_expiration,
                        now,
                    ) == Some(e)
                    &&& *final(self) == *old(self)
                },
            },
    {
        let pi = match self.find_patient(patient) {
            Some(pi) => pi,
            None => {
                return Err(CypherMedError::PatientNotFound);
            },
        };
        if !self.patients[pi].is_active {
            return Err(CypherMedError::PatientInactive);
        }
        if requester == patient {
            return Err(CypherMedError::CannotRequestAccessToSelf);
        }
        if let Some(text) = &reason {
            if !validate_string_length(text.as_str(), 200) {
                return Err(CypherMedError::ReasonTooLong);
            }
        }
        let expires_at = match custom_expiration {
            Some(expiry) => {
                if expiry <= now {
                    return Err(CypherMedError::InvalidExpirationTime);
                }
                if expiry > now + MAX_EXPIRATION_SECONDS {
                    return Err(CypherMedError::ExpirationTooLong);
                }
                expiry
            },
            None => now + DEFAULT_EXPIRATION_SECONDS,
        };
        if self.find_request(patient, requester).is_some() {
            return Err(CypherMedError::AccessRequestAlreadyExists);
        }
        let request = AccessRequest {
            patient,
            requester,
            requester_role,
            reason,
            requested_at: now,
            expires_at,
            status: RequestStatus::Pending,
            responded_at: None,
            responded_by: None,
            denial_reason: None,
            notification_sent: false,
        };
        self.requests.push(request);
        Ok(())
    }

    /// The first failing check of `approve_access_request`, if any, in
    /// evaluation order: active patient, an existing request that is still
    /// pending and not past its window at `now`, a non-empty type set of at
    /// most 7, a strictly future grant expiration when one is given, a free
    /// (patient, requester) grant slot, and room in the grant counter.
    pub open spec fn approve_access_request_err(
        self,
        authority: ActorId,
        requester: ActorId,
        allowed_record_types: Seq<RecordType>,
        grant_expiration: Option<i64>,
        now: i64,
    ) -> Option<CypherMedError> {
        if !self.has_patient(authority) {
            Some(CypherMedError::PatientNotFound)
        } else if !self.patient_of(authority).is_active {
            Some(CypherMedError::PatientInactive)
        } else if !self.has_request(authority, requester) {
            Some(CypherMedError::AccessRequestNotFound)
        } else if !(self.request_of(authority, requester).status is Pending) {
            Some(CypherMedError::RequestAlreadyResponded)
        } else if now > self.request_of(authority, requester).expires_at {
            Some(CypherMedError::RequestExpired)
        } else if allowed_record_types.len() == 0 {
            Some(CypherMedError::NoRecordTypesSpecified)
        } else if allowed_record_types.len() > 7 {
            Some(CypherMedError::TooManyRecordTypes)
        } else if grant_expiration matches Some(expiry) && expiry <= now {
            Some(CypherMedError::InvalidExpirationTime)
        } else if self.has_grant(authority, requester) {
            Some(CypherMedError::AccessGrantAlreadyExists)
        } else if self.patient_of(authority).access_grant_count == u64::MAX {
            Some(CypherMedError::CounterOverflow)
        } else {
            None
        }
    }

    /// Approve the pending request of (`authority`, `requester`): in one
    /// indivisible step the request transitions to `Approved`, stamped with
    /// responder and time, and a grant is created for the requester's
    /// identity under the requested role, carrying the approved type set,
    /// the three permission bits, and the request's reason — inherited
    /// verbatim, so bounded at the request's 200 characters rather than the
    /// tighter 100-character bound `grant_access` puts on a reason supplied
    /// directly.
    pub fn approve_access_request(
        &mut self,
        authority: ActorId,
        requester: ActorId,
        allowed_record_types: Vec<RecordType>,
        grant_expiration: Option<i64>,
        can_create: bool,
        can_modify: bool,
        can_view: bool,
        now: i64,
    ) -> (result: Result<(), CypherMedError>)
        requires
            old(self).wf(),
        ensures
            final(self).wf(),
            final(self).records@ == old(self).records@,
            final(self).audit_log@ == old(self).audit_log@,
            match result {
                Ok(()) => {
                    &&& old(self).approve_access_request_err(
                        authority,
                        requester,
                        allowed_record_types@,
                        grant_expiration,
                        now,
                    ) is None
                    &&& final(self).requests@ == old(self).requests@.update(
                        old(self).request_idx(authority, requester),
                        AccessRequest {
                            status: RequestStatus::Approved,
                            responded_at: Some(now),
                            responded_by: Some(authority),
                            ..old(self).request_of(authority, requester)
                        },
                    )
                    &&& final(self).grants@ == old(self).grants@.push(
                        AccessGrant {
                            patient: authority,
                            provider: requester,
                            role: old(self).request_of(authority, requester).requester_role,
                            allowed_record_types,
                            granted_at: now,
                            expires_at: grant_expiration,
                            is_active: true,
                            can_create,
                            can_modify,
                            can_view,
                            reason: old(self).request_of(authority, requester).reason,
                            revoked_by: None,
                            revoked_at: None,
                        },
                    )
                    &&& final(self).patients@ == old(self).patients@.update(
                        old(self).patient_idx(authority),
                        Patient {
                            access_grant_count: (old(self).patient_of(authority).access_grant_count
                                + 1) as u64,
                            updated_at: now,
                            ..old(self).patient_of(authority)
                        },
                    )
                },
                Err(e) => {
                    &&& old(self).approve_access_request_err(
                        authority,
                        requester,
                        allowed_record_types@,
                        grant_expiration,
                        now,
                    ) == Some(e)
                    &&& *final(self) == *old(self)
                },
            },
    {
        let pi = match self.find_patient(authority) {
            Some(pi) => pi,
            None => {
                return Err(CypherMedError::PatientNotFound);
            },
        };
        if !self.patients[pi].is_active {
            return Err(CypherMedError::PatientInactive);
        }
        let ri = match self.find_request(authority, requester) {
            Some(ri) => ri,
            None => {
                return Err(CypherMedError::AccessRequestNotFound);
            },
        };
        if !matches!(self.requests[ri].status, RequestStatus::Pending) {
            return Err(CypherMedError::RequestAlreadyResponded);
        }
        if now > self.requests[ri].expires_at {
            return Err(CypherMedError::RequestExpired);
        }
        if allowed_record_types.len() == 0 {
            return Err(CypherMedError::NoRecordTypesSpecified);
        }
        if allowed_record_types.len() > 7 {
            return Err(CypherMedError::TooManyRecordTypes);
        }
        if let Some(expiry) = grant_expiration {
            if expiry <= now {
                return Err(CypherMedError::InvalidExpirationTime);
            }
        }
        if self.find_grant(authority, requester).is_some() {
            return Err(CypherMedError::AccessGrantAlreadyExists);
        }
        if self.patients[pi].access_grant_count == u64::MAX {
            return Err(CypherMedError::CounterOverflow);
        }
        let grant = AccessGrant {
            patient: authority,
            provider: requester,
            role: self.requests[ri].requester_role,
            allowed_record_types,
            granted_at: now,
            expires_at: grant_expiration,
            is_active: true,
            can_create,
            can_modify,
            can_view,
            reason: clone_opt_string(&self.requests[ri].reason),
            revoked_by: None,
            revoked_at: None,
        };
        self.requests[ri].status = RequestStatus::Approved;
        self.requests[ri].responded_at = Some(now);
        self.requests[ri].responded_by = Some(authority);
        self.grants.push(grant);
        let count = self.patients[pi].access_grant_count;
        self.patients[pi].access_grant_count = count + 1;
        self.patients[pi].updated_at = now;
        proof {
            assert(self.requests@ =~= old(self).requests@.update(
                old(self).request_idx(authority, requester),
                AccessRequest {
                    status: RequestStatus::Approved,
                    responded_at: Some(now),
                    responded_by: Some(authority),
                    ..old(self).request_of(authority, requester)
                },
            ));
            assert(self.patients@ =~= old(self).patients@.update(
                old(self).patient_idx(authority),
                Patient {
                    access_grant_count: (old(self).patient_of(authority).access_grant_count
                        + 1) as u64,
                    updated_at: now,
                    ..old(self).patient_of(authority)
                },
            ));
        }
        Ok(())
    }

    /// The first failing check of `deny_access_request`, if any, in
    /// evaluation order: active patient, an existing request that is still
    /// pending, and a denial reason of at most 200 characters. Denial checks
    /// no expiration: a lapsed request may still be denied.
    pub open spec fn deny_access_request_err(
        self,
        authority: ActorId,
        requester: ActorId,
        denial_reason: Option<String>,
    ) -> Option<CypherMedError> {
        if !self.has_patient(authority) {
            Some(CypherMedError::PatientNotFound)
        } else if !self.patient_of(authority).is_active {
            Some(CypherMedError::PatientInactive)
        } else if !self.has_request(authority, requester) {
            Some(CypherMedError::AccessRequestNotFound)
        } else if !(self.request_of(authority, requester).status is Pending) {
            Some(CypherMedError::RequestAlreadyResponded)
        } else if denial_reason matches Some(text) && text@.len() > 200 {
            Some(CypherMedError::ReasonTooLong)
        } else {
            None
        }
    }

    /// Deny the pending request of (`authority`, `requester`), optionally
    /// storing a reason. The transition out of `Pending` happens exactly
    /// once: denying an already-responded request fails with
    /// `RequestAlreadyResponded` and leaves the stored request unchanged.
    /// No grant is created.
    pub fn deny_access_request(
        &mut self,
        authority: ActorId,
        requester: ActorId,
        denial_reason: Option<String>,
        now: i64,
    ) -> (result: Result<(), CypherMedError>)
        requires
            old(self).wf(),
        ensures
            final(self).wf(),
            final(self).patients@ == old(self).patients@,
            final(self).records@ == old(self).records@,
            final(self).grants@ == old(self).grants@,
            final(self).audit_log@ == old(self).audit_log@,
            match result {
                Ok(()) => {
                    &&& old(self).deny_access_request_err(authority, requester, denial_reason)
                        is None
                    &&& final(self).requests@ == old(self).requests@.update(
                        old(self).request_idx(authority, requester),
                        AccessRequest {
                            status: RequestStatus::Denied,
                            responded_at: Some(now),
                            responded_by: Some(authority),
                            denial_reason,
                            ..old(self).request_of(authority, requester)
                        },
                    )
                },
                Err(e) => {
                    &&& old(self).deny_access_request_err(authority, requester, denial_reason)
                        == Some(e)
                    &&& *final(self) == *old(self)
                },
            },
    {
        let pi = match self.find_patient(authority) {
            Some(pi) => pi,
            None => {
                return Err(CypherMedError::PatientNotFound);
            },
        };
        if !self.patients[pi].is_active {
            return Err(CypherMedError::PatientInactive);
        }
        let ri = match self.find_request(authority, requester) {
            Some(ri) => ri,
            None => {
                return Err(CypherMedError::AccessRequestNotFound);
            },
        };
        if !matches!(self.requests[ri].status, RequestStatus::Pending) {
            return Err(CypherMedError::RequestAlreadyResponded);
        }
        if let Some(text) = &denial_reason {
            if !validate_string_length(text.as_str(), 200) {
                return Err(CypherMedError::ReasonTooLong);
            }
        }
        self.requests[ri].status = RequestStatus::Denied;
        self.requests[ri].responded_at = Some(now);
        self.requests[ri].responded_by = Some(authority);
        self.requests[ri].denial_reason = denial_reason;
        proof {
            assert(self.requests@ =~= old(self).requests@.update(
                old(self).request_idx(authority, requester),
                AccessRequest {
                    status: RequestStatus::Denied,
                    responded_at: Some(now),
                    responded_by: Some(authority),
                    denial_reason,
                    ..old(self).request_of(authority, requester)
                },
            ));
        }
        Ok(())
    }
}

} // verus!
