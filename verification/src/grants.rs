//! Grant ledger: direct grants, revocation, and the atomic batch grant.
//! A grant is keyed by its (patient, provider) pair; creation is
//! insert-unless-key-exists, and revocation is permanent and one-way.

use vstd::prelude::*;

use crate::errors::CypherMedError;
use crate::state::{AccessGrant, ActorId, Patient, RecordType, Role};
use crate::store::{clone_opt_string, copy_record_types, CypherMed};

verus! {

/// The grant that a (direct or batch) grant operation creates at `now` for
/// the (`patient`, `provider`) pair.
pub open spec fn is_new_grant(
    grant: AccessGrant,
    patient: ActorId,
    provider: ActorId,
    role: Role,
    allowed_record_types: Seq<RecordType>,
    expires_at: Option<i64>,
    can_create: bool,
    can_modify: bool,
    can_view: bool,
    reason: Option<String>,
    now: i64,
) -> bool {
    &&& grant.patient == patient
    &&& grant.provider == provider
    &&& grant.role == role
    &&& grant.allowed_record_types@ == allowed_record_types
    &&& grant.granted_at == now
    &&& grant.expires_at == expires_at
    &&& grant.is_active
    &&& grant.can_create == can_create
    &&& grant.can_modify == can_modify
    &&& grant.can_view == can_view
    &&& grant.reason == reason
    &&& grant.revoked_by is None
    &&& grant.revoked_at is None
}

impl CypherMed {
    /// The first failing check of `grant_access`, if any, in evaluation
    /// order: active patient, no self-targeting, a non-empty type set of at
    /// most 7, a strictly future expiration when one is given, a reason of
    /// at most 100 characters, a free (patient, provider) slot, and room in
    /// the grant counter.
    pub open spec fn grant_access_err(
        self,
        authority: ActorId,
        provider: ActorId,
        allowed_record_types: Seq<RecordType>,
        expires_at: Option<i64>,
        reason: Option<String>,
        now: i64,
    ) -> Option<CypherMedError> {
        if !self.has_patient(authority) {
            Some(CypherMedError::PatientNotFound)
        } else if !self.patient_of(authority).is_active {
            Some(CypherMedError::PatientInactive)
        } else if provider == authority {
            Some(CypherMedError::CannotGrantAccessToSelf)
        } else if allowed_record_types.len() == 0 {
            Some(CypherMedError::NoRecordTypesSpecified)
        } else if allowed_record_types.len() > 7 {
            Some(CypherMedError::TooManyRecordTypes)
        } else if expires_at matches Some(expiry) && expiry <= now {
            Some(CypherMedError::InvalidExpirationTime)
        } else if reason matches Some(text) && text@.len() > 100 {
            Some(CypherMedError::ReasonTooLong)
        } else if self.has_grant(authority, provider) {
            Some(CypherMedError::AccessGrantAlreadyExists)
        } else if self.patient_of(authority).access_grant_count == u64::MAX {
            Some(CypherMedError::CounterOverflow)
        } else {
            None
        }
    }

    /// Grant a provider access to the records of the patient `authority`.
    /// At most one grant — active or not — may exist per (patient, provider)
    /// pair, so a pair whose slot is occupied is rejected. Self-targeting is
    /// rejected before any state change.
    pub fn grant_access(
        &mut self,
        authority: ActorId,
        provider: ActorId,
        role: Role,
        allowed_record_types: Vec<RecordType>,
        expires_at: Option<i64>,
        can_create: bool,
        can_modify: bool,
        can_view: bool,
        reason: Option<String>,
        now: i64,
    ) -> (result: Result<(), CypherMedError>)
        requires
            old(self).wf(),
        ensures
            final(self).wf(),
            final(self).records@ == old(self).records@,
            final(self).requests@ == old(self).requests@,
            final(self).audit_log@ == old(self).audit_log@,
            provider == authority ==> *final(self) == *old(self) && result is Err,
            match result {
                Ok(()) => {
                    &&& old(self).grant_access_err(
                        authority,
                        provider,
                        allowed_record_types@,
                        expires_at,
                        reason,
                        now,
                    ) is None
                    &&& final(self).grants@ == old(self).grants@.push(
                        AccessGrant {
                            patient: authority,
                            provider,
                            role,
                            allowed_record_types,
                            granted_at: now,
                            expires_at,
                            is_active: true,
                            can_create,
                            can_modify,
                            can_view,
                            reason,
                            revoked_by: None,
                            revoked_at: None,
                        },
                    )
                    &&& final(self).patients@ == old(self).patients@.update(
                        old(self).patient_idx(authority),
                        Patient {
                            access_grant_count: (old(self).patient_of(authority).access_grant_count
                                + 1) as u64,
                            updated_at: now,
                            ..old(self).patient_of(authority)
                        },
                    )
                },
                Err(e) => {
                    &&& old(self).grant_access_err(
                        authority,
                        provider,
                        allowed_record_types@,
                        expires_at,
                        reason,
                        now,
                    ) == Some(e)
                    &&& *final(self) == *old(self)
                },
            },
    {
        let i = match self.find_patient(authority) {
            Some(i) => i,
            None => {
                return Err(CypherMedError::PatientNotFound);
            },
        };
        if !self.patients[i].is_active {
            return Err(CypherMedError::PatientInactive);
        }
        if provider == authority {
            return Err(CypherMedError::CannotGrantAccessToSelf);
        }
        if allowed_record_types.len() == 0 {
            return Err(CypherMedError::NoRecordTypesSpecified);
        }
        if allowed_record_types.len() > 7 {
            return Err(CypherMedError::TooManyRecordTypes);
        }
        if let Some(expiry) = expires_at {
            if expiry <= now {
                return Err(CypherMedError::InvalidExpirationTime);
            }
        }
        if let Some(text) = &reason {
            if !crate::utils::validate_string_length(text.as_str(), 100) {
                return Err(CypherMedError::ReasonTooLong);
            }
        }
        if self.find_grant(authority, provider).is_some() {
            return Err(CypherMedError::AccessGrantAlreadyExists);
        }
        if self.patients[i].access_grant_count == u64::MAX {
            return Err(CypherMedError::CounterOverflow);
        }
        let grant = AccessGrant {
            patient: authority,
            provider,
            role,
            allowed_record_types,
            granted_at: now,
            expires_at,
            is_active: true,
            can_create,
            can_modify,
            can_view,
            reason,
            revoked_by: None,
            revoked_at: None,
        };
        self.grants.push(grant);
        let count = self.patients[i].access_grant_count;
        self.patients[i].access_grant_count = count + 1;
        self.patients[i].updated_at = now;
        proof {
            assert(self.patients@ =~= old(self).patients@.update(
                old(self).patient_idx(authority),
                Patient {
                    access_grant_count: (old(self).patient_of(authority).access_grant_count
                        + 1) as u64,
                    updated_at: now,
                    ..old(self).patient_of(authority)
                },
            ));
        }
        Ok(())
    }

    /// The first failing check of `revoke_access`, if any: the revoking
    /// patient's profile and the grant must exist, the grant must belong to
    /// the revoking patient, and must still be active.
    pub open spec fn revoke_access_err(
        self,
        authority: ActorId,
        grant_patient: ActorId,
        provider: ActorId,
    ) -> Option<CypherMedError> {
        if !self.has_patient(authority) {
            Some(CypherMedError::PatientNotFound)
        } else if !self.has_grant(grant_patient, provider) {
            Some(CypherMedError::AccessGrantNotFound)
        } else if grant_patient != authority {
            Some(CypherMedError::CannotRevokeGrant)
        } else if !self.grant_of(grant_patient, provider).is_active {
            Some(CypherMedError::AccessGrantRevoked)
        } else {
            None
        }
    }

    /// Revoke the grant of (`grant_patient`, `provider`). Only the patient
    /// the grant belongs to may revoke it; revocation stamps the revoker and
    /// the time and is permanent — there is no un-revoke.
    pub fn revoke_access(
        &mut self,
        authority: ActorId,
        grant_patient: ActorId,
        provider: ActorId,
        now: i64,
    ) -> (result: Result<(), CypherMedError>)
        requires
            old(self).wf(),
        ensures
            final(self).wf(),
            final(self).records@ == old(self).records@,
            final(self).requests@ == old(self).requests@,
            final(self).audit_log@ == old(self).audit_log@,
            match result {
                Ok(()) => {
                    &&& old(self).revoke_access_err(authority, grant_patient, provider) is None
                    &&& final(self).grants@ == old(self).grants@.update(
                        old(self).grant_idx(authority, provider),
                        AccessGrant {
                            is_active: false,
                            revoked_by: Some(authority),
                            revoked_at: Some(now),
                            ..old(self).grant_of(authority, provider)
                        },
                    )
                    &&& final(self).patients@ == old(self).patients@.update(
                        old(self).patient_idx(authority),
                        Patient { updated_at: now, ..old(self).patient_of(authority) },
                    )
                },
                Err(e) => {
                    &&& old(self).revoke_access_err(authority, grant_patient, provider) == Some(e)
                    &&& *final(self) == *old(self)
                },
            },
    {
        let i = match self.find_patient(authority) {
            Some(i) => i,
            None => {
                return Err(CypherMedError::PatientNotFound);
            },
        };
        let g = match self.find_grant(grant_patient, provider) {
            Some(g) => g,
            None => {
                return Err(CypherMedError::AccessGrantNotFound);
            },
        };
        if grant_patient != authority {
            return Err(CypherMedError::CannotRevokeGrant);
        }
        if !self.grants[g].is_active {
            return Err(CypherMedError::AccessGrantRevoked);
        }
        self.grants[g].is_active = false;
        self.grants[g].revoked_by = Some(authority);
        self.grants[g].revoked_at = Some(now);
        self.patients[i].updated_at = now;
        proof {
            assert(self.grants@ =~= old(self).grants@.update(
                old(self).grant_idx(authority, provider),
                AccessGrant {
                    is_active: false,
                    revoked_by: Some(authority),
                    revoked_at: Some(now),
                    ..old(self).grant_of(authority, provider)
                },
            ));
            assert(self.patients@ =~= old(self).patients@.update(
                old(self).patient_idx(authority),
                Patient { updated_at: now, ..old(self).patient_of(authority) },
            ));
        }
        Ok(())
    }

    /// The check of one provider of a batch, given the providers before it:
    /// no self-targeting, a free (patient, provider) slot, and no earlier
    /// occurrence of the same provider in the batch.
    pub open spec fn batch_pair_err(
        self,
        authority: ActorId,
        providers: Seq<ActorId>,
        k: int,
    ) -> Option<CypherMedError> {
        if providers[k] == authority {
            Some(CypherMedError::CannotGrantAccessToSelf)
        } else if self.has_grant(authority, providers[k]) {
            Some(CypherMedError::AccessGrantAlreadyExists)
        } else if exists|j: int| 0 <= j < k && providers[j] == providers[k] {
            Some(CypherMedError::AccessGrantAlreadyExists)
        } else {
            None
        }
    }

    /// The first failing per-provider check at or after position `k`, if any.
    pub open spec fn batch_pairs_err_from(
        self,
        authority: ActorId,
        providers: Seq<ActorId>,
        k: int,
    ) -> Option<CypherMedError>
        decreases providers.len() - k,
    {
        if k < 0 || k >= providers.len() {
            None
        } else {
            match self.batch_pair_err(authority, providers, k) {
                Some(e) => Some(e),
                None => self.batch_pairs_err_from(authority, providers, k + 1),
            }
        }
    }

    /// When every per-provider check before `k` passes, the first failure at
    /// or after 0 is the first failure at or after `k`.
    pub proof fn lemma_batch_pairs_err_skip(
        self,
        authority: ActorId,
        providers: Seq<ActorId>,
        k: int,
    )
        requires
            0 <= k <= providers.len(),
            forall|k2: int|
                0 <= k2 < k ==> self.batch_pair_err(authority, providers, k2) is None,
        ensures
            self.batch_pairs_err_from(authority, providers, 0) == self.batch_pairs_err_from(
                authority,
                providers,
                k,
            ),
        decreases k,
    {
        if k > 0 {
            self.lemma_batch_pairs_err_shift(authority, providers, 0, k);
        }
    }

    /// Helper for `lemma_batch_pairs_err_skip`: walk from `lo` up to `k`.
    pub proof fn lemma_batch_pairs_err_shift(
        self,
        authority: ActorId,
        providers: Seq<ActorId>,
        lo: int,
        k: int,
    )
        requires
            0 <= lo <= k <= providers.len(),
            forall|k2: int|
                lo <= k2 < k ==> self.batch_pair_err(authority, providers, k2) is None,
        ensures
            self.batch_pairs_err_from(authority, providers, lo) == self.batch_pairs_err_from(
                authority,
                providers,
                k,
            ),
        decreases k - lo,
    {
        if lo < k {
            self.lemma_batch_pairs_err_shift(authority, providers, lo + 1, k);
        }
    }

    /// The first failing check of `batch_grant_access`, if any, in
    /// evaluation order: active patient, between 1 and 10 providers, one
    /// role per provider, a non-empty type set of at most 7, a strictly
    /// future expiration when one is given, a reason of at most 100
    /// characters, then each provider in batch order, then room in the
    /// grant counter for the whole batch.
    pub open spec fn batch_grant_access_err(
        self,
        authority: ActorId,
        providers: Seq<ActorId>,
        roles_len: int,
        types_len: int,
        expires_at: Option<i64>,
        reason: Option<String>,
        now: i64,
    ) -> Option<CypherMedError> {
        if !self.has_patient(authority) {
            Some(CypherMedError::PatientNotFound)
        } else if !self.patient_of(authority).is_active {
            Some(CypherMedError::PatientInactive)
        } else if providers.len() == 0 {
            Some(CypherMedError::NoProvidersSpecified)
        } else if providers.len() > 10 {
            Some(CypherMedError::TooManyProviders)
        } else if providers.len() != roles_len {
            Some(CypherMedError::ProviderRoleMismatch)
        } else if types_len == 0 {
            Some(CypherMedError::NoRecordTypesSpecified)
        } else if types_len > 7 {
            Some(CypherMedError::TooManyRecordTypes)
        } else if expires_at matches Some(expiry) && expiry <= now {
            Some(CypherMedError::InvalidExpirationTime)
        } else if reason matches Some(text) && text@.len() > 100 {
            Some(CypherMedError::ReasonTooLong)
        } else {
            match self.batch_pairs_err_from(authority, providers, 0) {
                Some(e) => Some(e),
                None => if self.patient_of(authority).access_grant_count + providers.len()
                    > u64::MAX {
                    Some(CypherMedError::CounterOverflow)
                } else {
                    None
                },
            }
        }
    }

    /// Grant access to up to 10 providers in one atomic operation: either
    /// every named provider receives a grant — each as `grant_access` would
    /// create it, with its own role and the shared type set, expiration,
    /// permission bits and reason — or the whole batch is rejected and
    /// nothing changes.
    pub fn batch_grant_access(
        &mut self,
        authority: ActorId,
        providers: Vec<ActorId>,
        roles: Vec<Role>,
        allowed_record_types: Vec<RecordType>,
        expires_at: Option<i64>,
        can_create: bool,
        can_modify: bool,
        can_view: bool,
        reason: Option<String>,
        now: i64,
    ) -> (result: Result<(), CypherMedError>)
        requires
            old(self).wf(),
        ensures
            final(self).wf(),
            final(self).records@ == old(self).records@,
            final(self).requests@ == old(self).requests@,
            final(self).audit_log@ == old(self).audit_log@,
            match result {
                Ok(()) => {
                    &&& old(self).batch_grant_access_err(
                        authority,
                        providers@,
                        roles@.len() as int,
                        allowed_record_types@.len() as int,
                        expires_at,
                        reason,
                        now,
                    ) is None
                    &&& final(self).grants@.len() == old(self).grants@.len() + providers@.len()
                    &&& forall|i: int|
                        0 <= i < old(self).grants@.len() ==> final(self).grants@[i] == old(
                            self,
                        ).grants@[i]
                    &&& forall|k: int|
                        0 <= k < providers@.len() ==> is_new_grant(
                            #[trigger] final(self).grants@[old(self).grants@.len() + k],
                            authority,
                            providers@[k],
                            roles@[k],
                            allowed_record_types@,
                            expires_at,
                            can_create,
                            can_modify,
                            can_view,
                            reason,
                            now,
                        )
                    &&& final(self).patients@ == old(self).patients@.update(
                        old(self).patient_idx(authority),
                        Patient {
                            access_grant_count: (old(self).patient_of(authority).access_grant_count
                                + providers@.len()) as u64,
                            updated_at: now,
                            ..old(self).patient_of(authority)
                        },
                    )
                },
                Err(e) => {
                    &&& old(self).batch_grant_access_err(
                        authority,
                        providers@,
                        roles@.len() as int,
                        allowed_record_types@.len() as int,
                        expires_at,
                        reason,
                        now,
                    ) == Some(e)
                    &&& *final(self) == *old(self)
                },
            },
    {
        let pi = match self.find_patient(authority) {
            Some(pi) => pi,
            None => {
                return Err(CypherMedError::PatientNotFound);
            },
        };
        if !self.patients[pi].is_active {
            return Err(CypherMedError::PatientInactive);
        }
        let n = providers.len();
        if n == 0 {
            return Err(CypherMedError::NoProvidersSpecified);
        }
        if n > 10 {
            return Err(CypherMedError::TooManyProviders);
        }
        if n != roles.len() {
            return Err(CypherMedError::ProviderRoleMismatch);
        }
        if allowed_record_types.len() == 0 {
            return Err(CypherMedError::NoRecordTypesSpecified);
        }
        if allowed_record_types.len() > 7 {
            return Err(CypherMedError::TooManyRecordTypes);
        }
        if let Some(expiry) = expires_at {
            if expiry <= now {
                return Err(CypherMedError::InvalidExpirationTime);
            }
        }
        if let Some(text) = &reason {
            if !crate::utils::validate_string_length(text.as_str(), 100) {
                return Err(CypherMedError::ReasonTooLong);
            }
        }
        let mut k: usize = 0;
        while k < n
            invariant
                self.wf(),
                *self == *old(self),
                old(self).has_patient(authority),
                old(self).patient_of(authority).is_active,
                n == providers@.len(),
                n == roles@.len(),
                0 < n <= 10,
                k <= n,
                1 <= allowed_record_types@.len() <= 7,
                (expires_at matches Some(expiry) ==> expiry > now),
                (reason matches Some(text) ==> text@.len() <= 100),
                forall|k2: int|
                    0 <= k2 < k ==> self.batch_pair_err(authority, providers@, k2) is None,
            decreases n - k,
        {
            if providers[k] == authority {
                proof {
                    self.lemma_batch_pairs_err_skip(authority, providers@, k as int);
                }
                return Err(CypherMedError::CannotGrantAccessToSelf);
            }
            if self.find_grant(authority, providers[k]).is_some() {
                proof {
                    self.lemma_batch_pairs_err_skip(authority, providers@, k as int);
                }
                return Err(CypherMedError::AccessGrantAlreadyExists);
            }
            let mut j: usize = 0;
            while j < k
                invariant
                    self.wf(),
                    *self == *old(self),
                    old(self).has_patient(authority),
                    old(self).patient_of(authority).is_active,
                    n == providers@.len(),
                    n == roles@.len(),
                    0 < n <= 10,
                    1 <= allowed_record_types@.len() <= 7,
                    (expires_at matches Some(expiry) ==> expiry > now),
                    (reason matches Some(text) ==> text@.len() <= 100),
                    forall|k2: int|
                        0 <= k2 < k ==> self.batch_pair_err(authority, providers@, k2) is None,
                    j <= k < providers@.len(),
                    providers@[k as int] != authority,
                    !self.has_grant(authority, providers@[k as int]),
                    forall|j2: int| 0 <= j2 < j ==> providers@[j2] != providers@[k as int],
                decreases k - j,
            {
                if providers[j] == providers[k] {
                    proof {
                        self.lemma_batch_pairs_err_skip(authority, providers@, k as int);
                    }
                    return Err(CypherMedError::AccessGrantAlreadyExists);
                }
                j += 1;
            }
            k += 1;
        }
        proof {
            self.lemma_batch_pairs_err_skip(authority, providers@, n as int);
        }
        if self.patients[pi].access_grant_count > u64::MAX - (n as u64) {
            return Err(CypherMedError::CounterOverflow);
        }
        let ghost base = self.grants@.len() as int;
        let mut k: usize = 0;
        while k < n
            invariant
                self.wf(),
                old(self).wf(),
                n == providers@.len(),
                n == roles@.len(),
                0 < n <= 10,
                k <= n,
                1 <= allowed_record_types@.len() <= 7,
                (reason matches Some(text) ==> text@.len() <= 100),
                base == old(self).grants@.len() as int,
                old(self).has_patient(authority),
                old(self).patient_idx(authority) == pi as int,
                pi < old(self).patients@.len(),
                old(self).patient_of(authority).access_grant_count + n <= u64::MAX,
                old(self).batch_pairs_err_from(authority, providers@, 0) is None,
                old(self).patient_of(authority).is_active,
                (expires_at matches Some(expiry) ==> expiry > now),
                forall|k2: int|
                    0 <= k2 < n ==> old(self).batch_pair_err(authority, providers@, k2) is None,
                self.patients@ == old(self).patients@,
                self.records@ == old(self).records@,
                self.requests@ == old(self).requests@,
                self.audit_log@ == old(self).audit_log@,
                self.grants@.len() == base + k,
                forall|i: int| 0 <= i < base ==> self.grants@[i] == old(self).grants@[i],
                forall|k2: int|
                    0 <= k2 < k ==> is_new_grant(
                        #[trigger] self.grants@[base + k2],
                        authority,
                        providers@[k2],
                        roles@[k2],
                        allowed_record_types@,
                        expires_at,
                        can_create,
                        can_modify,
                        can_view,
                        reason,
                        now,
                    ),
            decreases n - k,
        {
            let grant = AccessGrant {
                patient: authority,
                provider: providers[k],
                role: roles[k],
                allowed_record_types: copy_record_types(&allowed_record_types),
                granted_at: now,
                expires_at,
                is_active: true,
                can_create,
                can_modify,
                can_view,
                reason: clone_opt_string(&reason),
                revoked_by: None,
                revoked_at: None,
            };
            proof {
                assert(old(self).batch_pair_err(authority, providers@, k as int) is None);
                assert(!old(self).has_grant(authority, providers@[k as int]));
                assert forall|i: int| 0 <= i < self.grants@.len() implies !(
                    self.grants@[i].patient == authority && self.grants@[i].provider
                        == providers@[k as int]) by {
                    if i < base {
                        assert(self.grants@[i] == old(self).grants@[i]);
                    } else {
                        let k2 = i - base;
                        assert(self.grants@[base + k2] == self.grants@[i]);
                        assert(is_new_grant(
                            self.grants@[base + k2],
                            authority,
                            providers@[k2],
                            roles@[k2],
                            allowed_record_types@,
                            expires_at,
                            can_create,
                            can_modify,
                            can_view,
                            reason,
                            now,
                        ));
                        assert(old(self).batch_pair_err(authority, providers@, k as int) is None);
                        assert(!(exists|j: int|
                            0 <= j < k as int && providers@[j] == providers@[k as int]));
                        assert(providers@[k2] != providers@[k as int]);
                    }
                }
            }
            self.grants.push(grant);
            k += 1;
        }
        let count = self.patients[pi].access_grant_count;
        self.patients[pi].access_grant_count = count + (n as u64);
        self.patients[pi].updated_at = now;
        proof {
            assert(self.patients@ =~= old(self).patients@.update(
                old(self).patient_idx(authority),
                Patient {
                    access_grant_count: (old(self).patient_of(authority).access_grant_count
                        + providers@.len()) as u64,
                    updated_at: now,
                    ..old(self).patient_of(authority)
                },
            ));
        }
        Ok(())
    }
}

} // verus!
