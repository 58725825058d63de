//! The in-memory keyed store behind the engine: one table per entity,
//! addressed by composite keys. Creation is insert-unless-key-exists, which
//! is what enforces the one-profile-per-identity, one-record-per-id,
//! one-grant-per-pair, and one-request-per-pair invariants.

use vstd::prelude::*;

use crate::state::{AccessGrant, AccessRequest, ActorId, AuditLog, MedicalRecord, Patient};

verus! {

/// The whole engine state: patient registry, record store, grant ledger,
/// consent workflow, and audit trail.
pub struct CypherMed {
    pub patients: Vec<Patient>,
    pub records: Vec<MedicalRecord>,
    pub grants: Vec<AccessGrant>,
    pub requests: Vec<AccessRequest>,
    pub audit_log: Vec<AuditLog>,
}

impl CypherMed {
    /// Structural well-formedness: every operation of the engine requires it
    /// of the state it starts from and preserves it.
    ///
    /// Key uniqueness: patients are keyed by identity, records by
    /// (patient, record id), grants by (patient, provider), and requests by
    /// (patient, requester) — so at most one grant, active or not, exists per
    /// (patient, provider) pair at any time. Self-targeting grants and
    /// requests never exist. A grant is inactive exactly when it carries its
    /// revocation stamp, and a request is pending exactly when it carries no
    /// response; lengths validated at creation keep holding.
    pub open spec fn wf(self) -> bool {
        &&& forall|i: int, j: int|
            0 <= i < self.patients@.len() && 0 <= j < self.patients@.len() && i != j
                ==> self.patients@[i].authority != self.patients@[j].authority
        &&& forall|i: int, j: int|
            0 <= i < self.records@.len() && 0 <= j < self.records@.len() && i != j
                ==> !(self.records@[i].patient == self.records@[j].patient
                    && self.records@[i].record_id@ == self.records@[j].record_id@)
        &&& forall|i: int, j: int|
            0 <= i < self.grants@.len() && 0 <= j < self.grants@.len() && i != j
                ==> !(self.grants@[i].patient == self.grants@[j].patient
                    && self.grants@[i].provider == self.grants@[j].provider)
        &&& forall|i: int, j: int|
            0 <= i < self.requests@.len() && 0 <= j < self.requests@.len() && i != j
                ==> !(self.requests@[i].patient == self.requests@[j].patient
                    && self.requests@[i].requester == self.requests@[j].requester)
        &&& forall|i: int| 0 <= i < self.patients@.len() ==> (#[trigger] self.patients@[i]).name@.len() <= 50
        &&& forall|i: int| 0 <= i < self.records@.len() ==> (#[trigger] self.records@[i]).record_id@.len() <= 64
        &&& forall|i: int| 0 <= i < self.grants@.len() ==> grant_wf(#[trigger] self.grants@[i])
        &&& forall|i: int| 0 <= i < self.requests@.len() ==> request_wf(#[trigger] self.requests@[i])
    }

    /// An empty engine: no entities, no audit history.
    pub fn new() -> (engine: CypherMed)
        ensures
            engine.wf(),
            engine.patients@.len() == 0,
            engine.records@.len() == 0,
            engine.grants@.len() == 0,
            engine.requests@.len() == 0,
            engine.audit_log@.len() == 0,
    {
        CypherMed {
            patients: Vec::new(),
            records: Vec::new(),
            grants: Vec::new(),
            requests: Vec::new(),
            audit_log: Vec::new(),
        }
    }

    /// Whether a patient profile exists for `authority`.
    pub open spec fn has_patient(self, authority: ActorId) -> bool {
        exists|i: int|
            0 <= i < self.patients@.len() && (#[trigger] self.patients@[i]).authority == authority
    }

    /// The index the profile of `authority` is stored at; meaningful only
    /// when `has_patient` holds (unique then, by well-formedness).
    pub open spec fn patient_idx(self, authority: ActorId) -> int {
        choose|i: int|
            0 <= i < self.patients@.len() && (#[trigger] self.patients@[i]).authority == authority
    }

    /// The profile of `authority`; meaningful only when `has_patient` holds.
    pub open spec fn patient_of(self, authority: ActorId) -> Patient {
        self.patients@[self.patient_idx(authority)]
    }

    /// Whether a record exists for `patient` under the identifier `record_id`.
    pub open spec fn has_record(self, patient: ActorId, record_id: Seq<char>) -> bool {
        exists|i: int|
            0 <= i < self.records@.len() && (#[trigger] self.records@[i]).patient == patient
                && self.records@[i].record_id@ == record_id
    }

    /// The index of the record of (`patient`, `record_id`); meaningful only
    /// when `has_record` holds.
    pub open spec fn record_idx(self, patient: ActorId, record_id: Seq<char>) -> int {
        choose|i: int|
            0 <= i < self.records@.len() && (#[trigger] self.records@[i]).patient == patient
                && self.records@[i].record_id@ == record_id
    }

    /// The record of (`patient`, `record_id`); meaningful only when
    /// `has_record` holds.
    pub open spec fn record_of(self, patient: ActorId, record_id: Seq<char>) -> MedicalRecord {
        self.records@[self.record_idx(patient, record_id)]
    }

    /// Whether a grant exists for the (`patient`, `provider`) pair.
    pub open spec fn has_grant(self, patient: ActorId, provider: ActorId) -> bool {
        exists|i: int|
            0 <= i < self.grants@.len() && (#[trigger] self.grants@[i]).patient == patient
                && self.grants@[i].provider == provider
    }

    /// The index of the grant of (`patient`, `provider`); meaningful only
    /// when `has_grant` holds.
    pub open spec fn grant_idx(self, patient: ActorId, provider: ActorId) -> int {
        choose|i: int|
            0 <= i < self.grants@.len() && (#[trigger] self.grants@[i]).patient == patient
                && self.grants@[i].provider == provider
    }

    /// The grant of (`patient`, `provider`); meaningful only when `has_grant`
    /// holds.
    pub open spec fn grant_of(self, patient: ActorId, provider: ActorId) -> AccessGrant {
        self.grants@[self.grant_idx(patient, provider)]
    }

    /// The grant of (`patient`, `provider`) as an option.
    pub open spec fn grant_opt(self, patient: ActorId, provider: ActorId) -> Option<AccessGrant> {
        if self.has_grant(patient, provider) {
            Some(self.grant_of(patient, provider))
        } else {
            None
        }
    }

    /// Whether a request exists for the (`patient`, `requester`) pair.
    pub open spec fn has_request(self, patient: ActorId, requester: ActorId) -> bool {
        exists|i: int|
            0 <= i < self.requests@.len() && (#[trigger] self.requests@[i]).patient == patient
                && self.requests@[i].requester == requester
    }

    /// The index of the request of (`patient`, `requester`); meaningful only
    /// when `has_request` holds.
    pub open spec fn request_idx(self, patient: ActorId, requester: ActorId) -> int {
        choose|i: int|
            0 <= i < self.requests@.len() && (#[trigger] self.requests@[i]).patient == patient
                && self.requests@[i].requester == requester
    }

    /// The request of (`patient`, `requester`); meaningful only when
    /// `has_request` holds.
    pub open spec fn request_of(self, patient: ActorId, requester: ActorId) -> AccessRequest {
        self.requests@[self.request_idx(patient, requester)]
    }

    /// Find the index of the profile of `authority`.
    pub fn find_patient(&self, authority: ActorId) -> (found: Option<usize>)
        requires
            self.wf(),
        ensures
            match found {
                Some(i) => self.has_patient(authority) && self.patient_idx(authority) == i as int
                    && i < self.patients@.len()
                    && self.patients@[i as int].authority == authority,
                None => !self.has_patient(authority),
            },
    {
        let mut i: usize = 0;
        while i < self.patients.len()
            invariant
                self.wf(),
                i <= self.patients@.len(),
                forall|j: int| 0 <= j < i ==> (#[trigger] self.patients@[j]).authority != authority,
            decreases self.patients@.len() - i,
        {
            if self.patients[i].authority == authority {
                proof {
                    self.lemma_patient_idx_is(authority, i as int);
                }
                return Some(i);
            }
            i += 1;
        }
        None
    }

    /// Find the index of the record of (`patient`, `record_id`).
    pub fn find_record(&self, patient: ActorId, record_id: &String) -> (found: Option<usize>)
        requires
            self.wf(),
        ensures
            match found {
                Some(i) => self.has_record(patient, record_id@)
                    && self.record_idx(patient, record_id@) == i as int
                    && i < self.records@.len()
                    && self.records@[i as int].patient == patient
                    && self.records@[i as int].record_id@ == record_id@,
                None => !self.has_record(patient, record_id@),
            },
    {
        let mut i: usize = 0;
        while i < self.records.len()
            invariant
                self.wf(),
                i <= self.records@.len(),
                forall|j: int|
                    0 <= j < i ==> !((#[trigger] self.records@[j]).patient == patient
                        && self.records@[j].record_id@ == record_id@),
            decreases self.records@.len() - i,
        {
            if self.records[i].patient == patient && self.records[i].record_id == *record_id {
                proof {
                    self.lemma_record_idx_is(patient, record_id@, i as int);
                }
                return Some(i);
            }
            i += 1;
        }
        None
    }

    /// Find the index of the grant of (`patient`, `provider`).
    pub fn find_grant(&self, patient: ActorId, provider: ActorId) -> (found: Option<usize>)
        requires
            self.wf(),
        ensures
            match found {
                Some(i) => self.has_grant(patient, provider)
                    && self.grant_idx(patient, provider) == i as int
                    && i < self.grants@.len()
                    && self.grants@[i as int].patient == patient
                    && self.grants@[i as int].provider == provider,
                None => !self.has_grant(patient, provider),
            },
    {
        let mut i: usize = 0;
        while i < self.grants.len()
            invariant
                self.wf(),
                i <= self.grants@.len(),
                forall|j: int|
                    0 <= j < i ==> !((#[trigger] self.grants@[j]).patient == patient
                        && self.grants@[j].provider == provider),
            decreases self.grants@.len() - i,
        {
            if self.grants[i].patient == patient && self.grants[i].provider == provider {
                proof {
                    self.lemma_grant_idx_is(patient, provider, i as int);
                }
                return Some(i);
            }
            i += 1;
        }
        None
    }

    /// Find the index of the request of (`patient`, `requester`).
    pub fn find_request(&self, patient: ActorId, requester: ActorId) -> (found: Option<usize>)
        requires
            self.wf(),
        ensures
            match found {
                Some(i) => self.has_request(patient, requester)
                    && self.request_idx(patient, requester) == i as int
                    && i < self.requests@.len()
                    && self.requests@[i as int].patient == patient
                    && self.requests@[i as int].requester == requester,
                None => !self.has_request(patient, requester),
            },
    {
        let mut i: usize = 0;
        while i < self.requests.len()
            invariant
                self.wf(),
                i <= self.requests@.len(),
                forall|j: int|
                    0 <= j < i ==> !((#[trigger] self.requests@[j]).patient == patient
                        && self.requests@[j].requester == requester),
            decreases self.requests@.len() - i,
        {
            if self.requests[i].patient == patient && self.requests[i].requester == requester {
                proof {
                    self.lemma_request_idx_is(patient, requester, i as int);
                }
                return Some(i);
            }
            i += 1;
        }
        None
    }

    /// In a well-formed state a witness index pins down the patient lookup.
    pub proof fn lemma_patient_idx_is(self, authority: ActorId, i: int)
        requires
            self.wf(),
            0 <= i < self.patients@.len(),
            self.patients@[i].authority == authority,
        ensures
            self.has_patient(authority),
            self.patient_idx(authority) == i,
            self.patient_of(authority) == self.patients@[i],
    {
        assert(self.has_patient(authority));
        let j = self.patient_idx(authority);
        assert(0 <= j < self.patients@.len() && self.patients@[j].authority == authority);
    }

    /// In a well-formed state a witness index pins down the record lookup.
    pub proof fn lemma_record_idx_is(self, patient: ActorId, record_id: Seq<char>, i: int)
        requires
            self.wf(),
            0 <= i < self.records@.len(),
            self.records@[i].patient == patient,
            self.records@[i].record_id@ == record_id,
        ensures
            self.has_record(patient, record_id),
            self.record_idx(patient, record_id) == i,
            self.record_of(patient, record_id) == self.records@[i],
    {
        assert(self.has_record(patient, record_id));
        let j = self.record_idx(patient, record_id);
        assert(0 <= j < self.records@.len() && self.records@[j].patient == patient
            && self.records@[j].record_id@ == record_id);
    }

    /// In a well-formed state a witness index pins down the grant lookup.
    /// In particular at most one grant — hence at most one active grant —
    /// exists per (patient, provider) pair at any time.
    pub proof fn lemma_grant_idx_is(self, patient: ActorId, provider: ActorId, i: int)
        requires
            self.wf(),
            0 <= i < self.grants@.len(),
            self.grants@[i].patient == patient,
            self.grants@[i].provider == provider,
        ensures
            self.has_grant(patient, provider),
            self.grant_idx(patient, provider) == i,
            self.grant_of(patient, provider) == self.grants@[i],
    {
        assert(self.has_grant(patient, provider));
        let j = self.grant_idx(patient, provider);
        assert(0 <= j < self.grants@.len() && self.grants@[j].patient == patient
            && self.grants@[j].provider == provider);
    }

    /// In a well-formed state a witness index pins down the request lookup.
    pub proof fn lemma_request_idx_is(self, patient: ActorId, requester: ActorId, i: int)
        requires
            self.wf(),
            0 <= i < self.requests@.len(),
            self.requests@[i].patient == patient,
            self.requests@[i].requester == requester,
        ensures
            self.has_request(patient, requester),
            self.request_idx(patient, requester) == i,
            self.request_of(patient, requester) == self.requests@[i],
    {
        assert(self.has_request(patient, requester));
        let j = self.request_idx(patient, requester);
        assert(0 <= j < self.requests@.len() && self.requests@[j].patient == patient
            && self.requests@[j].requester == requester);
    }
}

/// Internal consistency of one grant: it names between 1 and 7 allowed
/// record types, it never targets its own patient, its reason fits the
/// widest bound a creation path admits — 100 characters when granted
/// directly, 200 when inherited from an approved request — and it is
/// inactive exactly when it carries its revocation stamp: revocation is
/// one-way and permanent.
pub open spec fn grant_wf(grant: AccessGrant) -> bool {
    &&& 1 <= grant.allowed_record_types@.len() <= 7
    &&& grant.patient != grant.provider
    &&& grant.reason matches Some(reason) ==> reason@.len() <= 200
    &&& grant.is_active <==> grant.revoked_by is None
    &&& grant.is_active <==> grant.revoked_at is None
}

/// Internal consistency of one request: it never targets its own patient,
/// its reasons fit their bounds, and it is pending exactly while it carries
/// no response. The `Expired` status is evaluated lazily at approve/deny
/// time and never stored.
pub open spec fn request_wf(request: AccessRequest) -> bool {
    &&& request.patient != request.requester
    &&& request.reason matches Some(reason) ==> reason@.len() <= 200
    &&& request.denial_reason matches Some(reason) ==> reason@.len() <= 200
    &&& request.status is Pending <==> request.responded_at is None
    &&& request.status is Pending <==> request.responded_by is None
    &&& request.status is Pending ==> request.denial_reason is None
    &&& !(request.status is Expired)
}

/// At most one grant exists per (patient, provider) pair: two grant indices
/// agreeing on the pair agree on the index.
pub proof fn lemma_one_grant_per_pair(engine: CypherMed, i: int, j: int)
    requires
        engine.wf(),
        0 <= i < engine.grants@.len(),
        0 <= j < engine.grants@.len(),
        engine.grants@[i].patient == engine.grants@[j].patient,
        engine.grants@[i].provider == engine.grants@[j].provider,
    ensures
        i == j,
{
}

/// A copy of an optional reason, by value.
pub fn clone_opt_string(text: &Option<String>) -> (copy: Option<String>)
    ensures
        copy == *text,
{
    match text {
        Some(s) => Some(s.clone()),
        None => None,
    }
}

/// A copy of a list of record types, by value.
pub fn copy_record_types(types: &Vec<crate::state::RecordType>) -> (copy: Vec<
    crate::state::RecordType,
>)
    ensures
        copy@ == types@,
{
    let mut out: Vec<crate::state::RecordType> = Vec::new();
    let mut i: usize = 0;
    while i < types.len()
        invariant
            i <= types@.len(),
            out@ == types@.subrange(0, i as int),
        decreases types@.len() - i,
    {
        out.push(types[i]);
        i += 1;
    }
    proof {
        assert(out@ =~= types@);
    }
    out
}

} // verus!
