//! The pure authorization decision function: from actor identity,
//! patient/record state, and the relevant grant to Authorized or Denied.
//! The emergency break-glass path is a distinct entry point of the store and
//! is exempt from the capability and grant checks made here.

use vstd::prelude::*;

use crate::state::{AccessGrant, ActorId, MedicalRecord, Patient, RecordType, Role};
use crate::utils::{grant_expired, is_grant_expired};

verus! {

/// The capability an action needs from a grant: one of its three independent
/// permission bits.
#[derive(Clone, Copy, PartialEq, Eq, Structural, Debug)]
pub enum Capability {
    Create,
    Modify,
    View,
}

/// Why an authorization attempt was denied.
#[derive(Clone, Copy, PartialEq, Eq, Structural, Debug)]
pub enum DenialCause {
    PatientInactive,
    RecordInactive,
    NoGrant,
    GrantInactive,
    GrantExpired,
    MissingPermission,
    RecordTypeNotAllowed,
}

/// The outcome of the decision function: authorized under an effective role,
/// or denied for a cause.
#[derive(Clone, Copy, PartialEq, Eq, Structural, Debug)]
pub enum AuthDecision {
    Authorized(Role),
    Denied(DenialCause),
}

/// Whether the grant's permission bit for `capability` is set.
pub open spec fn capability_granted(grant: AccessGrant, capability: Capability) -> bool {
    match capability {
        Capability::Create => grant.can_create,
        Capability::Modify => grant.can_modify,
        Capability::View => grant.can_view,
    }
}

/// Whether the grant's allowed-types set contains `record_type`.
pub open spec fn grant_allows_type(grant: AccessGrant, record_type: RecordType) -> bool {
    grant.allowed_record_types@.contains(record_type)
}

/// The decision, as a mathematical function. In order: an inactive patient,
/// then an inactive record, deny everything; the patient always has full
/// capability over their own data; anyone else needs a grant that is active,
/// unexpired, carries the needed permission bit, and (when a record is given)
/// allows the record's type.
pub open spec fn authorize_spec(
    actor: ActorId,
    patient: Patient,
    record: Option<MedicalRecord>,
    grant: Option<AccessGrant>,
    capability: Capability,
    now: i64,
) -> AuthDecision {
    if !patient.is_active {
        AuthDecision::Denied(DenialCause::PatientInactive)
    } else if record matches Some(r) && !r.is_active {
        AuthDecision::Denied(DenialCause::RecordInactive)
    } else if actor == patient.authority {
        AuthDecision::Authorized(Role::Patient)
    } else {
        match grant {
            None => AuthDecision::Denied(DenialCause::NoGrant),
            Some(g) => if !g.is_active {
                AuthDecision::Denied(DenialCause::GrantInactive)
            } else if grant_expired(g.expires_at, now) {
                AuthDecision::Denied(DenialCause::GrantExpired)
            } else if !capability_granted(g, capability) {
                AuthDecision::Denied(DenialCause::MissingPermission)
            } else if record matches Some(r) && !grant_allows_type(g, r.record_type) {
                AuthDecision::Denied(DenialCause::RecordTypeNotAllowed)
            } else {
                AuthDecision::Authorized(g.role)
            },
        }
    }
}

/// The record an optional reference stands for.
pub open spec fn spec_opt_record(record: Option<&MedicalRecord>) -> Option<MedicalRecord> {
    match record {
        Some(r) => Some(*r),
        None => None,
    }
}

/// The grant an optional reference stands for.
pub open spec fn spec_opt_grant(grant: Option<&AccessGrant>) -> Option<AccessGrant> {
    match grant {
        Some(g) => Some(*g),
        None => None,
    }
}

/// The pure decision function. It consults no store and mutates nothing;
/// callers commit its outcome to the audit trail.
pub fn authorize(
    actor: ActorId,
    patient: &Patient,
    record: Option<&MedicalRecord>,
    grant: Option<&AccessGrant>,
    capability: Capability,
    now: i64,
) -> (decision: AuthDecision)
    ensures
        decision == authorize_spec(
            actor,
            *patient,
            spec_opt_record(record),
            spec_opt_grant(grant),
            capability,
            now,
        ),
{
    if !patient.is_active {
        return AuthDecision::Denied(DenialCause::PatientInactive);
    }
    if let Some(r) = record {
        if !r.is_active {
            return AuthDecision::Denied(DenialCause::RecordInactive);
        }
    }
    if actor == patient.authority {
        return AuthDecision::Authorized(Role::Patient);
    }
    match grant {
        None => AuthDecision::Denied(DenialCause::NoGrant),
        Some(g) => {
            if !g.is_active {
                AuthDecision::Denied(DenialCause::GrantInactive)
            } else if is_grant_expired(g.expires_at, now) {
                AuthDecision::Denied(DenialCause::GrantExpired)
            } else if !(match capability {
                Capability::Create => g.can_create,
                Capability::Modify => g.can_modify,
                Capability::View => g.can_view,
            }) {
                AuthDecision::Denied(DenialCause::MissingPermission)
            } else {
                let mut type_ok = true;
                if let Some(r) = record {
                    type_ok = contains_record_type(&g.allowed_record_types, r.record_type);
                }
                if !type_ok {
                    AuthDecision::Denied(DenialCause::RecordTypeNotAllowed)
                } else {
                    AuthDecision::Authorized(g.role)
                }
            }
        },
    }
}

/// Whether `types` contains `record_type`.
pub fn contains_record_type(types: &Vec<RecordType>, record_type: RecordType) -> (found: bool)
    ensures
        found == types@.contains(record_type),
{
    let mut i: usize = 0;
    while i < types.len()
        invariant
            i <= types@.len(),
            forall|j: int| 0 <= j < i ==> types@[j] != record_type,
        decreases types@.len() - i,
    {
        if types[i] == record_type {
            return true;
        }
        i += 1;
    }
    false
}

/// An expired grant never authorizes: for any actor other than the patient,
/// once the evaluation time lies past the grant's expiration the decision is
/// a denial, regardless of the grant's permission bits.
pub proof fn lemma_expired_grant_is_denied(
    actor: ActorId,
    patient: Patient,
    record: Option<MedicalRecord>,
    grant: AccessGrant,
    capability: Capability,
    expiration: i64,
    now: i64,
)
    requires
        actor != patient.authority,
        grant.expires_at == Some(expiration),
        now > expiration,
    ensures
        authorize_spec(actor, patient, record, Some(grant), capability, now) is Denied,
{
}

} // verus!
