//! The error kinds every operation of the engine can surface. All validation
//! happens before any mutation: the first failing check aborts the whole
//! operation with no side effects, with the one deliberate exception of the
//! view path, which records denied attempts in the audit trail before
//! surfacing `AccessDenied`.

use vstd::prelude::*;

verus! {

#[derive(Clone, Copy, PartialEq, Eq, Structural, Debug)]
pub enum CypherMedError {
    /// The actor lacks the required relationship to the entity.
    Unauthorized,
    /// No patient profile exists for the given identity.
    PatientNotFound,
    /// No medical record exists under the given identifier.
    RecordNotFound,
    /// No access grant exists for the given (patient, provider) pair.
    AccessGrantNotFound,
    /// No access request exists for the given (patient, requester) pair.
    AccessRequestNotFound,
    /// No valid grant covers the attempted action.
    AccessDenied,
    /// The grant's validity window has elapsed.
    AccessGrantExpired,
    InvalidRole,
    InvalidRecordType,
    /// The patient profile is inactive where an active one is required.
    PatientInactive,
    /// The record is inactive or archived.
    RecordInactive,
    /// The grant has already been revoked.
    AccessGrantRevoked,
    /// The grant does not belong to the revoking patient.
    CannotRevokeGrant,
    /// Emergency access needs a non-empty justification.
    EmergencyJustificationRequired,
    /// Name exceeds 50 characters.
    NameTooLong,
    /// Record identifier exceeds 64 characters.
    RecordIdTooLong,
    InvalidTimestamp,
    /// Self-targeting: a patient cannot grant access to themself.
    CannotGrantAccessToSelf,
    /// More than 7 record types given.
    TooManyRecordTypes,
    /// At least one record type must be given.
    NoRecordTypesSpecified,
    /// An expiration time must lie strictly in the future.
    InvalidExpirationTime,
    /// Self-targeting: a patient cannot request access to themself.
    CannotRequestAccessToSelf,
    /// A reason or justification exceeds its length bound: 100 characters
    /// on a directly created grant, 200 on a request, a denial, or an
    /// emergency justification.
    ReasonTooLong,
    /// A custom request expiration may lie at most 7 days ahead.
    ExpirationTooLong,
    /// The request was already approved or denied.
    RequestAlreadyResponded,
    /// The request's validity window has elapsed.
    RequestExpired,
    /// An update note must be given.
    UpdateNoteRequired,
    /// Update note exceeds 500 characters.
    UpdateNoteTooLong,
    /// Data hash exceeds 64 characters.
    DataHashTooLong,
    /// Metadata exceeds 200 characters.
    MetadataTooLong,
    /// Storage locator exceeds 100 characters.
    StorageCidTooLong,
    /// Client context exceeds 50 characters.
    ClientInfoTooLong,
    /// A deletion reason must be given.
    DeletionReasonRequired,
    /// Deletion reason exceeds 300 characters.
    DeletionReasonTooLong,
    /// A batch must name at least one provider.
    NoProvidersSpecified,
    /// A batch may name at most 10 providers.
    TooManyProviders,
    /// A batch must name exactly one role per provider.
    ProviderRoleMismatch,
    /// A patient profile already exists for the given identity.
    PatientAlreadyExists,
    /// A record already exists under the given identifier.
    RecordAlreadyExists,
    /// A grant already exists for the given (patient, provider) pair.
    AccessGrantAlreadyExists,
    /// A request already exists for the given (patient, requester) pair.
    AccessRequestAlreadyExists,
    /// The patient profile is already active.
    PatientAlreadyActive,
    /// A counter would overflow; treated as a fatal validation error.
    CounterOverflow,
}

} // verus!
