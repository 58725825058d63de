//! Entity types: patients, medical records, access grants, access requests,
//! and audit log entries, together with the enumerations they use.

use vstd::prelude::*;

verus! {

/// An authenticated actor identity, as handed in by the external identity
/// provider. The engine only ever compares identities for equality.
#[derive(Clone, Copy, PartialEq, Eq, Structural, Debug)]
pub struct ActorId(pub u64);

/// The role a provider acts under.
#[derive(Clone, Copy, PartialEq, Eq, Structural, Debug)]
pub enum Role {
    Patient,
    Doctor,
    Hospital,
    Insurer,
    EmergencyResponder,
}

/// The seven fixed categories of medical records.
#[derive(Clone, Copy, PartialEq, Eq, Structural, Debug)]
pub enum RecordType {
    GeneralMedical,
    Prescription,
    LabResult,
    VisitSummary,
    ImmunizationRecord,
    Imaging,
    Emergency,
}

/// Lifecycle of an access request. `Expired` is evaluated lazily at
/// approve/deny time and is never stored by this engine.
#[derive(Clone, Copy, PartialEq, Eq, Structural, Debug)]
pub enum RequestStatus {
    Pending,
    Approved,
    Denied,
    Expired,
}

/// The kind of action an audit entry records.
#[derive(Clone, Copy, PartialEq, Eq, Structural, Debug)]
pub enum AccessAction {
    View,
    Create,
    Modify,
    Delete,
    GrantAccess,
    RevokeAccess,
    EmergencyAccess,
}

/// Default lifetime of an access request: two days, in seconds.
pub const DEFAULT_EXPIRATION_SECONDS: i64 = 172800;

/// Longest custom lifetime a requester may ask for: seven days, in seconds.
pub const MAX_EXPIRATION_SECONDS: i64 = 604800;

/// A patient profile. Created once per owner identity and never deleted:
/// deactivation is a soft state transition.
#[derive(Clone, Debug)]
pub struct Patient {
    /// The patient's own identity; also the key this profile is stored under.
    pub authority: ActorId,
    /// Display name, at most 50 characters.
    pub name: String,
    /// Date of birth as a Unix timestamp.
    pub date_of_birth: i64,
    pub created_at: i64,
    pub updated_at: i64,
    /// How many records have been created for this patient.
    pub record_count: u64,
    /// How many access grants this patient has given.
    pub access_grant_count: u64,
    pub is_active: bool,
    pub emergency_contact: Option<ActorId>,
}

/// Metadata of one medical record; the payload itself lives off-system and is
/// tied in by `data_hash` and `storage_cid`.
#[derive(Clone, Debug)]
pub struct MedicalRecord {
    /// The patient this record belongs to.
    pub patient: ActorId,
    /// The provider (or the patient) who created the record.
    pub created_by: ActorId,
    pub record_type: RecordType,
    /// Identifier of the record, unique within its patient, at most 64 characters.
    pub record_id: String,
    /// Integrity hash of the off-system payload.
    pub data_hash: String,
    /// Optional external storage locator.
    pub storage_cid: Option<String>,
    pub created_at: i64,
    pub modified_at: i64,
    pub last_accessed: i64,
    /// Incremented exactly when a view of this record succeeds.
    pub access_count: u64,
    pub is_active: bool,
    pub metadata: Option<String>,
}

/// A standing, permission-scoped authorization from a patient to a provider.
/// At most one grant exists per (patient, provider) pair; revocation is
/// permanent and one-way.
#[derive(Clone, Debug)]
pub struct AccessGrant {
    pub patient: ActorId,
    pub provider: ActorId,
    pub role: Role,
    /// The record categories this grant opens, between 1 and 7 of them.
    pub allowed_record_types: Vec<RecordType>,
    pub granted_at: i64,
    /// `None` means the grant does not expire.
    pub expires_at: Option<i64>,
    pub is_active: bool,
    pub can_create: bool,
    pub can_modify: bool,
    pub can_view: bool,
    pub reason: Option<String>,
    pub revoked_by: Option<ActorId>,
    pub revoked_at: Option<i64>,
}

/// A provider-initiated ask for a grant, awaiting the patient's response.
/// At most one request exists per (patient, requester) pair.
#[derive(Clone, Debug)]
pub struct AccessRequest {
    pub patient: ActorId,
    pub requester: ActorId,
    pub requester_role: Role,
    /// Optional reason shown to the patient, at most 200 characters.
    pub reason: Option<String>,
    pub requested_at: i64,
    pub expires_at: i64,
    pub status: RequestStatus,
    pub responded_at: Option<i64>,
    pub responded_by: Option<ActorId>,
    pub denial_reason: Option<String>,
    pub notification_sent: bool,
}

/// One immutable entry of the audit trail: a single authorization decision,
/// successful or not.
#[derive(Clone, Debug)]
pub struct AuditLog {
    pub patient: ActorId,
    /// Identifier of the record the decision was about.
    pub record_id: String,
    pub accessor: ActorId,
    /// The accessor's effective role at the time of the action.
    pub accessor_role: Role,
    pub action: AccessAction,
    pub record_type: RecordType,
    pub timestamp: i64,
    pub success: bool,
    pub failure_reason: Option<String>,
    pub is_emergency: bool,
    pub emergency_justification: Option<String>,
    pub client_info: Option<String>,
    pub metadata: Option<String>,
}

} // verus!
