//! An access-control and audit engine for patient medical records.
//!
//! Patients own their data; providers obtain time-bounded, permission-scoped
//! access either by a direct grant or through a request/approve/deny consent
//! workflow, with an emergency break-glass bypass for urgent care. Every
//! authorization decision on the view path is committed to an append-only
//! audit trail, whether it succeeded or not.
//!
//! Notification delivery is outside this engine: every datum a consumer
//! would be told — a request filed, approved or denied, a grant batch, a
//! deactivation, an emergency access — is available from the returned
//! result and the stored state, and the caller emits events from there.

pub mod access;
pub mod auth;
pub mod consent;
pub mod errors;
pub mod grants;
pub mod records;
pub mod registry;
pub mod state;
pub mod store;
pub mod utils;

pub use auth::{AuthDecision, Capability, DenialCause};
pub use errors::CypherMedError;
pub use state::{
    AccessAction, AccessGrant, AccessRequest, ActorId, AuditLog, MedicalRecord, Patient,
    RecordType, RequestStatus, Role,
};
pub use store::CypherMed;
