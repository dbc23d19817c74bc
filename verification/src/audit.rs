//! Audit entries: who did what to which resource. Use cases record one
//! for every state-changing operation; a failure to store it is logged,
//! never propagated.

use vstd::prelude::*;
use crate::text::owned;

verus! {

/// One audit-log row.
#[derive(Debug, Clone)]
pub struct AuditEntry {
    pub user_id: Option<u128>,
    pub action: String,
    pub resource_type: Option<String>,
    pub resource_id: Option<String>,
    pub request_id: Option<String>,
    /// The client address, as text.
    pub ip_address: Option<String>,
    /// Free-form details, as JSON text.
    pub metadata: Option<String>,
}

impl AuditEntry {
    /// An entry for `action` with nothing else known yet.
    pub fn new(action: &str) -> (r: AuditEntry)
        ensures
            r.action@ == action@,
            r.user_id is None,
            r.resource_type is None,
            r.resource_id is None,
            r.request_id is None,
            r.ip_address is None,
            r.metadata is None,
    {
        AuditEntry {
            user_id: None,
            action: owned(action),
            resource_type: None,
            resource_id: None,
            request_id: None,
            ip_address: None,
            metadata: None,
        }
    }

    /// The same entry, done by user `id`.
    pub fn user(self, id: u128) -> (r: AuditEntry)
        ensures
            r == (AuditEntry { user_id: Some(id), ..self }),
    {
        AuditEntry { user_id: Some(id), ..self }
    }

    /// The same entry, about the resource of type `ty` with id `id`.
    pub fn resource(self, ty: &str, id: String) -> (r: AuditEntry)
        ensures
            r.resource_type matches Some(t) && t@ == ty@,
            r.resource_id == Some(id),
            r.user_id == self.user_id,
            r.action == self.action,
            r.request_id == self.request_id,
            r.ip_address == self.ip_address,
            r.metadata == self.metadata,
    {
        AuditEntry { resource_type: Some(owned(ty)), resource_id: Some(id), ..self }
    }

    /// The same entry, with details `m` (JSON text).
    pub fn metadata(self, m: String) -> (r: AuditEntry)
        ensures
            r == (AuditEntry { metadata: Some(m), ..self }),
    {
        AuditEntry { metadata: Some(m), ..self }
    }
}

} // verus!
