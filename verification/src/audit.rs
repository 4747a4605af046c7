//! The audit-log record the host's event table stores and serves.

use vstd::prelude::*;

verus! {

/// One audited dashboard action, as read back from the event table.
pub struct AuditLog {
    pub id: i64,
    pub timestamp: String,
    pub service: String,
    pub action: String,
    pub details: String,
}

/// `AuditLog`, at the specification level.
pub struct AuditLogModel {
    pub id: int,
    pub timestamp: Seq<char>,
    pub service: Seq<char>,
    pub action: Seq<char>,
    pub details: Seq<char>,
}

impl View for AuditLog {
    type V = AuditLogModel;

    open spec fn view(&self) -> AuditLogModel {
        AuditLogModel {
            id: self.id as int,
            timestamp: self.timestamp@,
            service: self.service@,
            action: self.action@,
            details: self.details@,
        }
    }
}

} // verus!
