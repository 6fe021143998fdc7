//! The per-invocation diagnostic budget shared by every in-flight file task.

use vstd::prelude::*;

verus! {

/// The sentinel that means no cap at all.
pub const UNLIMITED_QUOTA: u64 = u64::MAX;

/// A single shared counter, set once at invocation start to a configured
/// maximum diagnostic count (or the unlimited sentinel) and read-only for
/// the whole invocation. Each file task takes a non-blocking snapshot
/// immediately before its own pull and uses it as that pull's local cap:
/// best-effort guidance across concurrent tasks, not an exact global
/// account. Because no task ever writes it, concurrent unsynchronized
/// reads are safe by construction.
#[derive(Debug)]
pub struct DiagnosticQuota {
    pub limit: u64,
}

impl DiagnosticQuota {
    /// A quota capped at `max` diagnostics per pull.
    pub fn new(max: u64) -> (r: DiagnosticQuota)
        ensures
            r.limit == max,
    {
        DiagnosticQuota { limit: max }
    }

    /// A quota that never truncates.
    pub fn unlimited() -> (r: DiagnosticQuota)
        ensures
            r.limit == UNLIMITED_QUOTA,
    {
        DiagnosticQuota { limit: UNLIMITED_QUOTA }
    }

    /// The non-blocking read a file task performs before its pull.
    pub fn snapshot(&self) -> (r: u64)
        ensures
            r == self.limit,
    {
        self.limit
    }
}

} // verus!
