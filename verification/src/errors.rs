//! The error taxonomy shared by every operation of the crate.

use vstd::prelude::*;

verus! {

/// The operating-system call that an [`Error::OsCallFailed`] arose from.
#[derive(Clone, Copy, Debug, PartialEq, Eq, Structural)]
pub enum OsCall {
    /// Querying a page's commit state and protection flags.
    VirtualQuery,
    /// Changing a page's protection flags.
    VirtualProtect,
    /// The raw read of the target memory.
    ReadMemory,
    /// The raw write of the target memory.
    WriteMemory,
    /// Opening a process by id.
    OpenProcess,
    /// Creating a process or module snapshot.
    CreateSnapshot,
}

/// The hook-engine operation that an [`Error::EngineStatus`] arose from.
#[derive(Clone, Copy, Debug, PartialEq, Eq, Structural)]
pub enum HookOperation {
    Initialize,
    Uninitialize,
    Create,
    Enable,
    Disable,
}

/// Every failure a caller can see.
///
/// `NotFound` is the expected "absent" answer for name lookups,
/// `OsCallFailed` carries the failing call and its raw code (`0` where the
/// failure was decided by this crate's own model rather than reported by the
/// system), `EngineStatus` carries a non-OK hook-engine status code with the
/// operation and target it arose from, and `MalformedInput` rejects pattern
/// text that cannot be tokenized.
#[derive(Clone, Copy, Debug, PartialEq, Eq, Structural)]
pub enum Error {
    NotFound,
    OsCallFailed { call: OsCall, code: u32, address: usize },
    EngineStatus { status: i32, operation: HookOperation, target: usize },
    MalformedInput,
}

} // verus!
