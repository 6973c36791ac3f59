use vstd::prelude::*;

verus! {

/// Every way the boot sequence can fail. Each kind is fatal: no step is retried.
#[derive(Clone, Copy, Debug, PartialEq, Eq, Structural)]
pub enum BootError {
    FileNotFound,
    FileNotRegular,
    InfoUnavailable,
    ReadSizeMismatch,
    PoolAllocationFailed,
    PoolFreeFailed,
    ParseFailed,
    SegmentReadFailed { address: u64 },
    PageAllocationFailed,
    MemoryMapUnavailable,
    GraphicsUnavailable,
    ServiceTerminationFailed,
}

} // verus!
