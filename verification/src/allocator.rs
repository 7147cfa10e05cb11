//! Memory-allocation strategies.
//!
//! The allocator that backs these strategies talks to the driver and lives
//! with the caller; the strategy chosen for an allocation is plain data and
//! is kept here.

use vstd::prelude::*;

verus! {

/// How memory for a resource should be selected.
#[derive(Copy, Clone, Debug)]
pub enum AllocationStrategy {
    /// Automatically select memory that is only used by the gpu.
    AutoGpuOnly,
    /// Automatically select memory that is used by both gpu and cpu.
    AutoGpuCpu,
}

} // verus!
