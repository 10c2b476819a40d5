//! The error taxonomy of the core.
//!
//! Surface staleness and zero-area windows are not errors here: they are
//! recovered locally by a later recreation attempt and never reach this type.

use vstd::prelude::*;

verus! {

/// A failure reported by the graphics driver that the core cannot hide.
#[derive(Debug, Clone, Copy, PartialEq, Eq, Structural)]
pub enum GpuError {
    /// Allocation failure: the frame is aborted, the caller may retry.
    OutOfMemory,
    /// Unrecoverable device loss: only full teardown is correct.
    DeviceLost,
}

impl GpuError {
    /// Device loss is fatal; exhaustion leaves the caller a choice.
    pub fn is_fatal(&self) -> (r: bool)
        ensures
            r <==> *self is DeviceLost,
    {
        match self {
            GpuError::DeviceLost => true,
            GpuError::OutOfMemory => false,
        }
    }
}

} // verus!
