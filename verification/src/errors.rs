//! Error taxonomy of the pipeline. Every failure is terminal for the
//! current run: nothing in this design retries.

use vstd::prelude::*;

verus! {

/// The ways a compute run can fail.
#[derive(Clone, Copy, Debug, PartialEq, Eq, Structural)]
pub enum PipelineError {
    /// No device satisfies the minimal capability set (storage buffers,
    /// compute dispatch, host-buffer mapping).
    NoCompatibleDevice,
    /// A buffer size is zero, not a multiple of the element stride for its
    /// role, or does not fit the machine's address range.
    InvalidSize,
    /// A byte range falls outside a buffer's allocated extent.
    OutOfBounds,
    /// The host's binding slots do not match the slot layout the kernel
    /// declares.
    LayoutMismatch,
    /// The device became unavailable mid-operation; the pending operation
    /// resolves to this observable failure rather than hanging.
    DeviceLost,
}

} // verus!
