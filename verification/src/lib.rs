//! Verified model of a GPU compute dispatch and readback pipeline for a
//! beamforming-style channel reduction.
//!
//! The library states and proves the host-side contracts of the pipeline:
//! the memory-layout agreement between host and device, buffer roles and
//! usage capabilities, the binding-slot contract of the kernel, workgroup
//! dispatch sizing, the ordered command submission, and the asynchronous
//! readback protocol. Sample values travel through the model as 32-bit
//! words (the bit patterns of the device's scalars); the device's own
//! floating-point arithmetic is outside the model.

pub mod binding;
pub mod buffers;
pub mod device;
pub mod dispatch;
pub mod errors;
pub mod kernel;
pub mod layout;
pub mod pipeline;
pub mod readback;

use vstd::prelude::*;

verus! {

use crate::errors::PipelineError;

/// Number of worker threads per dispatch group; one thread per input channel.
pub const NUM_CHANNELS: usize = 64;

/// Derives the number of dispatch groups from the number of input samples:
/// the ceiling of `input_len / NUM_CHANNELS`.
pub fn group_count(input_len: usize) -> (r: Result<usize, PipelineError>)
    ensures
        input_len <= usize::MAX - 63 <==> r is Ok,
        r is Ok ==> r->Ok_0 == (input_len + 63) / (NUM_CHANNELS as int),
        r is Ok && input_len > 0 ==> (r->Ok_0 - 1) * (NUM_CHANNELS as int) < input_len
            <= r->Ok_0 * (NUM_CHANNELS as int),
        input_len == 0 ==> r == Result::<usize, PipelineError>::Ok(0),
        r is Err ==> r->Err_0 == PipelineError::InvalidSize,
{
    if input_len > usize::MAX - 63 {
        return Err(PipelineError::InvalidSize);
    }
    let g = (input_len + 63) / NUM_CHANNELS;
    proof {
        if input_len > 0 {
            assert((g - 1) * 64 < input_len <= g * 64) by (nonlinear_arith)
                requires g == (input_len + 63) / 64 && input_len > 0;
        }
    }
    Ok(g)
}

} // verus!
