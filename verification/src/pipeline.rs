//! One compute run, end to end: derive the dispatch shape from the input,
//! allocate the four buffers, bind them to the kernel's slots, record the
//! ordered submission, and interpret the bytes the readback protocol hands
//! back. Everything the run decides is a function of the input alone.

use vstd::prelude::*;

verus! {

use crate::NUM_CHANNELS;
use crate::binding::{BindingSet, bind_buffers, build_binding_layout, kernel_layout};
use crate::buffers::{Buffer, BufferRole, allocate, required_usage};
use crate::dispatch::{Command, DeviceState, run_submission, spec_submission};
use crate::errors::PipelineError;
use crate::layout::{
    BeamformingConfig, CONFIG_STRIDE, SAMPLE_STRIDE, bytes_words, lemma_words_round_trip,
    words_bytes,
};

/// Everything one run fixes before submission: the dispatch shape, the four
/// buffers, the binding set, and the recorded command order.
pub struct PipelinePlan {
    pub config: BeamformingConfig,
    pub groups: usize,
    pub input_buffer: Buffer,
    pub uniform_buffer: Buffer,
    pub bindings: BindingSet,
    pub staging_buffer: Buffer,
    pub commands: Vec<Command>,
}

impl PipelinePlan {
    /// A plan fit to submit for `num_samples` input samples.
    pub open spec fn wf(self, num_samples: usize) -> bool {
        &&& self.groups == (num_samples + (NUM_CHANNELS as int) - 1) / (NUM_CHANNELS as int)
        &&& self.input_buffer == (Buffer {
            role: BufferRole::Input,
            byte_size: (num_samples * SAMPLE_STRIDE) as usize,
            usage: required_usage(BufferRole::Input),
        })
        &&& self.bindings.input == self.input_buffer
        &&& self.bindings.output == (Buffer {
            role: BufferRole::Output,
            byte_size: (self.groups * SAMPLE_STRIDE) as usize,
            usage: required_usage(BufferRole::Output),
        })
        &&& self.staging_buffer == (Buffer {
            role: BufferRole::Staging,
            byte_size: (self.groups * SAMPLE_STRIDE) as usize,
            usage: required_usage(BufferRole::Staging),
        })
        &&& self.uniform_buffer == (Buffer {
            role: BufferRole::Uniform,
            byte_size: CONFIG_STRIDE,
            usage: required_usage(BufferRole::Uniform),
        })
        &&& self.bindings.config == self.uniform_buffer
        &&& self.bindings.wf()
        &&& self.commands@ == spec_submission(self.groups)
    }
}

/// Builds the plan for one run over `num_samples` packed input samples.
/// Succeeds exactly when there is at least one sample and the input's byte
/// extent fits the machine's address range; fails with `InvalidSize`
/// otherwise. The plan — buffer extents, dispatch shape, binding set,
/// command order — is pinned by `PipelinePlan::wf`, so equal inputs always
/// yield equal plans.
pub fn plan_compute(num_samples: usize, config: BeamformingConfig) -> (r: Result<
    PipelinePlan,
    PipelineError,
>)
    ensures
        (0 < num_samples && num_samples * SAMPLE_STRIDE <= usize::MAX) <==> r is Ok,
        r is Ok ==> r->Ok_0.wf(num_samples) && r->Ok_0.config == config,
        r is Err ==> r->Err_0 == PipelineError::InvalidSize,
{
    let input_bytes = match crate::layout::sample_extent(num_samples) {
        Ok(b) => b,
        Err(e) => {
            return Err(e);
        },
    };
    proof {
        assert(num_samples * 4 % 4 == 0) by (nonlinear_arith);
        assert(num_samples > 0 ==> num_samples * 4 > 0) by (nonlinear_arith);
    }
    let input_buffer = match allocate(BufferRole::Input, input_bytes) {
        Ok(b) => b,
        Err(e) => {
            return Err(e);
        },
    };
    let groups = match crate::group_count(num_samples) {
        Ok(g) => g,
        Err(e) => {
            return Err(e);
        },
    };
    proof {
        assert(num_samples <= usize::MAX - 63) by (nonlinear_arith)
            requires num_samples * 4 <= usize::MAX && num_samples >= 1;
        assert(groups <= num_samples) by (nonlinear_arith)
            requires groups == (num_samples + 63) / 64 && num_samples >= 1;
        assert(groups * 4 <= num_samples * 4) by (nonlinear_arith)
            requires groups <= num_samples;
    }
    let output_bytes = match crate::layout::sample_extent(groups) {
        Ok(b) => b,
        Err(e) => {
            return Err(e);
        },
    };
    proof {
        assert(groups * 4 % 4 == 0) by (nonlinear_arith);
        assert(groups >= 1);
        assert(groups * 4 > 0) by (nonlinear_arith)
            requires groups >= 1;
    }
    let output_buffer = match allocate(BufferRole::Output, output_bytes) {
        Ok(b) => b,
        Err(e) => {
            return Err(e);
        },
    };
    let staging_buffer = match allocate(BufferRole::Staging, output_bytes) {
        Ok(b) => b,
        Err(e) => {
            return Err(e);
        },
    };
    proof {
        assert(CONFIG_STRIDE > 0);
        assert(crate::buffers::spec_role_stride(BufferRole::Uniform) == CONFIG_STRIDE);
        assert(CONFIG_STRIDE % crate::buffers::spec_role_stride(BufferRole::Uniform) == 0);
    }
    let uniform_buffer = match allocate(BufferRole::Uniform, CONFIG_STRIDE) {
        Ok(b) => b,
        Err(e) => {
            return Err(e);
        },
    };
    let layout = match build_binding_layout(kernel_layout()) {
        Ok(l) => l,
        Err(e) => {
            return Err(e);
        },
    };
    let bindings = match bind_buffers(&layout, input_buffer, output_buffer, uniform_buffer) {
        Ok(b) => b,
        Err(e) => {
            return Err(e);
        },
    };
    let commands = match crate::dispatch::record_submission(groups) {
        Ok(c) => c,
        Err(e) => {
            return Err(e);
        },
    };
    Ok(PipelinePlan {
        config,
        groups,
        input_buffer,
        uniform_buffer,
        bindings,
        staging_buffer,
        commands,
    })
}

/// Interprets the bytes the readback view handed over as the run's output
/// words. Succeeds exactly when the extent matches the dispatch's output —
/// one word per group — and fails with `InvalidSize` otherwise.
pub fn output_words(groups: usize, bytes: &Vec<u8>) -> (r: Result<Vec<u32>, PipelineError>)
    ensures
        bytes@.len() == groups * SAMPLE_STRIDE <==> r is Ok,
        r is Ok ==> r->Ok_0@ == bytes_words(bytes@) && r->Ok_0@.len() == groups,
        r is Err ==> r->Err_0 == PipelineError::InvalidSize,
{
    let blen = bytes.len();
    let expected = match crate::layout::sample_extent(groups) {
        Ok(b) => b,
        Err(e) => {
            proof {
                assert(bytes@.len() == blen && blen <= usize::MAX);
            }
            return Err(e);
        },
    };
    if blen != expected {
        return Err(PipelineError::InvalidSize);
    }
    proof {
        assert(groups * 4 % 4 == 0) by (nonlinear_arith);
        assert(bytes@.len() % 4 == 0);
    }
    let words = match crate::layout::bytes_to_words(bytes) {
        Ok(w) => w,
        Err(e) => {
            return Err(e);
        },
    };
    proof {
        assert(groups * 4 / 4 == groups) by (nonlinear_arith);
    }
    Ok(words)
}

/// What a completed readback returns: exactly the dispatch's result.
/// Whatever device memory held before the submission, the recorded order —
/// write-config, dispatch, copy — leaves staging holding the kernel's
/// output in full, and unpacking the staged bytes yields those words
/// unchanged. Readback can never return data its producing dispatch and
/// copy did not write.
pub proof fn lemma_readback_returns_dispatch_result(
    s0: DeviceState,
    groups: usize,
    cfg: u32,
    kernel_out: Seq<u32>,
)
    requires
        kernel_out.len() == groups,
        groups * SAMPLE_STRIDE <= usize::MAX,
    ensures
        run_submission(s0, spec_submission(groups), cfg, kernel_out).staging == kernel_out,
        bytes_words(
            words_bytes(run_submission(s0, spec_submission(groups), cfg, kernel_out).staging),
        ) == kernel_out,
{
    crate::dispatch::lemma_submission_delivers(s0, groups, cfg, kernel_out);
    lemma_words_round_trip(kernel_out);
}

/// Running the same submission twice yields identical staged results: the
/// outcome does not depend on what any earlier run left in device memory,
/// so no hidden state carries between runs.
pub proof fn lemma_runs_identical(
    s0: DeviceState,
    s1: DeviceState,
    groups: usize,
    cfg: u32,
    kernel_out: Seq<u32>,
)
    requires
        kernel_out.len() == groups,
        groups * SAMPLE_STRIDE <= usize::MAX,
    ensures
        run_submission(s0, spec_submission(groups), cfg, kernel_out).staging == run_submission(
            s1,
            spec_submission(groups),
            cfg,
            kernel_out,
        ).staging,
{
    crate::dispatch::lemma_submission_delivers(s0, groups, cfg, kernel_out);
    crate::dispatch::lemma_submission_delivers(s1, groups, cfg, kernel_out);
}

} // verus!
