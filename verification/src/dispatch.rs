//! The dispatch orchestrator's command sequence and its submission
//! semantics: one ordered batch — write the configuration, dispatch the
//! groups, copy the output into staging — in which each step observes the
//! previous step's writes in full.

use vstd::prelude::*;

verus! {

use crate::errors::PipelineError;
use crate::layout::SAMPLE_STRIDE;

/// One recorded device command.
#[derive(Clone, Copy, Debug, PartialEq, Eq, Structural)]
pub enum Command {
    /// Write the configuration record into the uniform buffer.
    WriteConfig,
    /// Run the kernel: `groups` groups along one axis.
    Dispatch { groups: usize },
    /// Copy `bytes` bytes from the output buffer into the staging buffer.
    CopyToStaging { bytes: usize },
}

/// The one submission this pipeline records for a dispatch of `groups`
/// groups: write-config, dispatch, then a copy covering exactly the
/// output's byte extent.
pub open spec fn spec_submission(groups: usize) -> Seq<Command> {
    seq![
        Command::WriteConfig,
        Command::Dispatch { groups },
        Command::CopyToStaging { bytes: (groups * SAMPLE_STRIDE) as usize },
    ]
}

/// Records the submission for `groups` groups, in strict order. Fails with
/// `InvalidSize` exactly when the output's byte extent would not fit the
/// machine's address range.
pub fn record_submission(groups: usize) -> (r: Result<Vec<Command>, PipelineError>)
    ensures
        groups * SAMPLE_STRIDE <= usize::MAX <==> r is Ok,
        r is Ok ==> r->Ok_0@ == spec_submission(groups),
        r is Err ==> r->Err_0 == PipelineError::InvalidSize,
{
    let bytes = match crate::layout::sample_extent(groups) {
        Ok(b) => b,
        Err(e) => {
            return Err(e);
        },
    };
    let mut cmds: Vec<Command> = Vec::new();
    cmds.push(Command::WriteConfig);
    cmds.push(Command::Dispatch { groups });
    cmds.push(Command::CopyToStaging { bytes });
    proof {
        assert(cmds@ =~= spec_submission(groups));
    }
    Ok(cmds)
}

/// The device memory a submission touches: the uniform configuration word,
/// the output buffer's words, and the staging buffer's words.
pub struct DeviceState {
    pub config_bits: u32,
    pub output: Seq<u32>,
    pub staging: Seq<u32>,
}

/// The effect of one command on device memory. The dispatch's writes are
/// the kernel's result, one word per group, handed in as `kernel_out`; the
/// copy reads whatever the output buffer then holds, never more than its
/// extent.
pub open spec fn apply_command(
    s: DeviceState,
    c: Command,
    cfg: u32,
    kernel_out: Seq<u32>,
) -> DeviceState {
    match c {
        Command::WriteConfig => DeviceState { config_bits: cfg, ..s },
        Command::Dispatch { groups } => DeviceState { output: kernel_out, ..s },
        Command::CopyToStaging { bytes } => DeviceState {
            staging: if (bytes as int) / (SAMPLE_STRIDE as int) <= s.output.len() {
                s.output.subrange(0, (bytes as int) / (SAMPLE_STRIDE as int))
            } else {
                s.output
            },
            ..s
        },
    }
}

/// Runs a recorded command sequence in submission order: within one
/// submission, each step observes every earlier step's writes in full, with
/// no partial or interleaved visibility.
pub open spec fn run_submission(
    s: DeviceState,
    cmds: Seq<Command>,
    cfg: u32,
    kernel_out: Seq<u32>,
) -> DeviceState
    decreases cmds.len(),
{
    if cmds.len() == 0 {
        s
    } else {
        run_submission(apply_command(s, cmds[0], cfg, kernel_out), cmds.drop_first(), cfg,
            kernel_out)
    }
}

/// The submission guarantee: whatever device memory held before — no state
/// carries over from any earlier run — the recorded sequence leaves the
/// configuration word written, the output equal to the kernel's result, and
/// the staging buffer an exact copy of that result: the copy observes the
/// dispatch's writes in full.
pub proof fn lemma_submission_delivers(
    s0: DeviceState,
    groups: usize,
    cfg: u32,
    kernel_out: Seq<u32>,
)
    requires
        kernel_out.len() == groups,
        groups * SAMPLE_STRIDE <= usize::MAX,
    ensures
        run_submission(s0, spec_submission(groups), cfg, kernel_out) == (DeviceState {
            config_bits: cfg,
            output: kernel_out,
            staging: kernel_out,
        }),
{
    let cmds = spec_submission(groups);
    reveal_with_fuel(run_submission, 4);
    let s1 = apply_command(s0, cmds[0], cfg, kernel_out);
    let s2 = apply_command(s1, cmds[1], cfg, kernel_out);
    let s3 = apply_command(s2, cmds[2], cfg, kernel_out);
    assert(cmds.drop_first()[0] == cmds[1]);
    assert(cmds.drop_first().drop_first()[0] == cmds[2]);
    assert(cmds.drop_first().drop_first().drop_first().len() == 0);
    assert(s2.output == kernel_out);
    assert((groups * SAMPLE_STRIDE) as int / (SAMPLE_STRIDE as int) == groups as int);
    assert(s3.staging =~= kernel_out);
    assert(run_submission(s0, cmds, cfg, kernel_out) == s3);
}

} // verus!
