//! The binding-slot contract between the host and the kernel: three slots in
//! one set, fixed for the lifetime of a dispatch, which must exactly match
//! the layout the kernel declares.

use vstd::prelude::*;

verus! {

use crate::buffers::{Buffer, BufferRole};
use crate::errors::PipelineError;

/// How the kernel accesses a bound buffer.
#[derive(Clone, Copy, Debug, PartialEq, Eq, Structural)]
pub enum Access {
    ReadOnly,
    ReadWrite,
}

/// One numbered slot of the binding contract.
#[derive(Clone, Copy, Debug, PartialEq, Eq, Structural)]
pub struct BindingSlot {
    pub index: u32,
    pub role: BufferRole,
    pub access: Access,
}

/// The slot layout the kernel declares: input storage read-only at slot 0,
/// output storage read-write at slot 1, uniform config read-only at slot 2.
pub open spec fn spec_kernel_layout() -> Seq<BindingSlot> {
    seq![
        BindingSlot { index: 0, role: BufferRole::Input, access: Access::ReadOnly },
        BindingSlot { index: 1, role: BufferRole::Output, access: Access::ReadWrite },
        BindingSlot { index: 2, role: BufferRole::Uniform, access: Access::ReadOnly },
    ]
}

/// Executable form of [`spec_kernel_layout`].
pub fn kernel_layout() -> (r: Vec<BindingSlot>)
    ensures
        r@ == spec_kernel_layout(),
{
    let mut v: Vec<BindingSlot> = Vec::new();
    v.push(BindingSlot { index: 0, role: BufferRole::Input, access: Access::ReadOnly });
    v.push(BindingSlot { index: 1, role: BufferRole::Output, access: Access::ReadWrite });
    v.push(BindingSlot { index: 2, role: BufferRole::Uniform, access: Access::ReadOnly });
    proof {
        assert(v@ =~= spec_kernel_layout());
    }
    v
}

/// A binding layout proven to match the kernel's declared slots.
pub struct BindingLayout {
    pub slots: Vec<BindingSlot>,
}

impl BindingLayout {
    pub open spec fn wf(self) -> bool {
        self.slots@ == spec_kernel_layout()
    }
}

/// Validates a host-proposed slot list against the kernel's declared layout.
/// Succeeds exactly when the two agree slot for slot; fails with
/// `LayoutMismatch` otherwise.
pub fn build_binding_layout(slots: Vec<BindingSlot>) -> (r: Result<BindingLayout, PipelineError>)
    ensures
        slots@ == spec_kernel_layout() <==> r is Ok,
        r is Ok ==> r->Ok_0.slots@ == slots@ && r->Ok_0.wf(),
        r is Err ==> r->Err_0 == PipelineError::LayoutMismatch,
{
    let expected = kernel_layout();
    if slots.len() != expected.len() {
        proof {
            assert(slots@.len() != spec_kernel_layout().len());
        }
        return Err(PipelineError::LayoutMismatch);
    }
    let mut i: usize = 0;
    while i < slots.len()
        invariant
            i <= slots@.len(),
            slots@.len() == expected@.len(),
            expected@ == spec_kernel_layout(),
            forall|j: int| 0 <= j < i ==> slots@[j] == expected@[j],
        decreases slots@.len() - i,
    {
        let a = slots[i];
        let b = expected[i];
        if a.index != b.index
            || !matches_role(a.role, b.role)
            || !matches_access(a.access, b.access)
        {
            return Err(PipelineError::LayoutMismatch);
        }
        i += 1;
    }
    proof {
        assert(slots@ =~= spec_kernel_layout());
    }
    Ok(BindingLayout { slots })
}

/// Role equality, decided by variant.
fn matches_role(a: BufferRole, b: BufferRole) -> (r: bool)
    ensures
        r <==> a == b,
{
    match (a, b) {
        (BufferRole::Input, BufferRole::Input) => true,
        (BufferRole::Output, BufferRole::Output) => true,
        (BufferRole::Uniform, BufferRole::Uniform) => true,
        (BufferRole::Staging, BufferRole::Staging) => true,
        _ => false,
    }
}

/// Access equality, decided by variant.
fn matches_access(a: Access, b: Access) -> (r: bool)
    ensures
        r <==> a == b,
{
    match (a, b) {
        (Access::ReadOnly, Access::ReadOnly) => true,
        (Access::ReadWrite, Access::ReadWrite) => true,
        _ => false,
    }
}

/// The fixed mapping from binding slot to buffer for one dispatch.
pub struct BindingSet {
    pub input: Buffer,
    pub output: Buffer,
    pub config: Buffer,
}

impl BindingSet {
    /// Each bound buffer is well-formed and plays the role its slot declares.
    pub open spec fn wf(self) -> bool {
        &&& self.input.wf() && self.input.role == BufferRole::Input
        &&& self.output.wf() && self.output.role == BufferRole::Output
        &&& self.config.wf() && self.config.role == BufferRole::Uniform
    }
}

/// Binds three buffers to the kernel's slots. Succeeds exactly when each
/// buffer is well-formed and plays the role its slot declares; fails with
/// `LayoutMismatch` otherwise.
pub fn bind_buffers(layout: &BindingLayout, input: Buffer, output: Buffer, config: Buffer) -> (r:
    Result<BindingSet, PipelineError>)
    requires
        layout.wf(),
    ensures
        r is Ok <==> (BindingSet { input, output, config }).wf(),
        r is Ok ==> r->Ok_0 == (BindingSet { input, output, config }),
        r is Err ==> r->Err_0 == PipelineError::LayoutMismatch,
{
    if !matches_role(input.role, BufferRole::Input) || !buffer_wf(&input) {
        return Err(PipelineError::LayoutMismatch);
    }
    if !matches_role(output.role, BufferRole::Output) || !buffer_wf(&output) {
        return Err(PipelineError::LayoutMismatch);
    }
    if !matches_role(config.role, BufferRole::Uniform) || !buffer_wf(&config) {
        return Err(PipelineError::LayoutMismatch);
    }
    Ok(BindingSet { input, output, config })
}

/// Decides well-formedness of a buffer.
fn buffer_wf(buf: &Buffer) -> (r: bool)
    ensures
        r <==> buf.wf(),
{
    let stride = crate::buffers::role_stride(buf.role);
    let req = crate::buffers::role_usage(buf.role);
    buf.byte_size > 0 && buf.byte_size % stride == 0 && (buf.usage.device_read || !req.device_read)
        && (buf.usage.device_write || !req.device_write) && (buf.usage.host_read || !req.host_read)
        && (buf.usage.host_write || !req.host_write)
}

} // verus!
