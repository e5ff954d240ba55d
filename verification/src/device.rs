//! Device session decisions: which adapter, if any, can run the pipeline.
//! Enumeration itself is the platform's work; the choice among the
//! enumerated adapters is decided and proved here.

use vstd::prelude::*;

verus! {

use crate::errors::PipelineError;

/// The capabilities reported for one enumerated adapter.
#[derive(Clone, Copy, Debug, PartialEq, Eq, Structural)]
pub struct AdapterCapabilities {
    pub storage_buffers: bool,
    pub compute_dispatch: bool,
    pub host_mapping: bool,
}

/// The minimal capability set the pipeline needs: storage buffers, compute
/// dispatch, and host-buffer mapping.
pub open spec fn spec_compatible(c: AdapterCapabilities) -> bool {
    c.storage_buffers && c.compute_dispatch && c.host_mapping
}

/// Decides compatibility of one adapter.
pub fn compatible(c: &AdapterCapabilities) -> (r: bool)
    ensures
        r == spec_compatible(*c),
{
    c.storage_buffers && c.compute_dispatch && c.host_mapping
}

/// Selects the first adapter that satisfies the minimal capability set.
/// Returns its position; fails with `NoCompatibleDevice` exactly when no
/// enumerated adapter is compatible.
pub fn select_adapter(adapters: &Vec<AdapterCapabilities>) -> (r: Result<usize, PipelineError>)
    ensures
        r is Ok <==> exists|i: int|
            0 <= i < adapters@.len() && spec_compatible(adapters@[i]),
        r is Ok ==> {
            &&& r->Ok_0 < adapters@.len()
            &&& spec_compatible(adapters@[r->Ok_0 as int])
            &&& forall|j: int| 0 <= j < r->Ok_0 ==> !spec_compatible(adapters@[j])
        },
        r is Err ==> r->Err_0 == PipelineError::NoCompatibleDevice,
{
    let mut i: usize = 0;
    while i < adapters.len()
        invariant
            i <= adapters@.len(),
            forall|j: int| 0 <= j < i ==> !spec_compatible(adapters@[j]),
        decreases adapters@.len() - i,
    {
        if compatible(&adapters[i]) {
            return Ok(i);
        }
        i += 1;
    }
    Err(PipelineError::NoCompatibleDevice)
}

} // verus!
