//! Buffer lifecycle: four buffers per run, each tagged with a role and a
//! usage capability set. A buffer's usage set must be a superset of every
//! operation performed on it, or the operation fails.

use vstd::prelude::*;

verus! {

use crate::errors::PipelineError;
use crate::layout::{SAMPLE_STRIDE, CONFIG_STRIDE};

/// The role a buffer plays in one compute run.
#[derive(Clone, Copy, Debug, PartialEq, Eq, Structural)]
pub enum BufferRole {
    /// Holds the packed input samples; written by the host, read by the device.
    Input,
    /// Holds the reduction results; written by the device, read by the
    /// device-side copy into staging.
    Output,
    /// Holds the configuration record; written by the host, read by the device.
    Uniform,
    /// The host-readable target of the device-side copy.
    Staging,
}

/// A buffer's usage capability set.
#[derive(Clone, Copy, Debug, PartialEq, Eq, Structural)]
pub struct UsageSet {
    pub device_read: bool,
    pub device_write: bool,
    pub host_read: bool,
    pub host_write: bool,
}

impl UsageSet {
    /// Every capability of `other` is also a capability of `self`.
    pub open spec fn includes(self, other: UsageSet) -> bool {
        &&& (other.device_read ==> self.device_read)
        &&& (other.device_write ==> self.device_write)
        &&& (other.host_read ==> self.host_read)
        &&& (other.host_write ==> self.host_write)
    }
}

/// The capabilities each role requires of its buffer.
pub open spec fn required_usage(role: BufferRole) -> UsageSet {
    match role {
        BufferRole::Input => UsageSet {
            device_read: true,
            device_write: false,
            host_read: false,
            host_write: true,
        },
        BufferRole::Output => UsageSet {
            device_read: true,
            device_write: true,
            host_read: false,
            host_write: false,
        },
        BufferRole::Uniform => UsageSet {
            device_read: true,
            device_write: false,
            host_read: false,
            host_write: true,
        },
        BufferRole::Staging => UsageSet {
            device_read: false,
            device_write: true,
            host_read: true,
            host_write: false,
        },
    }
}

/// Executable form of [`required_usage`].
pub fn role_usage(role: BufferRole) -> (r: UsageSet)
    ensures
        r == required_usage(role),
{
    match role {
        BufferRole::Input => UsageSet {
            device_read: true,
            device_write: false,
            host_read: false,
            host_write: true,
        },
        BufferRole::Output => UsageSet {
            device_read: true,
            device_write: true,
            host_read: false,
            host_write: false,
        },
        BufferRole::Uniform => UsageSet {
            device_read: true,
            device_write: false,
            host_read: false,
            host_write: true,
        },
        BufferRole::Staging => UsageSet {
            device_read: false,
            device_write: true,
            host_read: true,
            host_write: false,
        },
    }
}

/// The element stride a role's buffer size must be a multiple of.
pub open spec fn spec_role_stride(role: BufferRole) -> usize {
    match role {
        BufferRole::Input => SAMPLE_STRIDE,
        BufferRole::Output => SAMPLE_STRIDE,
        BufferRole::Uniform => CONFIG_STRIDE,
        BufferRole::Staging => SAMPLE_STRIDE,
    }
}

/// Executable form of [`spec_role_stride`].
pub fn role_stride(role: BufferRole) -> (r: usize)
    ensures
        r == spec_role_stride(role),
{
    match role {
        BufferRole::Input => SAMPLE_STRIDE,
        BufferRole::Output => SAMPLE_STRIDE,
        BufferRole::Uniform => CONFIG_STRIDE,
        BufferRole::Staging => SAMPLE_STRIDE,
    }
}

/// An opaque device-memory allocation, tagged with its role, extent and
/// capability set.
#[derive(Clone, Copy, Debug, PartialEq, Eq, Structural)]
pub struct Buffer {
    pub role: BufferRole,
    pub byte_size: usize,
    pub usage: UsageSet,
}

impl Buffer {
    /// A well-formed buffer: a positive extent, a whole number of elements,
    /// and every capability its role requires.
    pub open spec fn wf(self) -> bool {
        &&& self.byte_size > 0
        &&& self.byte_size % spec_role_stride(self.role) == 0
        &&& self.usage.includes(required_usage(self.role))
    }
}

/// Allocates a buffer for `role`. Succeeds exactly when `byte_size` is a
/// positive multiple of the role's element stride; fails with `InvalidSize`
/// otherwise. The allocated buffer carries exactly the capabilities its role
/// requires.
pub fn allocate(role: BufferRole, byte_size: usize) -> (r: Result<Buffer, PipelineError>)
    ensures
        (byte_size > 0 && byte_size % spec_role_stride(role) == 0) <==> r is Ok,
        r is Ok ==> r->Ok_0 == (Buffer { role, byte_size, usage: required_usage(role) }),
        r is Ok ==> r->Ok_0.wf(),
        r is Err ==> r->Err_0 == PipelineError::InvalidSize,
{
    let stride = role_stride(role);
    if byte_size == 0 || byte_size % stride != 0 {
        return Err(PipelineError::InvalidSize);
    }
    let usage = role_usage(role);
    Ok(Buffer { role, byte_size, usage })
}

/// Checks a host write of `len` bytes at `offset` against a buffer.
/// Succeeds exactly when the buffer is host-writable and the range lies
/// within its extent. A write to a buffer the host may not write fails with
/// `InvalidSize`; a range outside the extent fails with `OutOfBounds`.
pub fn check_write(buf: &Buffer, offset: usize, len: usize) -> (r: Result<(), PipelineError>)
    ensures
        r is Ok <==> (buf.usage.host_write && offset + len <= buf.byte_size),
        r is Err && !buf.usage.host_write ==> r->Err_0 == PipelineError::InvalidSize,
        r is Err && buf.usage.host_write ==> r->Err_0 == PipelineError::OutOfBounds,
{
    if !buf.usage.host_write {
        return Err(PipelineError::InvalidSize);
    }
    if offset > buf.byte_size || len > buf.byte_size - offset {
        return Err(PipelineError::OutOfBounds);
    }
    Ok(())
}

/// Checks a request to map a buffer for host reads. Succeeds exactly when
/// the buffer plays the staging role and is host-readable; fails with
/// `InvalidSize` otherwise.
pub fn check_map_for_read(buf: &Buffer) -> (r: Result<(), PipelineError>)
    ensures
        r is Ok <==> (buf.role == BufferRole::Staging && buf.usage.host_read),
        r is Err ==> r->Err_0 == PipelineError::InvalidSize,
{
    if matches!(buf.role, BufferRole::Staging) && buf.usage.host_read {
        Ok(())
    } else {
        Err(PipelineError::InvalidSize)
    }
}

} // verus!
