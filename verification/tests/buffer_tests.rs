use beamform::buffers::{allocate, check_map_for_read, check_write, role_stride, BufferRole};
use beamform::errors::PipelineError;

#[test]
fn allocation_tags_each_role_with_its_capabilities() {
    let input = allocate(BufferRole::Input, 1024).unwrap();
    assert!(input.usage.device_read && input.usage.host_write);
    assert!(!input.usage.device_write && !input.usage.host_read);

    let output = allocate(BufferRole::Output, 64).unwrap();
    assert!(output.usage.device_read && output.usage.device_write);
    assert!(!output.usage.host_read && !output.usage.host_write);

    let uniform = allocate(BufferRole::Uniform, 4).unwrap();
    assert!(uniform.usage.device_read && uniform.usage.host_write);

    let staging = allocate(BufferRole::Staging, 64).unwrap();
    assert!(staging.usage.device_write && staging.usage.host_read);
    assert!(!staging.usage.device_read && !staging.usage.host_write);
}

#[test]
fn zero_extent_is_invalid_size() {
    assert_eq!(
        allocate(BufferRole::Input, 0),
        Err(PipelineError::InvalidSize)
    );
}

#[test]
fn ragged_extent_is_invalid_size() {
    assert_eq!(
        allocate(BufferRole::Output, 10),
        Err(PipelineError::InvalidSize)
    );
    assert_eq!(
        allocate(BufferRole::Uniform, 3),
        Err(PipelineError::InvalidSize)
    );
}

#[test]
fn every_role_has_a_four_byte_stride() {
    assert_eq!(role_stride(BufferRole::Input), 4);
    assert_eq!(role_stride(BufferRole::Output), 4);
    assert_eq!(role_stride(BufferRole::Uniform), 4);
    assert_eq!(role_stride(BufferRole::Staging), 4);
}

#[test]
fn writes_stay_inside_the_extent() {
    let input = allocate(BufferRole::Input, 16).unwrap();
    assert_eq!(check_write(&input, 0, 16), Ok(()));
    assert_eq!(check_write(&input, 12, 4), Ok(()));
    assert_eq!(check_write(&input, 12, 8), Err(PipelineError::OutOfBounds));
    assert_eq!(check_write(&input, 17, 0), Err(PipelineError::OutOfBounds));
}

#[test]
fn host_writes_need_the_host_write_capability() {
    let output = allocate(BufferRole::Output, 16).unwrap();
    assert_eq!(check_write(&output, 0, 4), Err(PipelineError::InvalidSize));
    let staging = allocate(BufferRole::Staging, 16).unwrap();
    assert_eq!(check_write(&staging, 0, 4), Err(PipelineError::InvalidSize));
}

#[test]
fn only_staging_maps_for_read() {
    let staging = allocate(BufferRole::Staging, 16).unwrap();
    assert_eq!(check_map_for_read(&staging), Ok(()));
    let input = allocate(BufferRole::Input, 16).unwrap();
    assert_eq!(check_map_for_read(&input), Err(PipelineError::InvalidSize));
    let output = allocate(BufferRole::Output, 16).unwrap();
    assert_eq!(check_map_for_read(&output), Err(PipelineError::InvalidSize));
}
