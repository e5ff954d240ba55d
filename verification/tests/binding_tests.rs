use beamform::binding::{
    bind_buffers, build_binding_layout, kernel_layout, Access, BindingSlot,
};
use beamform::buffers::{allocate, BufferRole};
use beamform::errors::PipelineError;

#[test]
fn the_kernel_declares_three_slots() {
    let slots = kernel_layout();
    assert_eq!(slots.len(), 3);
    assert_eq!(slots[0].index, 0);
    assert!(matches!(slots[0].role, BufferRole::Input));
    assert!(matches!(slots[0].access, Access::ReadOnly));
    assert_eq!(slots[1].index, 1);
    assert!(matches!(slots[1].role, BufferRole::Output));
    assert!(matches!(slots[1].access, Access::ReadWrite));
    assert_eq!(slots[2].index, 2);
    assert!(matches!(slots[2].role, BufferRole::Uniform));
    assert!(matches!(slots[2].access, Access::ReadOnly));
}

#[test]
fn the_declared_layout_builds() {
    let layout = build_binding_layout(kernel_layout()).unwrap();
    assert_eq!(layout.slots, kernel_layout());
}

#[test]
fn a_missing_slot_is_a_layout_mismatch() {
    let mut slots = kernel_layout();
    slots.pop();
    assert!(matches!(
        build_binding_layout(slots),
        Err(PipelineError::LayoutMismatch)
    ));
}

#[test]
fn swapped_slots_are_a_layout_mismatch() {
    let mut slots = kernel_layout();
    slots.swap(0, 1);
    assert!(matches!(
        build_binding_layout(slots),
        Err(PipelineError::LayoutMismatch)
    ));
}

#[test]
fn wrong_access_is_a_layout_mismatch() {
    let mut slots = kernel_layout();
    slots[1] = BindingSlot { index: 1, role: BufferRole::Output, access: Access::ReadOnly };
    assert!(matches!(
        build_binding_layout(slots),
        Err(PipelineError::LayoutMismatch)
    ));
}

#[test]
fn matching_buffers_bind() {
    let layout = build_binding_layout(kernel_layout()).unwrap();
    let input = allocate(BufferRole::Input, 1024).unwrap();
    let output = allocate(BufferRole::Output, 64).unwrap();
    let config = allocate(BufferRole::Uniform, 4).unwrap();
    let set = bind_buffers(&layout, input, output, config).unwrap();
    assert_eq!(set.input, input);
    assert_eq!(set.output, output);
    assert_eq!(set.config, config);
}

#[test]
fn a_buffer_in_the_wrong_slot_is_a_layout_mismatch() {
    let layout = build_binding_layout(kernel_layout()).unwrap();
    let input = allocate(BufferRole::Input, 1024).unwrap();
    let output = allocate(BufferRole::Output, 64).unwrap();
    let config = allocate(BufferRole::Uniform, 4).unwrap();
    assert!(matches!(
        bind_buffers(&layout, output, input, config),
        Err(PipelineError::LayoutMismatch)
    ));
    assert!(matches!(
        bind_buffers(&layout, input, config, output),
        Err(PipelineError::LayoutMismatch)
    ));
}
