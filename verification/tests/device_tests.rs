use beamform::device::{compatible, select_adapter, AdapterCapabilities};
use beamform::errors::PipelineError;

fn full() -> AdapterCapabilities {
    AdapterCapabilities { storage_buffers: true, compute_dispatch: true, host_mapping: true }
}

fn display_only() -> AdapterCapabilities {
    AdapterCapabilities { storage_buffers: false, compute_dispatch: false, host_mapping: false }
}

#[test]
fn compatibility_needs_all_three_capabilities() {
    assert!(compatible(&full()));
    assert!(!compatible(&display_only()));
    assert!(!compatible(&AdapterCapabilities {
        storage_buffers: true,
        compute_dispatch: true,
        host_mapping: false
    }));
}

#[test]
fn the_first_compatible_adapter_wins() {
    let adapters = vec![display_only(), full(), full()];
    assert_eq!(select_adapter(&adapters), Ok(1));
}

#[test]
fn a_sole_adapter_is_selected() {
    let adapters = vec![full()];
    assert_eq!(select_adapter(&adapters), Ok(0));
}

#[test]
fn no_adapter_at_all_is_no_compatible_device() {
    let adapters: Vec<AdapterCapabilities> = Vec::new();
    assert_eq!(
        select_adapter(&adapters),
        Err(PipelineError::NoCompatibleDevice)
    );
}

#[test]
fn no_capable_adapter_is_no_compatible_device() {
    let adapters = vec![display_only(), display_only()];
    assert_eq!(
        select_adapter(&adapters),
        Err(PipelineError::NoCompatibleDevice)
    );
}
