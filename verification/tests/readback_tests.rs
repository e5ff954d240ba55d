use beamform::errors::PipelineError;
use beamform::layout::words_to_bytes;
use beamform::readback::{MapState, PollOutcome, Readback};

#[test]
fn the_happy_path_walks_the_whole_cycle() {
    let mut rb = Readback::new();
    assert!(matches!(rb.state, MapState::Unmapped));
    assert!(!rb.work_complete);

    rb.request_map();
    assert!(matches!(rb.state, MapState::MapRequested));

    assert_eq!(rb.on_poll(PollOutcome::Pending), Ok(false));
    assert!(matches!(rb.state, MapState::MapRequested));
    assert!(!rb.work_complete);

    assert_eq!(rb.on_poll(PollOutcome::WorkComplete), Ok(true));
    assert!(matches!(rb.state, MapState::MapReady));
    assert!(rb.work_complete);

    let staged: Vec<u32> = vec![7, 8, 9];
    let view = rb.map_view(words_to_bytes(&staged));
    assert!(matches!(rb.state, MapState::Mapped));
    assert_eq!(view.read_words(), Ok(staged));

    rb.release(view);
    assert!(matches!(rb.state, MapState::Unmapped));
}

#[test]
fn readiness_is_never_reported_before_completion() {
    let mut rb = Readback::new();
    rb.request_map();
    for _ in 0..5 {
        assert_eq!(rb.on_poll(PollOutcome::Pending), Ok(false));
        assert!(matches!(rb.state, MapState::MapRequested));
        assert!(!rb.work_complete);
    }
    assert_eq!(rb.on_poll(PollOutcome::WorkComplete), Ok(true));
    assert!(rb.work_complete);
}

#[test]
fn a_lost_device_resolves_the_pending_request() {
    let mut rb = Readback::new();
    rb.request_map();
    assert_eq!(rb.on_poll(PollOutcome::Lost), Err(PipelineError::DeviceLost));
    assert!(matches!(rb.state, MapState::Unmapped));
    assert!(!rb.work_complete);
}

#[test]
fn a_ragged_view_does_not_read_as_words() {
    let mut rb = Readback::new();
    rb.request_map();
    assert_eq!(rb.on_poll(PollOutcome::WorkComplete), Ok(true));
    let view = rb.map_view(vec![1, 2, 3]);
    assert_eq!(view.read_words(), Err(PipelineError::InvalidSize));
}
