//! The asynchronous readback protocol: `Unmapped -> MapRequested ->
//! MapReady -> Mapped -> Unmapped`.
//!
//! The host asks for the staging buffer to become host-visible, drives the
//! device's progress until it observes that all previously submitted work
//! has completed, and only then obtains a read-only view of the bytes. The
//! view is a value the protocol hands out in the mapped state and takes
//! back on release, so no view outlives the mapped state. A lost device
//! resolves the pending request to an observable failure rather than a hang.

use vstd::prelude::*;

verus! {

use crate::errors::PipelineError;

/// The protocol's position between submission and host read.
#[derive(Clone, Copy, Debug, PartialEq, Eq, Structural)]
pub enum MapState {
    Unmapped,
    MapRequested,
    MapReady,
    Mapped,
}

/// What the host observed when it drove the device's progress once.
#[derive(Clone, Copy, Debug, PartialEq, Eq, Structural)]
pub enum PollOutcome {
    /// Submitted work is still running; the request stays pending.
    Pending,
    /// All work submitted before the map request has completed.
    WorkComplete,
    /// The device became unavailable mid-operation.
    Lost,
}

/// One host-side step of the protocol.
#[derive(Clone, Copy, Debug, PartialEq, Eq, Structural)]
pub enum ReadbackEvent {
    /// Ask the device to make the staging memory host-visible.
    RequestMap,
    /// Drive device progress and record what was observed.
    Observe { outcome: PollOutcome },
    /// Obtain the read-only view of the staging bytes.
    TakeView,
    /// Give the view back, invalidating it.
    ReleaseView,
}

/// The readback protocol's state: where it stands, and whether the host has
/// observed completion of the producing submission.
#[derive(Clone, Copy, Debug, PartialEq, Eq, Structural)]
pub struct Readback {
    pub state: MapState,
    pub work_complete: bool,
}

/// The protocol's invariant: the staging memory is never host-visible —
/// neither ready nor mapped — before the host has observed that the
/// producing dispatch and copy have completed.
pub open spec fn protocol_wf(s: Readback) -> bool {
    (s.state == MapState::MapReady || s.state == MapState::Mapped) ==> s.work_complete
}

/// The protocol before any request.
pub open spec fn initial_state() -> Readback {
    Readback { state: MapState::Unmapped, work_complete: false }
}

/// The protocol's transition relation; an event out of turn changes nothing.
pub open spec fn spec_step(s: Readback, e: ReadbackEvent) -> Readback {
    match e {
        ReadbackEvent::RequestMap => if s.state == MapState::Unmapped {
            Readback { state: MapState::MapRequested, ..s }
        } else {
            s
        },
        ReadbackEvent::Observe { outcome } => if s.state == MapState::MapRequested {
            match outcome {
                PollOutcome::Pending => s,
                PollOutcome::WorkComplete => Readback {
                    state: MapState::MapReady,
                    work_complete: true,
                },
                PollOutcome::Lost => Readback {
                    state: MapState::Unmapped,
                    work_complete: false,
                },
            }
        } else {
            s
        },
        ReadbackEvent::TakeView => if s.state == MapState::MapReady {
            Readback { state: MapState::Mapped, ..s }
        } else {
            s
        },
        ReadbackEvent::ReleaseView => if s.state == MapState::Mapped {
            Readback { state: MapState::Unmapped, ..s }
        } else {
            s
        },
    }
}

/// The state after a sequence of events, first event first.
pub open spec fn run_events(s: Readback, events: Seq<ReadbackEvent>) -> Readback
    decreases events.len(),
{
    if events.len() == 0 {
        s
    } else {
        run_events(spec_step(s, events[0]), events.drop_first())
    }
}

/// Every single step preserves the protocol's invariant.
pub proof fn lemma_step_preserves_wf(s: Readback, e: ReadbackEvent)
    requires
        protocol_wf(s),
    ensures
        protocol_wf(spec_step(s, e)),
{
}

/// Readback never becomes readable early: after any sequence of events from
/// the initial state, the staging memory is host-visible only if the host
/// observed the producing submission complete. No schedule of requests,
/// polls, maps and releases reaches a mapped state without that
/// observation, so a reader can never see a partially-written output.
pub proof fn lemma_no_premature_read(events: Seq<ReadbackEvent>)
    ensures
        protocol_wf(run_events(initial_state(), events)),
        run_events(initial_state(), events).state == MapState::Mapped ==> run_events(
            initial_state(),
            events,
        ).work_complete,
{
    lemma_run_preserves_wf(initial_state(), events);
}

/// The invariant is inductive over any event sequence.
pub proof fn lemma_run_preserves_wf(s: Readback, events: Seq<ReadbackEvent>)
    requires
        protocol_wf(s),
    ensures
        protocol_wf(run_events(s, events)),
    decreases events.len(),
{
    if events.len() > 0 {
        lemma_step_preserves_wf(s, events[0]);
        lemma_run_preserves_wf(spec_step(s, events[0]), events.drop_first());
    }
}

/// The read-only view of the staging bytes while the buffer is mapped. The
/// protocol hands it out on mapping and consumes it on release; ownership
/// keeps any view from outliving the mapped state.
pub struct MappedView {
    pub bytes: Vec<u8>,
}

impl MappedView {
    /// Reinterprets the viewed bytes as typed results. Fails with
    /// `InvalidSize` exactly when the extent is not a whole number of words.
    pub fn read_words(&self) -> (r: Result<Vec<u32>, PipelineError>)
        ensures
            self.bytes@.len() % 4 == 0 <==> r is Ok,
            r is Ok ==> r->Ok_0@ == crate::layout::bytes_words(self.bytes@),
            r is Err ==> r->Err_0 == PipelineError::InvalidSize,
    {
        crate::layout::bytes_to_words(&self.bytes)
    }
}

impl Readback {
    /// A fresh protocol, before any request.
    pub fn new() -> (r: Readback)
        ensures
            r == initial_state(),
            protocol_wf(r),
    {
        Readback { state: MapState::Unmapped, work_complete: false }
    }

    /// Asks the device to make the staging buffer host-visible for reading.
    /// Inherently asynchronous: readiness arrives only through later polls.
    pub fn request_map(&mut self)
        requires
            old(self).state == MapState::Unmapped,
            protocol_wf(*old(self)),
        ensures
            *final(self) == spec_step(*old(self), ReadbackEvent::RequestMap),
            final(self).state == MapState::MapRequested,
            protocol_wf(*final(self)),
    {
        self.state = MapState::MapRequested;
    }

    /// Records one observation of device progress. Readiness is reported
    /// only on observed completion; a lost device resolves the request to
    /// `DeviceLost` rather than leaving it pending.
    pub fn on_poll(&mut self, outcome: PollOutcome) -> (r: Result<bool, PipelineError>)
        requires
            old(self).state == MapState::MapRequested,
            protocol_wf(*old(self)),
        ensures
            *final(self) == spec_step(*old(self), ReadbackEvent::Observe { outcome }),
            protocol_wf(*final(self)),
            outcome == PollOutcome::WorkComplete ==> r == Result::<bool, PipelineError>::Ok(true)
                && final(self).state == MapState::MapReady && final(self).work_complete,
            outcome == PollOutcome::Pending ==> r == Result::<bool, PipelineError>::Ok(false)
                && *final(self) == *old(self),
            outcome == PollOutcome::Lost ==> r == Result::<bool, PipelineError>::Err(
                PipelineError::DeviceLost,
            ) && final(self).state == MapState::Unmapped,
    {
        match outcome {
            PollOutcome::Pending => Ok(false),
            PollOutcome::WorkComplete => {
                self.state = MapState::MapReady;
                self.work_complete = true;
                Ok(true)
            },
            PollOutcome::Lost => {
                self.state = MapState::Unmapped;
                self.work_complete = false;
                Err(PipelineError::DeviceLost)
            },
        }
    }

    /// Obtains the read-only view over the staging bytes. Demands observed
    /// readiness — the invariant then guarantees the producing submission
    /// has completed — and hands the bytes to the caller as a view.
    pub fn map_view(&mut self, staging_bytes: Vec<u8>) -> (r: MappedView)
        requires
            old(self).state == MapState::MapReady,
            protocol_wf(*old(self)),
        ensures
            *final(self) == spec_step(*old(self), ReadbackEvent::TakeView),
            final(self).state == MapState::Mapped,
            protocol_wf(*final(self)),
            r.bytes@ == staging_bytes@,
    {
        self.state = MapState::Mapped;
        MappedView { bytes: staging_bytes }
    }

    /// Releases the view, invalidating it: the view is consumed, and the
    /// protocol returns to its unmapped state.
    pub fn release(&mut self, view: MappedView)
        requires
            old(self).state == MapState::Mapped,
            protocol_wf(*old(self)),
        ensures
            *final(self) == spec_step(*old(self), ReadbackEvent::ReleaseView),
            final(self).state == MapState::Unmapped,
            protocol_wf(*final(self)),
    {
        self.state = MapState::Unmapped;
    }
}

} // verus!
