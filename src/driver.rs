//! Decisions of the synchronous tracking loop.
//!
//! The caller waits for frames, makes the native track call and feeds the
//! visualization sink; each time something happens it hands the loop an
//! event and performs the action it gets back. The loop owns the session, so
//! whichever way it ends, the session's handle comes back for release once.

use vstd::prelude::*;
use crate::pose::PoseEstimate;
use crate::session::{destroy_step, SessionState, Tracker, TrackerView};
use crate::status::Status;

verus! {

/// Something that happened since the last action.
#[derive(Debug, Clone, Copy)]
pub enum LoopEvent {
    /// The wait for frames timed out with nothing delivered.
    Timeout,
    /// A synchronized set of this many frames was delivered.
    Frames(usize),
    /// The track call for the last frame set returned.
    TrackResult(Result<PoseEstimate, Status>),
    /// The loop was asked to stop.
    StopRequested,
}

/// What the caller does next.
#[derive(Debug)]
pub enum LoopAction<H> {
    /// Wait for the next frame set.
    Wait,
    /// Marshal the frames in rig order and track them.
    Track,
    /// Drop this frame set: it does not match the rig. Then wait again.
    Skip,
    /// Forward the estimate and the first camera's image to the sink, then wait again.
    Emit(PoseEstimate),
    /// Report that tracking was lost, then wait again.
    ReportLost,
    /// Leave the loop, after releasing `release` with the engine if present.
    /// `status` is the fatal status that ended it, if one did.
    Stop { status: Option<Status>, release: Option<H> },
}

/// What one event does to the session, and the action it calls for.
pub open spec fn loop_step<H>(v: TrackerView<H>, e: LoopEvent) -> (TrackerView<H>, LoopAction<H>) {
    if v.state == SessionState::Destroyed {
        (v, LoopAction::Stop { status: None, release: None })
    } else {
        match e {
            LoopEvent::Timeout => (v, LoopAction::Wait),
            LoopEvent::Frames(n) => if n == v.rig.len() {
                (v, LoopAction::Track)
            } else {
                (v, LoopAction::Skip)
            },
            LoopEvent::TrackResult(Ok(est)) => (v, LoopAction::Emit(est)),
            LoopEvent::TrackResult(Err(s)) => if s == Status::TrackingLost {
                (v, LoopAction::ReportLost)
            } else {
                (
                    destroy_step(v).0,
                    LoopAction::Stop { status: Some(s), release: destroy_step(v).1 },
                )
            },
            LoopEvent::StopRequested => (
                destroy_step(v).0,
                LoopAction::Stop { status: None, release: destroy_step(v).1 },
            ),
        }
    }
}

/// The session after a sequence of events, and the actions taken on the way.
pub open spec fn loop_run<H>(v: TrackerView<H>, events: Seq<LoopEvent>) -> (TrackerView<H>, Seq<LoopAction<H>>)
    decreases events.len(),
{
    if events.len() == 0 {
        (v, Seq::empty())
    } else {
        let (next, a) = loop_step(v, events[0]);
        let (last, rest) = loop_run(next, events.subrange(1, events.len() as int));
        (last, seq![a] + rest)
    }
}

/// Whether an action hands a handle back for release.
pub open spec fn releases_handle<H>(a: LoopAction<H>) -> bool {
    match a {
        LoopAction::Stop { release: Some(_), .. } => true,
        _ => false,
    }
}

/// How many actions of a sequence hand a handle back for release.
pub open spec fn release_count<H>(actions: Seq<LoopAction<H>>) -> nat
    decreases actions.len(),
{
    if actions.len() == 0 {
        0
    } else {
        (if releases_handle(actions[0]) { 1nat } else { 0nat }) + release_count(
            actions.subrange(1, actions.len() as int),
        )
    }
}

/// The tracking loop: owns the session it drives.
pub struct TrackingLoop<H> {
    tracker: Tracker<H>,
}

impl<H> View for TrackingLoop<H> {
    type V = TrackerView<H>;

    closed spec fn view(&self) -> TrackerView<H> {
        self.tracker@
    }
}

impl<H: Copy> TrackingLoop<H> {
    /// A loop driving `tracker`.
    pub fn new(tracker: Tracker<H>) -> (l: TrackingLoop<H>)
        ensures
            l@ == tracker@,
    {
        TrackingLoop { tracker }
    }

    /// The session being driven.
    pub fn tracker(&self) -> (t: &Tracker<H>)
        ensures
            t@ == self@,
    {
        &self.tracker
    }

    /// Whether the loop is still running, that is, its session is active.
    pub fn is_running(&self) -> (b: bool)
        ensures
            b <==> self@.state == SessionState::Active,
    {
        self.tracker.is_active()
    }

    /// Takes one event and returns the action to perform. A mismatched frame
    /// set or a lost track is recoverable; any other failed track, or a stop
    /// request, ends the session and hands its handle back for release.
    pub fn step(&mut self, event: LoopEvent) -> (a: LoopAction<H>)
        ensures
            (final(self)@, a) == loop_step(old(self)@, event),
    {
        if !self.tracker.is_active() {
            return LoopAction::Stop { status: None, release: None };
        }
        match event {
            LoopEvent::Timeout => LoopAction::Wait,
            LoopEvent::Frames(n) => {
                if n == self.tracker.rig().num_cameras() {
                    LoopAction::Track
                } else {
                    LoopAction::Skip
                }
            },
            LoopEvent::TrackResult(Ok(est)) => LoopAction::Emit(est),
            LoopEvent::TrackResult(Err(s)) => {
                if s == Status::TrackingLost {
                    LoopAction::ReportLost
                } else {
                    let release = self.tracker.destroy();
                    LoopAction::Stop { status: Some(s), release }
                }
            },
            LoopEvent::StopRequested => {
                let release = self.tracker.destroy();
                LoopAction::Stop { status: None, release }
            },
        }
    }
}

/// 1 if a session went from active to ended, else 0.
pub open spec fn ended_here<H>(before: TrackerView<H>, after: TrackerView<H>) -> nat {
    if before.state == SessionState::Active && after.state == SessionState::Destroyed {
        1
    } else {
        0
    }
}

/// Over any sequence of events, a loop that starts with a live session hands
/// its handle back for release once if the session ended and never while it
/// is still active; a loop whose session already ended never hands one back.
pub proof fn lemma_loop_releases_once<H>(v: TrackerView<H>, events: Seq<LoopEvent>)
    ensures
        release_count(loop_run(v, events).1) == ended_here(v, loop_run(v, events).0),
        v.state == SessionState::Destroyed ==> loop_run(v, events).0.state
            == SessionState::Destroyed,
    decreases events.len(),
{
    if events.len() > 0 {
        let (next, a) = loop_step(v, events[0]);
        let tail = events.subrange(1, events.len() as int);
        lemma_loop_releases_once(next, tail);
        let rest = loop_run(next, tail).1;
        let all = seq![a] + rest;
        assert(all.subrange(1, all.len() as int) =~= rest);
        assert(all[0] == a);
    }
}

/// Once the session has ended, no event leads to another track call.
pub proof fn lemma_no_track_after_stop<H>(v: TrackerView<H>, e: LoopEvent)
    requires
        v.state == SessionState::Destroyed,
    ensures
        loop_step(v, e).1 == (LoopAction::<H>::Stop { status: None, release: None }),
        loop_step(v, e).0 == v,
{
}

/// A frame set whose size differs from the rig's camera count is skipped,
/// and a lost track is only reported: neither ends the session.
pub proof fn lemma_recoverable_events_keep_session<H>(v: TrackerView<H>, n: usize)
    requires
        v.state == SessionState::Active,
        n != v.rig.len(),
    ensures
        loop_step(v, LoopEvent::Frames(n)) == (v, LoopAction::<H>::Skip),
        loop_step(v, LoopEvent::TrackResult(Err(Status::TrackingLost))) == (v, LoopAction::<H>::ReportLost),
{
}

} // verus!
