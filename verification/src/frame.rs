//! One frame: how long the last one took, and what to do with the image the
//! surface did or did not hand out.

use crate::error::{FatalError, Severity, SurfaceError};
use crate::pipeline::RenderPass;
use vstd::prelude::*;

verus! {

/// Nanoseconds in one second.
pub const NANOS_PER_SECOND: u64 = 1_000_000_000;

/// The whole number of frames that fit in one second when each frame takes
/// `frame_nanos` nanoseconds; there is no rate for a frame that took no time.
pub open spec fn spec_frames_per_second(frame_nanos: u64) -> Option<u64> {
    if frame_nanos == 0 {
        None
    } else {
        Some((NANOS_PER_SECOND / frame_nanos) as u64)
    }
}

/// Frames per second for a frame time in nanoseconds, rounded down.
pub fn frames_per_second(frame_nanos: u64) -> (fps: Option<u64>)
    ensures
        fps == spec_frames_per_second(frame_nanos),
{
    if frame_nanos == 0 {
        None
    } else {
        Some(NANOS_PER_SECOND / frame_nanos)
    }
}

/// The frame-time counters. They are for diagnostics: nothing that is drawn
/// depends on them.
#[derive(Clone, Copy, Debug, PartialEq, Eq, Structural)]
pub struct FrameState {
    /// When the last draw began, in nanoseconds on the caller's clock.
    pub last_frame_nanos: u64,
    /// The time between the last two draws, in nanoseconds.
    pub frame_nanos: u64,
}

impl FrameState {
    /// The counters after a draw that begins at `now_nanos`. A clock that
    /// went backwards counts as no time having passed.
    pub open spec fn spec_tick(self, now_nanos: u64) -> FrameState {
        FrameState {
            last_frame_nanos: now_nanos,
            frame_nanos: if now_nanos >= self.last_frame_nanos {
                (now_nanos - self.last_frame_nanos) as u64
            } else {
                0
            },
        }
    }

    /// Counters that start at `now_nanos`, before any frame.
    pub fn new(now_nanos: u64) -> (frame: FrameState)
        ensures
            frame == (FrameState { last_frame_nanos: now_nanos, frame_nanos: 0 }),
    {
        FrameState { last_frame_nanos: now_nanos, frame_nanos: 0 }
    }

    /// Notes that a draw begins at `now_nanos`.
    pub fn tick(&mut self, now_nanos: u64)
        ensures
            *final(self) == old(self).spec_tick(now_nanos),
    {
        let elapsed: u64 = if now_nanos >= self.last_frame_nanos {
            now_nanos - self.last_frame_nanos
        } else {
            0
        };
        self.last_frame_nanos = now_nanos;
        self.frame_nanos = elapsed;
    }

    /// The rate that the time between the last two draws amounts to.
    pub fn fps(&self) -> (fps: Option<u64>)
        ensures
            fps == spec_frames_per_second(self.frame_nanos),
    {
        frames_per_second(self.frame_nanos)
    }
}

/// Where the frame driver stands.
#[derive(Clone, Copy, Debug, PartialEq, Eq, Structural)]
pub enum Phase {
    /// Waiting for a redraw; no frame is in flight.
    Idle,
    /// A frame was handed out to be recorded, submitted and presented.
    Rendering,
}

/// What the caller of a draw has to do.
#[derive(Clone, Copy, Debug, PartialEq, Eq, Structural)]
pub enum FrameAction {
    /// Nothing: this redraw is given up, the next one tries again.
    Skip,
    /// Configure the surface again with the stored configuration, and draw
    /// nothing this time.
    Reconfigure,
    /// Stop the process.
    Abort(FatalError),
    /// Record this pass into one command buffer, submit it and present the
    /// image.
    Render(RenderPass),
}

impl FrameAction {
    /// The number of command buffers that the action submits.
    pub open spec fn submissions(self) -> nat {
        if self is Render {
            1
        } else {
            0
        }
    }
}

/// What a redraw in phase `phase` leads to, once the surface has answered the
/// request for an image with `acquired`, for a driver that would draw `pass`.
///
/// Running out of memory ends the process in either phase. Apart from that,
/// no frame is begun and the surface is left alone while a frame is in
/// flight. An idle driver renders to an acquired image and is rendering from
/// then on; it gives the frame up on a timeout, and asks for the surface to
/// be configured again when that is outdated or lost, and stays idle.
pub open spec fn spec_decide(phase: Phase, acquired: Result<(), SurfaceError>, pass: RenderPass) -> (
    Phase,
    FrameAction,
) {
    match acquired {
        Err(SurfaceError::OutOfMemory) => (phase, FrameAction::Abort(FatalError::OutOfMemory)),
        Err(SurfaceError::Timeout) => (phase, FrameAction::Skip),
        Err(_) => if phase == Phase::Idle {
            (Phase::Idle, FrameAction::Reconfigure)
        } else {
            (Phase::Rendering, FrameAction::Skip)
        },
        Ok(_) => if phase == Phase::Idle {
            (Phase::Rendering, FrameAction::Render(pass))
        } else {
            (Phase::Rendering, FrameAction::Skip)
        },
    }
}

/// Decides what a redraw leads to: the next phase and what the caller has to
/// do.
pub fn decide(phase: Phase, acquired: Result<(), SurfaceError>, pass: RenderPass) -> (next: (
    Phase,
    FrameAction,
))
    ensures
        next == spec_decide(phase, acquired, pass),
        next.1.submissions() <= 1,
        next.0 == Phase::Rendering <==> phase == Phase::Rendering || acquired is Ok,
        next.1 is Abort <==> acquired is Err && acquired->Err_0.spec_severity()
            == Severity::Fatal,
{
    match acquired {
        Err(SurfaceError::OutOfMemory) => (phase, FrameAction::Abort(FatalError::OutOfMemory)),
        Err(SurfaceError::Timeout) => (phase, FrameAction::Skip),
        Err(_) => match phase {
            Phase::Idle => (Phase::Idle, FrameAction::Reconfigure),
            Phase::Rendering => (Phase::Rendering, FrameAction::Skip),
        },
        Ok(_) => match phase {
            Phase::Idle => (Phase::Rendering, FrameAction::Render(pass)),
            Phase::Rendering => (Phase::Rendering, FrameAction::Skip),
        },
    }
}

} // verus!
