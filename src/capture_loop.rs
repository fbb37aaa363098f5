use vstd::prelude::*;

use crate::device::DeviceError;

verus! {

/// Seconds to wait for the device to become readable before giving up.
pub const WAIT_TIMEOUT_SECS: i64 = 2;

/// `EINTR`: a signal interrupted the wait.
pub const EINTR: i32 = 4;

/// Where the capture loop stands.
#[derive(Debug, Clone, Copy, PartialEq, Eq, Structural)]
pub enum LoopPhase {
    /// Between frames: the presentation surface's events are polled next.
    PollEvents,
    /// Waiting for the device descriptor to become readable.
    AwaitReadable,
    /// The descriptor is readable; a frame is being read.
    Reading,
    /// The loop has ended.
    Finished,
}

/// What the caller observed after performing the last action.
#[derive(Debug, Clone, Copy, PartialEq, Eq, Structural)]
pub enum LoopEvent {
    /// The event poll found a quit request.
    Quit,
    /// The event poll found no quit request.
    NoQuit,
    /// The readiness wait ran out of time.
    TimedOut,
    /// A signal interrupted the readiness wait.
    Interrupted,
    /// The readiness wait failed with this error number.
    WaitFailed(i32),
    /// The descriptor is readable.
    Readable,
    /// A frame was read, converted and presented.
    FrameShown,
    /// The driver had no frame ready after all.
    FrameNotReady,
}

/// What the caller performs next.
#[derive(Debug, Clone, Copy, PartialEq, Eq, Structural)]
pub enum LoopAction {
    /// Poll the presentation surface's events without blocking.
    PollEvents,
    /// Wait, up to the timeout, for the descriptor to become readable.
    WaitReadable,
    /// Dequeue a frame, convert and present it, and enqueue it again.
    ReadFrame,
    /// Leave the loop and stop streaming.
    Stop,
    /// Abort the session with this error.
    Fail(DeviceError),
    /// Repeat the action the phase stands for; the event did not belong to it.
    Ignore,
}

/// The transition table of the capture loop.
pub open spec fn transition(phase: LoopPhase, event: LoopEvent) -> (LoopPhase, LoopAction) {
    match (phase, event) {
        (LoopPhase::PollEvents, LoopEvent::Quit) => (LoopPhase::Finished, LoopAction::Stop),
        (LoopPhase::PollEvents, LoopEvent::NoQuit) => (
            LoopPhase::AwaitReadable,
            LoopAction::WaitReadable,
        ),
        (LoopPhase::AwaitReadable, LoopEvent::TimedOut) => (
            LoopPhase::Finished,
            LoopAction::Fail(DeviceError::DeviceStalled),
        ),
        (LoopPhase::AwaitReadable, LoopEvent::Interrupted) => (
            LoopPhase::AwaitReadable,
            LoopAction::WaitReadable,
        ),
        (LoopPhase::AwaitReadable, LoopEvent::WaitFailed(e)) => (
            LoopPhase::Finished,
            LoopAction::Fail(DeviceError::WaitFailed(e)),
        ),
        (LoopPhase::AwaitReadable, LoopEvent::Readable) => (
            LoopPhase::Reading,
            LoopAction::ReadFrame,
        ),
        (LoopPhase::Reading, LoopEvent::FrameShown) => (
            LoopPhase::PollEvents,
            LoopAction::PollEvents,
        ),
        (LoopPhase::Reading, LoopEvent::FrameNotReady) => (
            LoopPhase::AwaitReadable,
            LoopAction::WaitReadable,
        ),
        _ => (phase, LoopAction::Ignore),
    }
}

/// The event a readiness wait stands for: `ret` is what the wait returned
/// (-1 on failure, 0 on timeout, the count of ready descriptors otherwise)
/// and `errno` the error number it left.
pub fn classify_wait(ret: i32, errno: i32) -> (r: LoopEvent)
    ensures
        r == if ret < 0 {
            if errno == EINTR {
                LoopEvent::Interrupted
            } else {
                LoopEvent::WaitFailed(errno)
            }
        } else if ret == 0 {
            LoopEvent::TimedOut
        } else {
            LoopEvent::Readable
        },
{
    if ret < 0 {
        if errno == EINTR {
            LoopEvent::Interrupted
        } else {
            LoopEvent::WaitFailed(errno)
        }
    } else if ret == 0 {
        LoopEvent::TimedOut
    } else {
        LoopEvent::Readable
    }
}

/// The decisions of the capture loop. The caller performs each action it
/// returns and hands back what it observed.
pub struct CaptureLoop {
    phase: LoopPhase,
}

impl CaptureLoop {
    pub closed spec fn spec_phase(&self) -> LoopPhase {
        self.phase
    }

    /// A loop about to poll events. The first action is `PollEvents`.
    pub fn new() -> (r: CaptureLoop)
        ensures
            r.spec_phase() == LoopPhase::PollEvents,
    {
        CaptureLoop { phase: LoopPhase::PollEvents }
    }

    /// Current phase.
    pub fn phase(&self) -> (r: LoopPhase)
        ensures
            r == self.spec_phase(),
    {
        self.phase
    }

    /// Takes one event and returns the next action.
    pub fn step(&mut self, event: LoopEvent) -> (r: LoopAction)
        ensures
            (final(self).spec_phase(), r) == transition(old(self).spec_phase(), event),
    {
        let (phase, action) = match (self.phase, event) {
            (LoopPhase::PollEvents, LoopEvent::Quit) => (LoopPhase::Finished, LoopAction::Stop),
            (LoopPhase::PollEvents, LoopEvent::NoQuit) => (
                LoopPhase::AwaitReadable,
                LoopAction::WaitReadable,
            ),
            (LoopPhase::AwaitReadable, LoopEvent::TimedOut) => (
                LoopPhase::Finished,
                LoopAction::Fail(DeviceError::DeviceStalled),
            ),
            (LoopPhase::AwaitReadable, LoopEvent::Interrupted) => (
                LoopPhase::AwaitReadable,
                LoopAction::WaitReadable,
            ),
            (LoopPhase::AwaitReadable, LoopEvent::WaitFailed(e)) => (
                LoopPhase::Finished,
                LoopAction::Fail(DeviceError::WaitFailed(e)),
            ),
            (LoopPhase::AwaitReadable, LoopEvent::Readable) => (
                LoopPhase::Reading,
                LoopAction::ReadFrame,
            ),
            (LoopPhase::Reading, LoopEvent::FrameShown) => (
                LoopPhase::PollEvents,
                LoopAction::PollEvents,
            ),
            (LoopPhase::Reading, LoopEvent::FrameNotReady) => (
                LoopPhase::AwaitReadable,
                LoopAction::WaitReadable,
            ),
            _ => (self.phase, LoopAction::Ignore),
        };
        self.phase = phase;
        action
    }
}

} // verus!
