use vstd::prelude::*;

verus! {

/// The one tracked completion signal of submitted work.
#[derive(Clone, Copy, Debug, PartialEq, Eq, Structural)]
pub enum FrameSync {
    /// Nothing outstanding: a signal that has already fired.
    Completed,
    /// The signal of the last submitted frame, by the id the host gave it.
    Pending(u64),
}

/// Where the current loop iteration stands.
#[derive(Clone, Copy, Debug, PartialEq, Eq, Structural)]
pub enum Phase {
    /// Between iterations.
    Idle,
    /// Finished GPU work is being released.
    Releasing,
    /// The chain is being rebuilt for the current window size.
    Recreating,
    /// The next image is being acquired.
    Acquiring,
    /// Commands for the acquired image are being recorded.
    Recording(u32),
    /// The recorded commands and the present of the image are being submitted.
    Submitting(u32),
    /// The loop has ended; teardown has been ordered.
    Stopped,
}

/// What the host reports to the scheduler.
#[derive(Clone, Copy, Debug, PartialEq, Eq, Structural)]
pub enum FrameEvent {
    /// The window was resized.
    Resized,
    /// The window asked to close.
    CloseRequested,
    /// The event source is drained: time for an iteration.
    FrameStart,
    /// Finished work was released.
    Released,
    /// The chain was rebuilt.
    Recreated,
    /// The window size gives no usable extent.
    RecreateUnsupported,
    /// Rebuilding the chain failed otherwise.
    RecreateFailed,
    /// An image was acquired; `suboptimal` when the chain no longer fits the surface well.
    Acquired { image: u32, suboptimal: bool },
    /// The chain is out of date and cannot be acquired from.
    AcquireOutOfDate,
    /// Acquiring failed otherwise.
    AcquireFailed,
    /// The frame's commands were recorded.
    Recorded,
    /// Submission succeeded; `signal` is the id of its completion signal.
    Submitted { signal: u64 },
    /// Submission or present found the chain out of date.
    SubmitOutOfDate,
    /// Submission or present failed otherwise.
    SubmitFailed,
}

/// What the scheduler asks the host to do next.
#[derive(Clone, Copy, Debug, PartialEq, Eq, Structural)]
pub enum FrameAction {
    Nothing,
    /// Release bookkeeping of work known to have completed, without blocking.
    ReleaseFinished,
    /// Rebuild the chain for the current window size.
    RecreateChain,
    /// Acquire the next image, with no timeout.
    AcquireImage,
    /// Call the draw callback, then record the frame for this image.
    DrawAndRecord { image: u32 },
    /// Submit after `wait_on` and the acquire signal, then present `image`.
    Submit { image: u32, wait_on: FrameSync },
    /// Nothing is presented in this iteration.
    SkipFrame,
    /// Log the submission failure; the loop goes on.
    ReportFailure,
    /// Destroy every GPU object, in dependency order.
    Teardown,
}

#[derive(Clone, Copy, Debug, PartialEq, Eq, Structural)]
pub struct SchedulerState {
    pub phase: Phase,
    /// Set by resize and out-of-date reports, cleared by a successful rebuild.
    pub resize_pending: bool,
    /// Set by a close request, acted on at the start of the next iteration.
    pub stop_requested: bool,
    pub previous_frame: FrameSync,
}

pub open spec fn initial_state() -> SchedulerState {
    SchedulerState {
        phase: Phase::Idle,
        resize_pending: false,
        stop_requested: false,
        previous_frame: FrameSync::Completed,
    }
}

/// The scheduler's transition table.
pub open spec fn transition(s: SchedulerState, e: FrameEvent) -> (SchedulerState, FrameAction) {
    if s.phase is Stopped {
        (s, FrameAction::Nothing)
    } else {
        match e {
            FrameEvent::Resized => (SchedulerState { resize_pending: true, ..s }, FrameAction::Nothing),
            FrameEvent::CloseRequested => (
                SchedulerState { stop_requested: true, ..s },
                FrameAction::Nothing,
            ),
            FrameEvent::FrameStart => if !(s.phase is Idle) {
                (s, FrameAction::Nothing)
            } else if s.stop_requested {
                (SchedulerState { phase: Phase::Stopped, ..s }, FrameAction::Teardown)
            } else {
                (SchedulerState { phase: Phase::Releasing, ..s }, FrameAction::ReleaseFinished)
            },
            FrameEvent::Released => if !(s.phase is Releasing) {
                (s, FrameAction::Nothing)
            } else if s.resize_pending {
                (SchedulerState { phase: Phase::Recreating, ..s }, FrameAction::RecreateChain)
            } else {
                (SchedulerState { phase: Phase::Acquiring, ..s }, FrameAction::AcquireImage)
            },
            FrameEvent::Recreated => if !(s.phase is Recreating) {
                (s, FrameAction::Nothing)
            } else {
                (
                    SchedulerState { phase: Phase::Acquiring, resize_pending: false, ..s },
                    FrameAction::AcquireImage,
                )
            },
            FrameEvent::RecreateUnsupported => if !(s.phase is Recreating) {
                (s, FrameAction::Nothing)
            } else {
                (SchedulerState { phase: Phase::Idle, ..s }, FrameAction::SkipFrame)
            },
            FrameEvent::RecreateFailed => if !(s.phase is Recreating) {
                (s, FrameAction::Nothing)
            } else {
                (SchedulerState { phase: Phase::Stopped, ..s }, FrameAction::Teardown)
            },
            FrameEvent::Acquired { image, suboptimal } => if !(s.phase is Acquiring) {
                (s, FrameAction::Nothing)
            } else {
                (
                    SchedulerState {
                        phase: Phase::Recording(image),
                        resize_pending: s.resize_pending || suboptimal,
                        ..s
                    },
                    FrameAction::DrawAndRecord { image },
                )
            },
            FrameEvent::AcquireOutOfDate => if !(s.phase is Acquiring) {
                (s, FrameAction::Nothing)
            } else {
                (
                    SchedulerState { phase: Phase::Idle, resize_pending: true, ..s },
                    FrameAction::SkipFrame,
                )
            },
            FrameEvent::AcquireFailed => if !(s.phase is Acquiring) {
                (s, FrameAction::Nothing)
            } else {
                (SchedulerState { phase: Phase::Stopped, ..s }, FrameAction::Teardown)
            },
            FrameEvent::Recorded => match s.phase {
                Phase::Recording(image) => (
                    SchedulerState { phase: Phase::Submitting(image), ..s },
                    FrameAction::Submit { image, wait_on: s.previous_frame },
                ),
                _ => (s, FrameAction::Nothing),
            },
            FrameEvent::Submitted { signal } => if !(s.phase is Submitting) {
                (s, FrameAction::Nothing)
            } else {
                (
                    SchedulerState {
                        phase: Phase::Idle,
                        previous_frame: FrameSync::Pending(signal),
                        ..s
                    },
                    FrameAction::Nothing,
                )
            },
            FrameEvent::SubmitOutOfDate => if !(s.phase is Submitting) {
                (s, FrameAction::Nothing)
            } else {
                (
                    SchedulerState {
                        phase: Phase::Idle,
                        resize_pending: true,
                        previous_frame: FrameSync::Completed,
                        ..s
                    },
                    FrameAction::SkipFrame,
                )
            },
            FrameEvent::SubmitFailed => if !(s.phase is Submitting) {
                (s, FrameAction::Nothing)
            } else {
                (
                    SchedulerState {
                        phase: Phase::Idle,
                        previous_frame: FrameSync::Completed,
                        ..s
                    },
                    FrameAction::ReportFailure,
                )
            },
        }
    }
}

impl SchedulerState {
    /// Idle, with nothing pending and nothing outstanding.
    pub fn new() -> (r: SchedulerState)
        ensures
            r == initial_state(),
    {
        SchedulerState {
            phase: Phase::Idle,
            resize_pending: false,
            stop_requested: false,
            previous_frame: FrameSync::Completed,
        }
    }

    /// Whether the loop has ended.
    pub fn is_stopped(&self) -> (r: bool)
        ensures
            r == (self.phase is Stopped),
    {
        match self.phase {
            Phase::Stopped => true,
            _ => false,
        }
    }

    /// Takes one event and gives the action the host must perform next.
    pub fn step(&mut self, event: FrameEvent) -> (r: FrameAction)
        ensures
            (*final(self), r) == transition(*old(self), event),
    {
        if self.is_stopped() {
            return FrameAction::Nothing;
        }
        match event {
            FrameEvent::Resized => {
                self.resize_pending = true;
                FrameAction::Nothing
            },
            FrameEvent::CloseRequested => {
                self.stop_requested = true;
                FrameAction::Nothing
            },
            FrameEvent::FrameStart => match self.phase {
                Phase::Idle => if self.stop_requested {
                    self.phase = Phase::Stopped;
                    FrameAction::Teardown
                } else {
                    self.phase = Phase::Releasing;
                    FrameAction::ReleaseFinished
                },
                _ => FrameAction::Nothing,
            },
            FrameEvent::Released => match self.phase {
                Phase::Releasing => if self.resize_pending {
                    self.phase = Phase::Recreating;
                    FrameAction::RecreateChain
                } else {
                    self.phase = Phase::Acquiring;
                    FrameAction::AcquireImage
                },
                _ => FrameAction::Nothing,
            },
            FrameEvent::Recreated => match self.phase {
                Phase::Recreating => {
                    self.phase = Phase::Acquiring;
                    self.resize_pending = false;
                    FrameAction::AcquireImage
                },
                _ => FrameAction::Nothing,
            },
            FrameEvent::RecreateUnsupported => match self.phase {
                Phase::Recreating => {
                    self.phase = Phase::Idle;
                    FrameAction::SkipFrame
                },
                _ => FrameAction::Nothing,
            },
            FrameEvent::RecreateFailed => match self.phase {
                Phase::Recreating => {
                    self.phase = Phase::Stopped;
                    FrameAction::Teardown
                },
                _ => FrameAction::Nothing,
            },
            FrameEvent::Acquired { image, suboptimal } => match self.phase {
                Phase::Acquiring => {
                    self.phase = Phase::Recording(image);
                    self.resize_pending = self.resize_pending || suboptimal;
                    FrameAction::DrawAndRecord { image }
                },
                _ => FrameAction::Nothing,
            },
            FrameEvent::AcquireOutOfDate => match self.phase {
                Phase::Acquiring => {
                    self.phase = Phase::Idle;
                    self.resize_pending = true;
                    FrameAction::SkipFrame
                },
                _ => FrameAction::Nothing,
            },
            FrameEvent::AcquireFailed => match self.phase {
                Phase::Acquiring => {
                    self.phase = Phase::Stopped;
                    FrameAction::Teardown
                },
                _ => FrameAction::Nothing,
            },
            FrameEvent::Recorded => match self.phase {
                Phase::Recording(image) => {
                    self.phase = Phase::Submitting(image);
                    FrameAction::Submit { image, wait_on: self.previous_frame }
                },
                _ => FrameAction::Nothing,
            },
            FrameEvent::Submitted { signal } => match self.phase {
                Phase::Submitting(_) => {
                    self.phase = Phase::Idle;
                    self.previous_frame = FrameSync::Pending(signal);
                    FrameAction::Nothing
                },
                _ => FrameAction::Nothing,
            },
            FrameEvent::SubmitOutOfDate => match self.phase {
                Phase::Submitting(_) => {
                    self.phase = Phase::Idle;
                    self.resize_pending = true;
                    self.previous_frame = FrameSync::Completed;
                    FrameAction::SkipFrame
                },
                _ => FrameAction::Nothing,
            },
            FrameEvent::SubmitFailed => match self.phase {
                Phase::Submitting(_) => {
                    self.phase = Phase::Idle;
                    self.previous_frame = FrameSync::Completed;
                    FrameAction::ReportFailure
                },
                _ => FrameAction::Nothing,
            },
        }
    }
}

/// An out-of-date report on acquire skips the frame without presenting; the
/// next iteration rebuilds the chain before it acquires again, and a
/// successful rebuild clears the pending resize.
pub proof fn lemma_out_of_date_acquire_recovers(s: SchedulerState)
    requires
        s.phase is Acquiring,
        !s.stop_requested,
    ensures
        ({
            let (s1, a1) = transition(s, FrameEvent::AcquireOutOfDate);
            let (s2, a2) = transition(s1, FrameEvent::FrameStart);
            let (s3, a3) = transition(s2, FrameEvent::Released);
            let (s4, a4) = transition(s3, FrameEvent::Recreated);
            &&& a1 == FrameAction::SkipFrame
            &&& s1.phase is Idle && s1.resize_pending
            &&& a2 == FrameAction::ReleaseFinished
            &&& a3 == FrameAction::RecreateChain
            &&& a4 == FrameAction::AcquireImage
            &&& s4.phase is Acquiring && !s4.resize_pending
            &&& s4.previous_frame == s.previous_frame
        }),
{
}

/// Teardown is ordered exactly when the loop enters its stopped phase, be it
/// on a close request or on a fatal error, and once stopped nothing changes,
/// so teardown is never ordered twice.
pub proof fn lemma_teardown_once(s: SchedulerState, e: FrameEvent)
    ensures
        (transition(s, e).1 == FrameAction::Teardown) <==> (!(s.phase is Stopped) && transition(
            s,
            e,
        ).0.phase is Stopped),
        s.phase is Stopped ==> transition(s, e) == (s, FrameAction::Nothing),
{
}

/// A close request is acted on at the start of the next iteration.
pub proof fn lemma_close_then_teardown(s: SchedulerState)
    requires
        s.phase is Idle,
    ensures
        ({
            let (s1, a1) = transition(s, FrameEvent::CloseRequested);
            let (s2, a2) = transition(s1, FrameEvent::FrameStart);
            a1 == FrameAction::Nothing && a2 == FrameAction::Teardown && s2.phase is Stopped
        }),
{
}

/// While a submission is outstanding no other is issued, and every submission
/// waits on the one tracked signal of the frame before it.
pub proof fn lemma_one_submission_in_flight(s: SchedulerState, e: FrameEvent)
    ensures
        s.phase is Submitting ==> !(transition(s, e).1 is Submit),
        (transition(s, e).1 is Submit ==> s.phase is Recording && transition(s, e).1
            == (FrameAction::Submit { image: s.phase->Recording_0, wait_on: s.previous_frame })),
{
}

/// A pending resize is cleared only by a successful rebuild of the chain.
pub proof fn lemma_resize_cleared_only_by_rebuild(s: SchedulerState, e: FrameEvent)
    requires
        s.resize_pending,
        !(transition(s, e).0.resize_pending),
    ensures
        e == FrameEvent::Recreated,
        s.phase is Recreating,
{
}

} // verus!
