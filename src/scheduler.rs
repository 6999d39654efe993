//! The frame scheduler: the decisions of the render loop, as a state machine.
//! The caller performs each action it returns and reports the outcome as the
//! next event. One fence serializes the frames: a frame is only recorded once
//! the previous frame's work is known to be complete.
use vstd::prelude::*;

verus! {

/// Where the scheduler stands.
#[derive(Debug, Clone, Copy, PartialEq, Eq, Structural)]
pub enum Phase {
    /// Between frames.
    Idle,
    /// Waiting for the completion fence, which is then reset.
    WaitingFence,
    /// Waiting for the next presentable image.
    Acquiring,
    /// Recording the command buffer of image `image`.
    Recording { image: u32 },
    /// Submitting the command buffer of image `image`.
    Submitting { image: u32 },
    /// Presenting image `image`.
    Presenting { image: u32 },
    /// Shutting down: waiting until the device is idle.
    Draining,
    /// Shut down, or stopped by a failure.
    Closed,
}

/// What the caller reports.
#[derive(Debug, Clone, Copy, PartialEq, Eq, Structural)]
pub enum Event {
    /// The window asks for a new frame.
    RedrawRequested,
    /// The completion fence was signaled and has been reset.
    FenceSignaled,
    /// The surface handed out image `index`.
    ImageAcquired { index: u32 },
    /// The command buffer was recorded.
    Recorded,
    /// The command buffer was submitted; the fence signals when it completes.
    Submitted,
    /// The image was queued for presentation.
    Presented,
    /// The window asks to close.
    CloseRequested,
    /// The device has finished all queued work.
    DeviceIdle,
    /// A per-frame operation failed.
    Failed,
}

/// What the caller is to do next.
#[derive(Debug, Clone, Copy, PartialEq, Eq, Structural)]
pub enum Action {
    /// Nothing; wait for the next event.
    Nothing,
    /// Wait for the completion fence, then reset it.
    WaitFence,
    /// Acquire the next presentable image, signaling "image available".
    AcquireImage,
    /// Reset and record the command buffer of image `image`.
    Record { image: u32 },
    /// Submit the command buffer of image `image`: wait on "image available"
    /// at color-attachment output, signal "render finished" and the fence.
    Submit { image: u32 },
    /// Present image `image` once "render finished" is signaled.
    Present { image: u32 },
    /// Wait until the device is idle.
    WaitDeviceIdle,
    /// Destroy every resource, in teardown order, and exit.
    Teardown,
    /// Stop with a diagnostic.
    Abort,
}

/// The scheduler's state.
#[derive(Debug, Clone, Copy, PartialEq, Eq, Structural)]
pub struct FrameScheduler {
    pub phase: Phase,
    /// Work was submitted whose fence has not been seen signaled.
    pub fence_pending: bool,
    /// Number of swapchain images, and of command buffers.
    pub image_count: u32,
}

impl FrameScheduler {
    /// The fence is known signaled from the wait until the next submission;
    /// an image being worked on is one of the swapchain's.
    pub open spec fn wf(self) -> bool {
        &&& self.image_count > 0
        &&& match self.phase {
            Phase::Acquiring => !self.fence_pending,
            Phase::Recording { image } => !self.fence_pending && image < self.image_count,
            Phase::Submitting { image } => !self.fence_pending && image < self.image_count,
            Phase::Presenting { image } => self.fence_pending && image < self.image_count,
            _ => true,
        }
    }

    /// The scheduler is shutting down or has stopped.
    pub open spec fn is_shutting_down(self) -> bool {
        self.phase is Draining || self.phase is Closed
    }

    pub open spec fn with(self, phase: Phase, fence_pending: bool) -> FrameScheduler {
        FrameScheduler { phase, fence_pending, image_count: self.image_count }
    }

    /// The state and action that follow event `e`.
    pub open spec fn next(self, e: Event) -> (FrameScheduler, Action) {
        match (self.phase, e) {
            (Phase::Draining, Event::DeviceIdle) => (self.with(Phase::Closed, false), Action::Teardown),
            (Phase::Draining, _) => (self, Action::Nothing),
            (Phase::Closed, _) => (self, Action::Nothing),
            (_, Event::CloseRequested) => (self.with(Phase::Draining, self.fence_pending), Action::WaitDeviceIdle),
            (_, Event::Failed) => (self.with(Phase::Closed, self.fence_pending), Action::Abort),
            (Phase::Idle, Event::RedrawRequested) => (self.with(Phase::WaitingFence, self.fence_pending), Action::WaitFence),
            (Phase::WaitingFence, Event::FenceSignaled) => (self.with(Phase::Acquiring, false), Action::AcquireImage),
            (Phase::Acquiring, Event::ImageAcquired { index }) => if index < self.image_count {
                (self.with(Phase::Recording { image: index }, self.fence_pending), Action::Record { image: index })
            } else {
                (self.with(Phase::Closed, self.fence_pending), Action::Abort)
            },
            (Phase::Recording { image }, Event::Recorded) => (self.with(Phase::Submitting { image }, self.fence_pending), Action::Submit { image }),
            (Phase::Submitting { image }, Event::Submitted) => (self.with(Phase::Presenting { image }, true), Action::Present { image }),
            (Phase::Presenting { image }, Event::Presented) => (self.with(Phase::Idle, self.fence_pending), Action::Nothing),
            _ => (self, Action::Nothing),
        }
    }

    /// A scheduler between frames, for a swapchain of `image_count` images.
    /// The fence starts signaled.
    pub fn new(image_count: u32) -> (r: FrameScheduler)
        requires
            image_count > 0,
        ensures
            r.wf(),
            r == (FrameScheduler { phase: Phase::Idle, fence_pending: false, image_count }),
    {
        FrameScheduler { phase: Phase::Idle, fence_pending: false, image_count }
    }

    /// Take event `e` and return what to do next.
    pub fn step(&mut self, e: Event) -> (r: Action)
        requires
            old(self).wf(),
        ensures
            final(self).wf(),
            (*final(self), r) == old(self).next(e),
    {
        let fence_pending = self.fence_pending;
        let (phase, pending, action) = match (self.phase, e) {
            (Phase::Draining, Event::DeviceIdle) => (Phase::Closed, false, Action::Teardown),
            (Phase::Draining, _) => (Phase::Draining, fence_pending, Action::Nothing),
            (Phase::Closed, _) => (Phase::Closed, fence_pending, Action::Nothing),
            (_, Event::CloseRequested) => (Phase::Draining, fence_pending, Action::WaitDeviceIdle),
            (_, Event::Failed) => (Phase::Closed, fence_pending, Action::Abort),
            (Phase::Idle, Event::RedrawRequested) => (Phase::WaitingFence, fence_pending, Action::WaitFence),
            (Phase::WaitingFence, Event::FenceSignaled) => (Phase::Acquiring, false, Action::AcquireImage),
            (Phase::Acquiring, Event::ImageAcquired { index }) => if index < self.image_count {
                (Phase::Recording { image: index }, fence_pending, Action::Record { image: index })
            } else {
                (Phase::Closed, fence_pending, Action::Abort)
            },
            (Phase::Recording { image }, Event::Recorded) => (Phase::Submitting { image }, fence_pending, Action::Submit { image }),
            (Phase::Submitting { image }, Event::Submitted) => (Phase::Presenting { image }, true, Action::Present { image }),
            (Phase::Presenting { image }, Event::Presented) => (Phase::Idle, fence_pending, Action::Nothing),
            (p, _) => (p, fence_pending, Action::Nothing),
        };
        self.phase = phase;
        self.fence_pending = pending;
        action
    }
}

/// A command buffer is only recorded once the fence of the previous
/// submission has been seen signaled, and no submission is pending while it is
/// recorded and submitted.
pub proof fn lemma_record_only_after_fence(s: FrameScheduler, e: Event)
    requires
        s.wf(),
    ensures
        s.next(e).1 is Record ==> !s.fence_pending && !s.next(e).0.fence_pending,
        s.next(e).1 is Submit ==> !s.fence_pending,
        s.next(e).0.wf(),
{
}

/// A close request, at any point of a frame, first waits for the device to
/// be idle; resources are only destroyed once it is, and no more GPU work is
/// issued after the request.
pub proof fn lemma_shutdown_waits_for_idle(s: FrameScheduler, e: Event)
    requires
        s.wf(),
    ensures
        !s.is_shutting_down() && e is CloseRequested ==> s.next(e) == (s.with(Phase::Draining, s.fence_pending), Action::WaitDeviceIdle),
        s.next(e).1 is Teardown ==> s.phase is Draining && e is DeviceIdle,
        s.is_shutting_down() ==> s.next(e).0.is_shutting_down() && (s.next(e).1 is Nothing || s.next(e).1 is Teardown),
{
}

/// The actions returned for the events `events`, fed one after the other
/// from state `s`.
pub open spec fn run(s: FrameScheduler, events: Seq<Event>) -> Seq<Action>
    decreases events.len(),
{
    if events.len() == 0 {
        Seq::empty()
    } else {
        let (s1, a) = s.next(events[0]);
        seq![a] + run(s1, events.drop_first())
    }
}

proof fn lemma_run_index(s: FrameScheduler, events: Seq<Event>, j: int)
    requires
        0 < j < events.len(),
    ensures
        run(s, events).len() == events.len(),
        run(s, events)[j] == run(s.next(events[0]).0, events.drop_first())[j - 1],
        run(s, events)[0] == s.next(events[0]).1,
    decreases events.len(),
{
    lemma_run_len(s, events);
}

proof fn lemma_run_len(s: FrameScheduler, events: Seq<Event>)
    ensures
        run(s, events).len() == events.len(),
    decreases events.len(),
{
    if events.len() > 0 {
        lemma_run_len(s.next(events[0]).0, events.drop_first());
    }
}

/// From a state that is submitting, has a pending submission, or is shutting
/// down, nothing is recorded before the fence is seen signaled.
proof fn lemma_pending_blocks_record(s: FrameScheduler, events: Seq<Event>, j: int)
    requires
        s.wf(),
        s.fence_pending || s.is_shutting_down() || s.phase is Submitting,
        0 <= j < events.len(),
        run(s, events)[j] is Record,
    ensures
        exists|m: int| 0 <= m < j && #[trigger] events[m] is FenceSignaled,
    decreases events.len(),
{
    lemma_run_len(s, events);
    let s1 = s.next(events[0]).0;
    if j == 0 {
        assert(run(s, events)[0] == s.next(events[0]).1);
        lemma_record_only_after_fence(s, events[0]);
    } else {
        lemma_run_index(s, events, j);
        if events[0] is FenceSignaled {
            assert(events[0] is FenceSignaled);
        } else {
            lemma_record_only_after_fence(s, events[0]);
            lemma_shutdown_waits_for_idle(s, events[0]);
            lemma_pending_blocks_record(s1, events.drop_first(), j - 1);
            let m = choose|m: int| 0 <= m < j - 1 && #[trigger] events.drop_first()[m] is FenceSignaled;
            assert(events[m + 1] is FenceSignaled);
        }
    }
}

/// Over any run of events: once a command buffer is submitted, no command
/// buffer is recorded again until the completion fence has been seen
/// signaled.
pub proof fn lemma_no_record_before_fence(s: FrameScheduler, events: Seq<Event>, i: int, j: int)
    requires
        s.wf(),
        0 <= i < j < events.len(),
        run(s, events)[i] is Submit,
        run(s, events)[j] is Record,
    ensures
        exists|m: int| i < m < j && #[trigger] events[m] is FenceSignaled,
    decreases events.len(),
{
    lemma_run_index(s, events, j);
    let s1 = s.next(events[0]).0;
    lemma_record_only_after_fence(s, events[0]);
    if i == 0 {
        lemma_pending_blocks_record(s1, events.drop_first(), j - 1);
        let m = choose|m: int| 0 <= m < j - 1 && #[trigger] events.drop_first()[m] is FenceSignaled;
        assert(events[m + 1] is FenceSignaled);
    } else {
        lemma_run_index(s, events, i);
        lemma_no_record_before_fence(s1, events.drop_first(), i - 1, j - 1);
        let m = choose|m: int| i - 1 < m < j - 1 && #[trigger] events.drop_first()[m] is FenceSignaled;
        assert(events[m + 1] is FenceSignaled);
    }
}

proof fn lemma_closed_stays_quiet(s: FrameScheduler, events: Seq<Event>, k: int)
    requires
        s.phase is Closed,
        0 <= k < events.len(),
    ensures
        run(s, events)[k] is Nothing,
    decreases events.len(),
{
    lemma_run_len(s, events);
    if k > 0 {
        lemma_run_index(s, events, k);
        lemma_closed_stays_quiet(s.next(events[0]).0, events.drop_first(), k - 1);
    }
}

proof fn lemma_draining_until_idle(s: FrameScheduler, events: Seq<Event>, j: int)
    requires
        s.phase is Draining,
        0 <= j < events.len(),
        run(s, events)[j] is Teardown,
    ensures
        events[j] is DeviceIdle,
        forall|k: int| 0 <= k < j ==> (#[trigger] run(s, events)[k]) is Nothing,
    decreases events.len(),
{
    lemma_run_len(s, events);
    if j > 0 {
        lemma_run_index(s, events, j);
        let s1 = s.next(events[0]).0;
        let rest = events.drop_first();
        if events[0] is DeviceIdle {
            lemma_closed_stays_quiet(s1, rest, j - 1);
        } else {
            lemma_draining_until_idle(s1, rest, j - 1);
            assert forall|k: int| 0 <= k < j implies (#[trigger] run(s, events)[k]) is Nothing by {
                if k > 0 {
                    lemma_run_index(s, events, k);
                }
            }
        }
    }
}

/// Over any run of events: resources are torn down only when the device has
/// reported idle, after a close request that asked to wait for it, and no
/// other action comes in between.
pub proof fn lemma_teardown_after_close(s: FrameScheduler, events: Seq<Event>, j: int)
    requires
        s.wf(),
        !s.is_shutting_down(),
        0 <= j < events.len(),
        run(s, events)[j] is Teardown,
    ensures
        events[j] is DeviceIdle,
        exists|m: int|
            0 <= m < j && #[trigger] events[m] is CloseRequested && run(s, events)[m] is WaitDeviceIdle
                && forall|k: int| m < k < j ==> (#[trigger] run(s, events)[k]) is Nothing,
    decreases events.len(),
{
    lemma_run_len(s, events);
    lemma_shutdown_waits_for_idle(s, events[0]);
    lemma_record_only_after_fence(s, events[0]);
    let s1 = s.next(events[0]).0;
    let rest = events.drop_first();
    assert(run(s, events)[0] == s.next(events[0]).1);
    lemma_run_index(s, events, j);
    if events[0] is CloseRequested {
        lemma_draining_until_idle(s1, rest, j - 1);
        assert forall|k: int| 0 < k < j implies (#[trigger] run(s, events)[k]) is Nothing by {
            lemma_run_index(s, events, k);
        }
        assert(events[0] is CloseRequested);
    } else if s1.phase is Closed {
        lemma_closed_stays_quiet(s1, rest, j - 1);
    } else {
        lemma_teardown_after_close(s1, rest, j - 1);
        let m = choose|m: int|
            0 <= m < j - 1 && #[trigger] rest[m] is CloseRequested && run(s1, rest)[m] is WaitDeviceIdle
                && forall|k: int| m < k < j - 1 ==> (#[trigger] run(s1, rest)[k]) is Nothing;
        lemma_run_index(s, events, m + 1);
        assert(events[m + 1] is CloseRequested);
        assert forall|k: int| m + 1 < k < j implies (#[trigger] run(s, events)[k]) is Nothing by {
            lemma_run_index(s, events, k);
        }
    }
}

} // verus!
