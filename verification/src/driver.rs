use vstd::prelude::*;
use crate::clock::{elapsed, ClockSource};
use crate::scheduler::{paced, sleep_owed, slept, FrameScheduler, FrameStats, Pace};
use crate::span::Span;
use crate::transform::{
    block_for, phase_after, valid_period, TransformState, ViewProjectionBlock,
};
use crate::viewport::{valid_dimensions, InvalidDimensions, ViewportPolicy};

verus! {

/// A key as far as the loop tells keys apart.
#[derive(Clone, Copy, Debug, PartialEq, Eq, Structural)]
pub enum Key {
    Escape,
    Other,
}

/// What the window reports between two frames.
#[derive(Clone, Copy, Debug, PartialEq, Eq, Structural)]
pub enum Event {
    /// The window was asked to close.
    Close,
    /// A key went down.
    KeyPress(Key),
    /// The surface now has this width and height.
    Resize(i64, i64),
    /// Anything else.
    Other,
}

/// Whether the loop goes on.
#[derive(Clone, Copy, Debug, PartialEq, Eq, Structural)]
pub enum LoopState {
    Running,
    /// The loop has been told to end; it never runs again.
    Stopped,
}

/// Why a driver could not be set up.
#[derive(Clone, Copy, Debug, PartialEq, Eq, Structural)]
pub enum SetupError {
    /// The surface has no aspect ratio.
    Dimensions(InvalidDimensions),
    /// The frame period cannot drive the rotation.
    Period,
}

/// What the loop does with the frame that has just begun.
#[derive(Clone, Copy, Debug, PartialEq, Eq, Structural)]
pub struct FramePlan {
    /// Whether to draw and present this frame.
    pub render: bool,
    /// The time since the previous frame began.
    pub dt: Span,
    /// How many resize events were refused for their dimensions.
    pub rejected_resizes: usize,
}

/// Whether an event tells the loop to end.
pub open spec fn requests_stop(e: Event) -> bool {
    e == Event::Close || e == Event::KeyPress(Key::Escape)
}

/// The state of the loop after it has seen `events`, in order.
pub open spec fn state_after(state: LoopState, events: Seq<Event>) -> LoopState
    decreases events.len(),
{
    if events.len() == 0 {
        state
    } else if requests_stop(events.last()) {
        LoopState::Stopped
    } else {
        state_after(state, events.drop_last())
    }
}

/// The aspect ratio, as width and height, after the resizes among `events`:
/// that of the last resize with valid dimensions, or the one before them.
pub open spec fn aspect_after(aspect: (int, int), events: Seq<Event>) -> (int, int)
    decreases events.len(),
{
    if events.len() == 0 {
        aspect
    } else {
        match events.last() {
            Event::Resize(w, h) if valid_dimensions(w as int, h as int) => (w as int, h as int),
            _ => aspect_after(aspect, events.drop_last()),
        }
    }
}

/// Whether an event is a resize to dimensions that have no aspect ratio.
pub open spec fn is_rejected_resize(e: Event) -> bool {
    e matches Event::Resize(w, h) && !valid_dimensions(w as int, h as int)
}

/// How many of `events` are resizes that are refused.
pub open spec fn rejected_resizes(events: Seq<Event>) -> nat
    decreases events.len(),
{
    if events.len() == 0 {
        0
    } else {
        rejected_resizes(events.drop_last()) + if is_rejected_resize(events.last()) {
            1nat
        } else {
            0nat
        }
    }
}

/// The loop is stopped after a batch of events exactly when it was stopped
/// before or one of the events asks for it. So a stopped loop stays stopped,
/// and a close request or the escape key stops it wherever it stands in the
/// batch.
pub proof fn lemma_stop_rule(state: LoopState, events: Seq<Event>)
    ensures
        state_after(state, events) == LoopState::Stopped <==> (state == LoopState::Stopped
            || exists|i: int| 0 <= i < events.len() && requests_stop(#[trigger] events[i])),
    decreases events.len(),
{
    if events.len() > 0 {
        let prev = events.drop_last();
        lemma_stop_rule(state, prev);
        if requests_stop(events.last()) {
            assert(requests_stop(events[events.len() - 1]));
        } else if state_after(state, prev) == LoopState::Stopped && state != LoopState::Stopped {
            let i = choose|i: int| 0 <= i < prev.len() && requests_stop(#[trigger] prev[i]);
            assert(requests_stop(events[i]));
        } else if state != LoopState::Stopped {
            assert forall|i: int| 0 <= i < events.len() implies !requests_stop(
                #[trigger] events[i],
            ) by {
                if i < prev.len() {
                    assert(events[i] == prev[i]);
                }
            }
        }
    }
}

/// The outer control of the render loop: it owns the clock, the transform and
/// the scheduler, and decides frame by frame what the loop does next.
#[derive(Clone, Copy, Debug)]
pub struct RenderLoopDriver {
    state: LoopState,
    clock: ClockSource,
    transform: TransformState,
    scheduler: FrameScheduler,
}

impl RenderLoopDriver {
    /// Whether the loop goes on.
    pub closed spec fn state(self) -> LoopState {
        self.state
    }

    /// The clock that frames are measured with.
    pub closed spec fn clock(self) -> ClockSource {
        self.clock
    }

    /// The rotation and projection state.
    pub closed spec fn transform(self) -> TransformState {
        self.transform
    }

    /// The pacing state.
    pub closed spec fn scheduler(self) -> FrameScheduler {
        self.scheduler
    }

    /// A running loop that starts at the clock reading `start`, with the body
    /// at angle zero, a `width` by `height` surface and frames of
    /// `frame_period`. Dimensions are checked before the period.
    pub fn new(start: Span, frame_period: Span, width: i64, height: i64) -> (r: Result<
        RenderLoopDriver,
        SetupError,
    >)
        ensures
            r.is_ok() <==> valid_dimensions(width as int, height as int) && valid_period(
                frame_period@,
            ),
            r matches Ok(d) ==> d.state() == LoopState::Running && d.clock().prior() == start
                && d.transform().phase() == 0 && d.transform().turn() == 600 * frame_period@
                && d.transform().aspect()@ == (width as int, height as int)
                && d.scheduler().period() == frame_period && d.scheduler().stats()@
                == crate::scheduler::fresh_stats(),
            r matches Err(e) ==> e == (if valid_dimensions(width as int, height as int) {
                SetupError::Period
            } else {
                SetupError::Dimensions(InvalidDimensions { width, height })
            }),
    {
        let aspect = match ViewportPolicy::aspect_ratio(width, height) {
            Ok(a) => a,
            Err(e) => {
                return Err(SetupError::Dimensions(e));
            },
        };
        match TransformState::new(frame_period, aspect) {
            Ok(transform) => Ok(
                RenderLoopDriver {
                    state: LoopState::Running,
                    clock: ClockSource::starting_at(start),
                    transform,
                    scheduler: FrameScheduler::new(frame_period),
                },
            ),
            Err(_) => Err(SetupError::Period),
        }
    }

    /// Takes in the events of one poll, in order: a close request or the
    /// escape key stops the loop, a resize sets the projection unless its
    /// dimensions are refused. Returns how many resizes were refused.
    pub fn handle_events(&mut self, events: &Vec<Event>) -> (rejected: usize)
        ensures
            final(self).state() == state_after(old(self).state(), events@),
            final(self).transform().aspect()@ == aspect_after(
                old(self).transform().aspect()@,
                events@,
            ),
            final(self).transform().phase() == old(self).transform().phase(),
            final(self).transform().turn() == old(self).transform().turn(),
            final(self).clock() == old(self).clock(),
            final(self).scheduler() == old(self).scheduler(),
            rejected == rejected_resizes(events@),
    {
        let mut rejected: usize = 0;
        let mut i: usize = 0;
        assert(events@.take(0) =~= Seq::<Event>::empty());
        while i < events.len()
            invariant
                0 <= i <= events.len(),
                self.state == state_after(old(self).state(), events@.take(i as int)),
                self.transform.aspect()@ == aspect_after(
                    old(self).transform().aspect()@,
                    events@.take(i as int),
                ),
                self.transform.phase() == old(self).transform().phase(),
                self.transform.turn() == old(self).transform().turn(),
                self.clock == old(self).clock(),
                self.scheduler == old(self).scheduler(),
                rejected == rejected_resizes(events@.take(i as int)),
                rejected <= i,
            decreases events.len() - i,
        {
            assert(events@.take(i + 1).drop_last() =~= events@.take(i as int));
            assert(events@.take(i + 1).last() == events@[i as int]);
            match events[i] {
                Event::Close => {
                    self.state = LoopState::Stopped;
                },
                Event::KeyPress(Key::Escape) => {
                    self.state = LoopState::Stopped;
                },
                Event::Resize(w, h) => {
                    if self.transform.on_resize(w, h).is_err() {
                        rejected = rejected + 1;
                    }
                },
                _ => {},
            }
            i = i + 1;
        }
        assert(events@.take(events@.len() as int) =~= events@);
        rejected
    }

    /// Begins a frame at the clock reading `now` with the events polled for
    /// it: measures the time since the previous frame began, takes in the
    /// events, and, if the loop still runs, turns the body by the elapsed
    /// time and asks for the frame to be drawn. A stopped loop draws nothing
    /// and leaves the angle alone.
    pub fn begin_frame(&mut self, now: Span, events: &Vec<Event>) -> (plan: FramePlan)
        ensures
            plan.dt@ == elapsed(old(self).clock().prior()@, now@),
            plan.rejected_resizes == rejected_resizes(events@),
            plan.render == (final(self).state() == LoopState::Running),
            final(self).state() == state_after(old(self).state(), events@),
            final(self).clock().prior() == now,
            final(self).transform().aspect()@ == aspect_after(
                old(self).transform().aspect()@,
                events@,
            ),
            final(self).transform().turn() == old(self).transform().turn(),
            final(self).transform().phase() == (if plan.render {
                phase_after(old(self).transform().phase(), plan.dt@, old(self).transform().turn())
            } else {
                old(self).transform().phase()
            }),
            final(self).transform().phase() < final(self).transform().turn(),
            final(self).scheduler() == old(self).scheduler(),
    {
        let dt = self.clock.sample(now);
        let rejected = self.handle_events(events);
        let render = match self.state {
            LoopState::Running => true,
            LoopState::Stopped => false,
        };
        if render {
            self.transform.advance(dt);
        }
        proof {
            use_type_invariant(&self.transform);
        }
        FramePlan { render, dt, rejected_resizes: rejected }
    }

    /// Ends a frame whose work took `work`: accounts for it and says how to
    /// spend the rest of the frame period.
    pub fn end_frame(&mut self, work: Span) -> (p: Pace)
        requires
            old(self).scheduler().stats().frame_count < u64::MAX,
        ensures
            final(self).scheduler().period() == old(self).scheduler().period(),
            final(self).scheduler().stats()@ == paced(
                old(self).scheduler().stats()@,
                old(self).scheduler().period()@,
                work@,
            ),
            match sleep_owed(old(self).scheduler().period()@, work@) {
                Some(d) => p matches Pace::Sleep(s) && s@ == d,
                None => p == Pace::Skip,
            },
            final(self).state() == old(self).state(),
            final(self).clock() == old(self).clock(),
            final(self).transform() == old(self).transform(),
    {
        self.scheduler.pace(work)
    }

    /// Accounts for a sleep that really took `actual`.
    pub fn finish_sleep(&mut self, actual: Span)
        ensures
            final(self).scheduler().period() == old(self).scheduler().period(),
            final(self).scheduler().stats()@ == slept(old(self).scheduler().stats()@, actual@),
            final(self).state() == old(self).state(),
            final(self).clock() == old(self).clock(),
            final(self).transform() == old(self).transform(),
    {
        self.scheduler.record_sleep(actual)
    }

    /// Whether the loop goes on.
    pub fn is_running(&self) -> (b: bool)
        ensures
            b == (self.state() == LoopState::Running),
    {
        match self.state {
            LoopState::Running => true,
            LoopState::Stopped => false,
        }
    }

    /// The rotation and projection state.
    pub fn transform_state(&self) -> (t: TransformState)
        ensures
            t == self.transform(),
    {
        self.transform
    }

    /// The view-projection block as it stands.
    pub fn snapshot(&self) -> (b: ViewProjectionBlock)
        ensures
            b == block_for(self.transform().aspect()),
    {
        self.transform.snapshot()
    }

    /// The timing statistics so far.
    pub fn frame_stats(&self) -> (s: FrameStats)
        ensures
            s == self.scheduler().stats(),
    {
        self.scheduler.frame_stats()
    }
}

} // verus!
