//! When the native engine is to be initialized and when it is to be shut
//! down.
//!
//! The native engine must be initialized while any computation runs. A
//! [`Lifecycle`] counts the calls in flight: the first one to arrive has
//! the engine initialized, the last one to leave has it shut down, and
//! nothing else touches it. Whoever owns the `Lifecycle` carries the
//! actions out, under whatever lock guards it.
//!
//! A call that enters is handed a [`Permit`], and leaves by giving it
//! back. A permit cannot be copied and cannot be made anywhere else, so
//! no call leaves twice, and none leaves that did not enter.

use vstd::prelude::*;

verus! {

/// What is to be done to the native engine.
#[derive(Clone, Copy, Debug, PartialEq, Eq, Structural)]
pub enum NativeAction {
    /// Leave the native engine as it is.
    Nothing,
    /// Initialize the native engine.
    Initialize,
    /// Shut the native engine down.
    Shutdown,
}

/// What happens to a lifecycle: a call arrives, or a call leaves.
pub enum LifecycleEvent {
    Acquire,
    Release,
}

/// The number of calls in flight after one more has entered, given that
/// `in_flight` were: one more.
pub open spec fn count_after_acquire(in_flight: nat) -> nat {
    in_flight + 1
}

/// What a call that enters is told, given that `in_flight` calls are in
/// flight already: to initialize the engine if it is the only one.
pub open spec fn action_on_acquire(in_flight: nat) -> NativeAction {
    if in_flight == 0 {
        NativeAction::Initialize
    } else {
        NativeAction::Nothing
    }
}

/// The number of calls in flight after one leaves, given that `in_flight`
/// were: one fewer, and still none where there was none.
pub open spec fn count_after_release(in_flight: nat) -> nat {
    if in_flight > 0 {
        (in_flight - 1) as nat
    } else {
        0
    }
}

/// What a call that leaves is told, given that `in_flight` calls were in
/// flight: to shut the engine down if it was the last one.
pub open spec fn action_on_release(in_flight: nat) -> NativeAction {
    if in_flight == 1 {
        NativeAction::Shutdown
    } else {
        NativeAction::Nothing
    }
}

/// The state of the native engine after `action`, where `up` says whether
/// it was initialized before.
pub open spec fn engine_after(up: bool, action: NativeAction) -> bool {
    match action {
        NativeAction::Nothing => up,
        NativeAction::Initialize => true,
        NativeAction::Shutdown => false,
    }
}

/// The calls in flight, as a counter.
#[derive(Debug, PartialEq, Eq)]
pub struct Lifecycle {
    in_flight: usize,
}

/// The right of one call to be in flight: handed out by
/// [`Lifecycle::acquire`], and used up by [`Lifecycle::release`]. It is
/// good for the lifecycle that handed it out.
#[derive(Debug)]
pub struct Permit {
    held: (),
}

impl Lifecycle {
    /// The number of calls in flight.
    pub closed spec fn in_flight(&self) -> nat {
        self.in_flight as nat
    }

    /// Whether the native engine is initialized: it is exactly while a
    /// call is in flight.
    pub open spec fn initialized(&self) -> bool {
        self.in_flight() > 0
    }

    /// Returns a lifecycle with no call in flight and the native engine
    /// not initialized.
    pub fn new() -> (lifecycle: Lifecycle)
        ensures
            lifecycle.in_flight() == 0,
    {
        Lifecycle { in_flight: 0 }
    }

    /// Returns the number of calls in flight.
    pub fn calls_in_flight(&self) -> (calls: usize)
        ensures
            calls == self.in_flight(),
    {
        self.in_flight
    }

    /// Returns whether the native engine is initialized.
    pub fn is_initialized(&self) -> (up: bool)
        ensures
            up == self.initialized(),
    {
        self.in_flight > 0
    }

    /// Lets a call enter. Returns what is to be done to the native engine
    /// before the call may use it, and the call's permit. The counter must
    /// have room for one more call.
    pub fn acquire(&mut self) -> (entered: (NativeAction, Permit))
        requires
            old(self).in_flight() < usize::MAX,
        ensures
            final(self).in_flight() == count_after_acquire(old(self).in_flight()),
            entered.0 == action_on_acquire(old(self).in_flight()),
    {
        let permit = Permit { held: () };
        if self.in_flight == 0 {
            self.in_flight = 1;
            (NativeAction::Initialize, permit)
        } else {
            self.in_flight = self.in_flight + 1;
            (NativeAction::Nothing, permit)
        }
    }

    /// Lets the call that holds `permit` leave, and returns what is to be
    /// done to the native engine once it has left. With no call in flight,
    /// which takes a permit of another lifecycle, nothing changes.
    pub fn release(&mut self, permit: Permit) -> (action: NativeAction)
        ensures
            final(self).in_flight() == count_after_release(old(self).in_flight()),
            action == action_on_release(old(self).in_flight()),
    {
        if self.in_flight == 0 {
            NativeAction::Nothing
        } else if self.in_flight == 1 {
            self.in_flight = 0;
            NativeAction::Shutdown
        } else {
            self.in_flight = self.in_flight - 1;
            NativeAction::Nothing
        }
    }
}

/// Where a history of arrivals and departures leaves things: how many
/// calls are in flight, and whether the native engine is initialized once
/// every action that was handed out has been carried out.
pub struct Course {
    pub in_flight: nat,
    pub engine_up: bool,
}

/// One event applied to a course.
pub open spec fn advance(course: Course, event: LifecycleEvent) -> Course {
    match event {
        LifecycleEvent::Acquire => Course {
            in_flight: count_after_acquire(course.in_flight),
            engine_up: engine_after(course.engine_up, action_on_acquire(course.in_flight)),
        },
        LifecycleEvent::Release => Course {
            in_flight: count_after_release(course.in_flight),
            engine_up: engine_after(course.engine_up, action_on_release(course.in_flight)),
        },
    }
}

/// The course that a history takes from a new lifecycle.
pub open spec fn replay(events: Seq<LifecycleEvent>) -> Course
    decreases events.len(),
{
    if events.len() == 0 {
        Course { in_flight: 0, engine_up: false }
    } else {
        advance(replay(events.drop_last()), events.last())
    }
}

/// In whatever order calls arrive and leave, the native engine is
/// initialized exactly while a call is in flight: no departure shuts it
/// down under another call, and no call runs before it is initialized.
pub proof fn engine_up_while_in_flight(events: Seq<LifecycleEvent>)
    ensures
        replay(events).engine_up <==> replay(events).in_flight > 0,
    decreases events.len(),
{
    if events.len() > 0 {
        engine_up_while_in_flight(events.drop_last());
    }
}

/// A call that enters and then leaves puts the lifecycle back where it
/// was. Where no other call is in flight the engine is initialized for it
/// and shut down after it; where one is, the engine is left alone.
pub proof fn enter_then_leave(in_flight: nat)
    ensures
        count_after_release(count_after_acquire(in_flight)) == in_flight,
        in_flight == 0 ==> action_on_acquire(in_flight) == NativeAction::Initialize
            && action_on_release(count_after_acquire(in_flight)) == NativeAction::Shutdown,
        in_flight > 0 ==> action_on_acquire(in_flight) == NativeAction::Nothing
            && action_on_release(count_after_acquire(in_flight)) == NativeAction::Nothing,
{
}

} // verus!
