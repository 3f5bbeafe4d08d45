use vstd::prelude::*;

use crate::callback::Callback;
use crate::time::Span;

verus! {

/// What a timer holds: its native handle (0 while uninitialized), whether it is
/// armed, and the heap closure it must reclaim.
#[derive(PartialEq, Eq, Structural, Clone, Copy, Debug)]
pub struct TimerState {
    pub handle: usize,
    pub armed: bool,
    pub storage: Option<usize>,
}

/// What the native layer must do to arm a timer.
#[derive(PartialEq, Eq, Structural, Clone, Copy, Debug)]
pub struct Arming {
    /// The native timer to configure.
    pub handle: usize,
    /// The timer was armed before (re-arming without `cancel`, which is unsupported):
    /// pause it before configuring it again, so pauses and resumes stay balanced.
    pub pause_first: bool,
    /// Delay before the first expiry.
    pub timeout: Span,
    /// Period between later expiries; `None` for a single expiry.
    pub interval: Option<Span>,
}

/// What the native layer must do to destroy an initialized timer.
#[derive(PartialEq, Eq, Structural, Clone, Copy, Debug)]
pub struct Teardown {
    /// The native timer to stop and release.
    pub handle: usize,
    /// Whether it was armed when destroyed.
    pub armed: bool,
    /// The heap closure to reclaim through its own type, once the native timer is released.
    pub reclaim: Option<usize>,
}

/// The state of a timer that holds no native object.
pub open spec fn uninit_state() -> TimerState {
    TimerState { handle: 0, armed: false, storage: None }
}

/// Only an initialized timer is armed or holds a closure.
pub open spec fn state_wf(s: TimerState) -> bool {
    s.handle == 0 ==> !s.armed && s.storage is None
}

/// Whether an initialization that created native handle `created` is committed.
pub open spec fn init_succeeds(s: TimerState, created: usize) -> bool {
    s.handle == 0 && created != 0
}

/// The state after an initialization attempt with a callback whose storage is `storage`.
pub open spec fn after_init(s: TimerState, storage: Option<usize>, created: usize) -> TimerState {
    if init_succeeds(s, created) {
        TimerState { handle: created, armed: false, storage }
    } else {
        s
    }
}

/// The state after arming.
pub open spec fn after_schedule(s: TimerState) -> TimerState {
    TimerState { armed: true, ..s }
}

/// The state after disarming.
pub open spec fn after_cancel(s: TimerState) -> TimerState {
    TimerState { armed: false, ..s }
}

/// The state after `n` cancellations in a row.
pub open spec fn cancel_times(s: TimerState, n: nat) -> TimerState
    decreases n,
{
    if n == 0 {
        s
    } else {
        after_cancel(cancel_times(s, (n - 1) as nat))
    }
}

/// What destroying a timer in state `s` asks of the native layer: nothing if it
/// was never initialized.
pub open spec fn teardown_of(s: TimerState) -> Option<Teardown> {
    if s.handle == 0 {
        None
    } else {
        Some(Teardown { handle: s.handle, armed: s.armed, reclaim: s.storage })
    }
}

/// A timer: at most one native object, initialized at most once, and at most one
/// heap closure owned for as long as the native object lives.
pub struct Timer {
    handle: usize,
    armed: bool,
    storage: Option<usize>,
}

impl View for Timer {
    type V = TimerState;

    closed spec fn view(&self) -> TimerState {
        TimerState { handle: self.handle, armed: self.armed, storage: self.storage }
    }
}

impl Timer {
    /// The timer's invariant.
    pub open spec fn wf(&self) -> bool {
        state_wf(self@)
    }

    /// A timer with no native object; `init` gives it one.
    pub fn uninit() -> (r: Timer)
        ensures
            r@ == uninit_state(),
            r.wf(),
    {
        Timer { handle: 0, armed: false, storage: None }
    }

    /// A timer over the native object `created`, calling `cb`; `None` where native
    /// creation failed (`created` is 0).
    pub fn new(cb: Callback, created: usize) -> (r: Option<Timer>)
        ensures
            r is Some <==> created != 0,
            r matches Some(t) ==> t@ == after_init(uninit_state(), cb.storage_of(), created) && t.wf(),
    {
        if created == 0 {
            None
        } else {
            Some(Timer { handle: created, armed: false, storage: cb.storage() })
        }
    }

    /// The native handle of an initialized timer.
    pub fn get_inner(&self) -> (r: usize)
        requires
            self@.handle != 0,
        ensures
            r == self@.handle,
    {
        self.handle
    }

    /// The native handle, 0 while uninitialized.
    pub fn handle(&self) -> (r: usize)
        ensures
            r == self@.handle,
    {
        self.handle
    }

    /// The heap closure the timer owns, if any.
    pub fn storage(&self) -> (r: Option<usize>)
        ensures
            r == self@.storage,
    {
        self.storage
    }

    /// Whether the timer holds a native object.
    pub fn is_init(&self) -> (r: bool)
        ensures
            r == (self@.handle != 0),
    {
        self.handle != 0
    }

    /// Commits `cb` and the native object `created` to an uninitialized timer.
    /// Fails, changing nothing, where the timer is already initialized or creation
    /// failed; a nonzero `created` that is refused must then be destroyed by the caller.
    pub fn init(&mut self, cb: Callback, created: usize) -> (r: bool)
        requires
            old(self).wf(),
        ensures
            r == init_succeeds(old(self)@, created),
            final(self)@ == after_init(old(self)@, cb.storage_of(), created),
            final(self).wf(),
    {
        if self.handle != 0 || created == 0 {
            return false;
        }
        self.handle = created;
        self.armed = false;
        self.storage = cb.storage();
        true
    }

    /// Marks the timer disarmed; returns whether it was armed, that is whether the
    /// native object must be paused.
    pub fn suspend(&mut self) -> (r: bool)
        ensures
            r == old(self)@.armed,
            final(self)@ == after_cancel(old(self)@),
    {
        if self.armed {
            self.armed = false;
            true
        } else {
            false
        }
    }

    /// Marks an initialized timer armed; returns whether it was disarmed, that is
    /// whether the native object must be resumed.
    pub fn resume(&mut self) -> (r: bool)
        requires
            old(self)@.handle != 0,
        ensures
            r == !old(self)@.armed,
            final(self)@ == after_schedule(old(self)@),
    {
        if self.armed {
            false
        } else {
            self.armed = true;
            true
        }
    }

    /// Arms an initialized timer to fire once after `timeout`.
    ///
    /// Arming a timer that is already armed, without `cancel` first, is not supported:
    /// which firings of the earlier setting still happen is unspecified. `pause_first`
    /// only keeps the native object's pause count balanced in that case.
    pub fn schedule_once(&mut self, timeout: Span) -> (r: Arming)
        requires
            old(self)@.handle != 0,
        ensures
            r == (Arming { handle: old(self)@.handle, pause_first: old(self)@.armed, timeout, interval: None }),
            final(self)@ == after_schedule(old(self)@),
    {
        let pause_first = self.armed;
        self.resume();
        Arming { handle: self.get_inner(), pause_first, timeout, interval: None }
    }

    /// Arms an initialized timer to fire after `timeout`, then every `interval`.
    ///
    /// Arming a timer that is already armed, without `cancel` first, is not supported:
    /// which firings of the earlier setting still happen is unspecified. `pause_first`
    /// only keeps the native object's pause count balanced in that case.
    pub fn schedule_interval(&mut self, timeout: Span, interval: Span) -> (r: Arming)
        requires
            old(self)@.handle != 0,
        ensures
            r == (Arming { handle: old(self)@.handle, pause_first: old(self)@.armed, timeout, interval: Some(interval) }),
            final(self)@ == after_schedule(old(self)@),
    {
        let pause_first = self.armed;
        self.resume();
        Arming { handle: self.get_inner(), pause_first, timeout, interval: Some(interval) }
    }

    /// Puts back the armed state from before `arming`, which the native layer refused.
    pub fn schedule_failed(&mut self, arming: &Arming)
        requires
            old(self)@.handle != 0,
        ensures
            final(self)@ == (TimerState { armed: arming.pause_first, ..old(self)@ }),
    {
        self.armed = arming.pause_first;
    }

    /// Whether the timer has been armed and not canceled since.
    pub fn is_scheduled(&self) -> (r: bool)
        ensures
            r == self@.armed,
    {
        self.armed
    }

    /// Disarms the timer; returns whether it was armed, that is whether the native
    /// object must be disarmed. Canceling a disarmed timer changes nothing.
    pub fn cancel(&mut self) -> (r: bool)
        ensures
            r == old(self)@.armed,
            final(self)@ == after_cancel(old(self)@),
    {
        self.suspend()
    }

    /// Leaves the timer uninitialized and says what destroying its native object
    /// takes, handing over the heap closure to reclaim; `None` where it had none.
    pub fn teardown(&mut self) -> (r: Option<Teardown>)
        requires
            old(self).wf(),
        ensures
            r == teardown_of(old(self)@),
            final(self)@ == uninit_state(),
            final(self).wf(),
    {
        if self.handle == 0 {
            return None;
        }
        let t = Teardown { handle: self.handle, armed: self.armed, reclaim: self.storage };
        self.handle = 0;
        self.armed = false;
        self.storage = None;
        Some(t)
    }
}

} // verus!
