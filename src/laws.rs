use vstd::prelude::*;

use crate::callback::{Callback, CallbackVariant};
use crate::timer::{
    after_cancel, after_init, after_schedule, cancel_times, init_succeeds, teardown_of, uninit_state,
    TimerState,
};

verus! {

/// Of two initialization attempts in a row on a fresh timer, whatever callbacks
/// they carry, at most one succeeds; where the first succeeds, its callback stays
/// committed and the second changes nothing.
pub proof fn lemma_init_once(first: Callback, h1: usize, second: Callback, h2: usize)
    ensures
        ({
            let s1 = after_init(uninit_state(), first.storage_of(), h1);
            &&& !(init_succeeds(uninit_state(), h1) && init_succeeds(s1, h2))
            &&& init_succeeds(uninit_state(), h1) <==> h1 != 0
            &&& h1 != 0 ==> after_init(s1, second.storage_of(), h2) == s1
                && s1.storage == first.storage_of() && s1.handle == h1
        }),
{
}

/// Initializing an initialized timer fails and keeps its handle and closure.
pub proof fn lemma_reinit_rejected(s: TimerState, cb: Callback, created: usize)
    requires
        s.handle != 0,
    ensures
        !init_succeeds(s, created),
        after_init(s, cb.storage_of(), created) == s,
{
}

/// Canceling a disarmed timer any number of times in a row leaves it as it was,
/// disarmed after each call.
pub proof fn lemma_cancel_idempotent(s: TimerState, n: nat)
    requires
        !s.armed,
    ensures
        cancel_times(s, n) == s,
        !cancel_times(s, n).armed,
    decreases n,
{
    if n > 0 {
        lemma_cancel_idempotent(s, (n - 1) as nat);
    }
}

/// An initialized timer that has just been armed reports itself scheduled.
pub proof fn lemma_scheduled_after_arming(s: TimerState)
    requires
        s.handle != 0,
    ensures
        after_schedule(s).armed,
        after_schedule(s).handle == s.handle,
{
}

/// Arming then canceling leaves the timer reporting itself not scheduled.
pub proof fn lemma_cancel_after_arming(s: TimerState)
    ensures
        !after_cancel(after_schedule(s)).armed,
{
}

/// Destroying a timer initialized with a callback reclaims the heap closure exactly
/// when the callback was a boxed one, and a timer once destroyed reclaims nothing again.
pub proof fn lemma_teardown_reclaims_once(cb: Callback, created: usize)
    requires
        created != 0,
    ensures
        ({
            let s = after_init(uninit_state(), cb.storage_of(), created);
            &&& teardown_of(s) matches Some(t) && t.handle == created && (match cb.variant_of() {
                CallbackVariant::Boxed(w) => t.reclaim == Some(w),
                CallbackVariant::Trivial(_) => t.reclaim is None,
            })
            &&& teardown_of(uninit_state()) is None
        }),
{
}

} // verus!
