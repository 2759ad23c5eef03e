//! The cooperative single-task executor: drives one asynchronous
//! computation to completion on the calling thread, suspending between
//! polls and resuming on an explicit wake. One computation, one thread,
//! no cancellation, no timeout.

use vstd::prelude::*;

verus! {

/// The pending-wake token of a park/unpark pair. `raise` is the wake
/// primitive: it may be called once or many times and the post-state is
/// the same, so wakes coalesce; and a wake that arrives before the park
/// is not lost, since `park` with the token raised returns at once.
#[derive(Clone, Copy, Debug, PartialEq, Eq, Structural)]
pub struct WakeFlag {
    pub raised: bool,
}

impl WakeFlag {
    /// A fresh token with no wake pending.
    pub fn new() -> (w: WakeFlag)
        ensures
            !w.raised,
    {
        WakeFlag { raised: false }
    }

    /// The wake primitive. Idempotent by construction: the post-state
    /// does not depend on how often the token was raised before.
    pub fn raise(&mut self)
        ensures
            *final(self) == (WakeFlag { raised: true }),
    {
        self.raised = true;
    }

    /// Whether a wake is pending.
    pub fn is_raised(&self) -> (r: bool)
        ensures
            r == self.raised,
    {
        self.raised
    }

    /// The suspension point. The caller may only suspend once its wake
    /// is guaranteed, which this sequential model compresses to "already
    /// pending": the park then returns at once, consuming the token —
    /// the race-free half of the no-missed-wake guarantee.
    pub fn park(&mut self)
        requires
            old(self).raised,
        ensures
            !final(self).raised,
    {
        self.raised = false;
    }
}

/// One asynchronous computation, as the executor sees it. A poll either
/// yields the result or reports that progress waits on a dependency.
/// `pending()` counts the polls that will still come back empty,
/// `value()` is the result the computation is committed to, and
/// `polls()` counts the polls made so far.
pub trait Computation {
    type Output;

    spec fn pending(&self) -> nat;

    spec fn value(&self) -> Self::Output;

    spec fn polls(&self) -> nat;

    /// One poll. A pending computation arranges its wake before
    /// reporting "not ready": in this sequential model the wake is
    /// already raised when such a poll returns, standing in for "the
    /// dependency will call the wake primitive from its own thread".
    fn poll(&mut self, wake: &mut WakeFlag) -> (r: Option<Self::Output>)
        ensures
            final(self).polls() == old(self).polls() + 1,
            final(self).value() == old(self).value(),
            old(self).pending() == 0 ==> r == Some(old(self).value()) && final(self).pending()
                == 0,
            old(self).pending() > 0 ==> r is None && final(self).pending() == (old(
                self,
            ).pending() - 1) as nat && final(wake).raised,
    ;
}

/// Runs one computation to completion on the calling thread and returns
/// its result. The executor returns exactly when the computation is done
/// — after `pending() + 1` polls, one park (one wake) per empty poll —
/// never earlier, and never later: every empty poll has its wake already
/// arranged, so no park can hang on a lost wake.
pub fn block_on<C: Computation>(c: &mut C) -> (r: C::Output)
    ensures
        r == old(c).value(),
        final(c).pending() == 0,
        final(c).polls() == old(c).polls() + old(c).pending() + 1,
{
    let mut wake = WakeFlag::new();
    loop
        invariant
            c.value() == old(c).value(),
            c.polls() + c.pending() == old(c).polls() + old(c).pending(),
        decreases c.pending(),
    {
        match c.poll(&mut wake) {
            Some(v) => {
                return v;
            },
            None => {
                wake.park();
            },
        }
    }
}

/// A computation that completes after a programmed number of empty
/// polls. Each empty poll models one dependency resolution and raises
/// the wake exactly as a completion callback would; after the programmed
/// count, the next poll delivers the result.
pub struct CountdownComputation {
    /// Polls that will still come back empty.
    pub remaining: u32,
    /// The result delivered once `remaining` reaches zero.
    pub result: u64,
    /// How many polls were made, as ghost bookkeeping.
    pub polled: Ghost<nat>,
}

impl CountdownComputation {
    /// A computation that reports "not ready" `wakes_needed` times, one
    /// wake each, before delivering `result`.
    pub fn new(wakes_needed: u32, result: u64) -> (c: CountdownComputation)
        ensures
            c.pending() == wakes_needed,
            c.value() == result,
            c.polls() == 0,
    {
        CountdownComputation { remaining: wakes_needed, result, polled: Ghost(0) }
    }
}

impl Computation for CountdownComputation {
    type Output = u64;

    open spec fn pending(&self) -> nat {
        self.remaining as nat
    }

    open spec fn value(&self) -> u64 {
        self.result
    }

    open spec fn polls(&self) -> nat {
        self.polled@
    }

    fn poll(&mut self, wake: &mut WakeFlag) -> (r: Option<u64>) {
        self.polled = Ghost(self.polled@ + 1);
        if self.remaining == 0 {
            Some(self.result)
        } else {
            self.remaining = self.remaining - 1;
            wake.raise();
            None
        }
    }
}

} // verus!
