//! Time: the millisecond counter that the timer interrupt advances, the
//! sleep future, and the slots of the wakers that every tick wakes.

use crate::task::executor::Poll;
use vstd::prelude::*;

verus! {

/// Number of waker slots.
pub const WAKER_SLOTS: usize = 128;

/// Interrupt vector of the timer.
pub const TIMER_VECTOR: u8 = 48;

/// Interrupt vector of the first I/O APIC input; input `i` raises vector
/// `50 + i`.
pub const IOAPIC_VECTOR_BASE: u8 = 50;

/// The millisecond counter and the wakers that wait for the next tick.
/// A number in a slot names the task to wake.
pub struct Clock {
    pub time_ms: u64,
    pub wakers: [Option<u64>; 128],
}

/// The milliseconds since startup.
pub fn global_time_ms(clock: &Clock) -> (ms: u64)
    ensures
        ms == clock.time_ms,
{
    clock.time_ms
}

/// The first free slot at or after `from`, if there is one.
pub open spec fn first_free(wakers: Seq<Option<u64>>, from: int) -> Option<int>
    decreases wakers.len() - from,
{
    if from >= wakers.len() {
        None
    } else if wakers[from] is None {
        Some(from)
    } else {
        first_free(wakers, from + 1)
    }
}

/// The tasks in the slots from `from` on, in slot order.
pub open spec fn waiting_from(wakers: Seq<Option<u64>>, from: int) -> Seq<u64>
    decreases wakers.len() - from,
{
    if from >= wakers.len() {
        Seq::empty()
    } else {
        match wakers[from] {
            Some(task) => seq![task] + waiting_from(wakers, from + 1),
            None => waiting_from(wakers, from + 1),
        }
    }
}

impl Clock {
    /// A clock at zero on which nobody waits.
    pub fn new() -> (r: Self)
        ensures
            r.time_ms == 0,
            forall|i: int| 0 <= i < 128 ==> r.wakers[i] is None,
    {
        Clock { time_ms: 0, wakers: [None;128] }
    }

    /// Enters task `task` in the first free slot and returns the number
    /// of the slot. If no slot is free the task is not entered, and the
    /// result is zero.
    pub fn add_waker(&mut self, task: u64) -> (slot: u64)
        ensures
            final(self).time_ms == old(self).time_ms,
            match first_free(old(self).wakers@, 0) {
                Some(i) => slot == i && final(self).wakers@ == old(self).wakers@.update(
                    i,
                    Some(task),
                ),
                None => slot == 0 && final(self).wakers@ == old(self).wakers@,
            },
    {
        let mut index: usize = 0;
        while index < 128
            invariant
                index <= 128,
                *self == *old(self),
                first_free(self.wakers@, 0) == first_free(self.wakers@, index as int),
            decreases 128 - index,
        {
            if self.wakers[index].is_none() {
                self.wakers[index] = Some(task);
                return index as u64;
            }
            index += 1;
        }
        0
    }

    /// One tick of the timer: the counter goes up by one, wrapping at
    /// 2^64, and every task in a slot is to be woken, in slot order; the
    /// slots are then free.
    pub fn tick(&mut self) -> (woken: Vec<u64>)
        ensures
            final(self).time_ms == (old(self).time_ms + 1) % 0x1_0000_0000_0000_0000,
            woken@ == waiting_from(old(self).wakers@, 0),
            forall|i: int| 0 <= i < 128 ==> final(self).wakers[i] is None,
    {
        self.time_ms = self.time_ms.wrapping_add(1);
        let mut woken: Vec<u64> = Vec::new();
        let mut index: usize = 128;
        proof {
            assert(woken@ =~= waiting_from(old(self).wakers@, 128));
        }
        while index > 0
            invariant
                index <= 128,
                self.time_ms == (old(self).time_ms + 1) % 0x1_0000_0000_0000_0000,
                forall|i: int| 0 <= i < index ==> self.wakers[i] == old(self).wakers[i],
                forall|i: int| index <= i < 128 ==> self.wakers[i] is None,
                woken@ == reversed(waiting_from(old(self).wakers@, index as int)),
            decreases index,
        {
            index -= 1;
            match self.wakers[index] {
                Some(task) => {
                    proof {
                        let rest = waiting_from(old(self).wakers@, index + 1);
                        assert(reversed(seq![task] + rest) =~= reversed(rest).push(task)) by {
                            lemma_reversed_cons(task, rest);
                        }
                    }
                    woken.push(task);
                },
                None => {},
            }
            self.wakers[index] = None;
        }
        let ghost backwards = woken@;
        let woken: Vec<u64> = turned(woken);
        proof {
            lemma_reversed_twice(waiting_from(old(self).wakers@, 0));
        }
        woken
    }
}

/// `s` back to front.
pub open spec fn reversed(s: Seq<u64>) -> Seq<u64> {
    Seq::new(s.len(), |i: int| s[s.len() - 1 - i])
}

/// Turning round a sequence that starts with `x` puts `x` last.
pub proof fn lemma_reversed_cons(x: u64, s: Seq<u64>)
    ensures
        reversed(seq![x] + s) == reversed(s).push(x),
{
    assert(reversed(seq![x] + s) =~= reversed(s).push(x));
}

/// Turning a sequence round twice gives the sequence.
pub proof fn lemma_reversed_twice(s: Seq<u64>)
    ensures
        reversed(reversed(s)) == s,
{
    assert(reversed(reversed(s)) =~= s);
}

/// The values of `v`, back to front.
pub fn turned(v: Vec<u64>) -> (r: Vec<u64>)
    ensures
        r@ == reversed(v@),
{
    let mut r: Vec<u64> = Vec::with_capacity(v.len());
    let mut i: usize = v.len();
    while i > 0
        invariant
            i <= v@.len(),
            r@.len() == v@.len() - i,
            forall|k: int| 0 <= k < r@.len() ==> r@[k] == v@[v@.len() - 1 - k],
        decreases i,
    {
        i -= 1;
        r.push(v[i]);
    }
    assert(r@ =~= reversed(v@));
    r
}

/// A sleep: it ends when the counter reaches `stop`.
#[derive(Clone, Copy, Debug, PartialEq, Eq, Structural)]
pub struct Timer {
    stop: u64,
}

impl Timer {
    /// The millisecond at which the sleep ends.
    pub closed spec fn stop(&self) -> u64 {
        self.stop
    }

    /// The millisecond at which the sleep ends.
    pub fn deadline(&self) -> (ms: u64)
        ensures
            ms == self.stop(),
    {
        self.stop
    }

    /// A sleep of `ms` milliseconds that starts now.
    pub fn new(clock: &Clock, ms: u64) -> (r: Self)
        requires
            clock.time_ms + ms <= u64::MAX,
        ensures
            r.stop() == clock.time_ms + ms,
    {
        Timer { stop: global_time_ms(clock) + ms }
    }

    /// Polls the sleep on behalf of task `task`. The sleep is over when
    /// the counter has reached its end; until then every poll enters
    /// the task in a waker slot, so that the next tick wakes it.
    pub fn poll(&self, clock: &mut Clock, task: u64) -> (r: Poll)
        ensures
            final(clock).time_ms == old(clock).time_ms,
            old(clock).time_ms >= self.stop() ==> r == Poll::Ready && final(clock).wakers == old(clock).wakers,
            old(clock).time_ms < self.stop() ==> r == Poll::Pending && match first_free(
                old(clock).wakers@,
                0,
            ) {
                Some(i) => final(clock).wakers@ == old(clock).wakers@.update(i, Some(task)),
                None => final(clock).wakers@ == old(clock).wakers@,
            },
    {
        if global_time_ms(clock) >= self.stop {
            return Poll::Ready;
        }
        let _slot: u64 = clock.add_waker(task);
        if global_time_ms(clock) >= self.stop {
            Poll::Ready
        } else {
            Poll::Pending
        }
    }
}

/// A sleep of `ms` milliseconds that starts now.
pub fn a_sleep(clock: &Clock, ms: u64) -> (r: Timer)
    requires
        clock.time_ms + ms <= u64::MAX,
    ensures
        r.stop() == clock.time_ms + ms,
{
    Timer::new(clock, ms)
}

/// Whether a busy wait of `ms` milliseconds that began at `start` is
/// over at `now`: more than `ms` milliseconds have passed.
pub fn wait_block(start: u64, ms: u64, now: u64) -> (over: bool)
    requires
        start + ms <= u64::MAX,
    ensures
        over == (now > start + ms),
{
    now > start + ms
}

} // verus!
