//! Time conversions and the queue of sleeping tasks, ordered by the time
//! at which they must be woken.

use vstd::prelude::*;
use crate::board::CLOCK_FREQ;
use vstd::std_specs::cmp::PartialEqSpecImpl;

verus! {

/// Timer interrupts per second.
pub const TICKS_PER_SEC: usize = 100;
/// Milliseconds per second.
pub const MSEC_PER_SEC: usize = 1000;

/// Time in milliseconds for a reading of the `time` counter.
pub fn get_time_ms(time: u64) -> (ms: u64)
    ensures
        ms == time / 12500,
{
    time / (CLOCK_FREQ as u64 / MSEC_PER_SEC as u64)
}

/// Time in microseconds for a reading of the `time` counter:
/// `time * 10^6 / CLOCK_FREQ`, that is `time * 2 / 25`, rounded down.
pub fn get_time_us(time: u64) -> (us: u64)
    ensures
        us == time as int * 1_000_000 / CLOCK_FREQ as int,
{
    // CLOCK_FREQ / 10^6 = 25 / 2; divide first so that nothing overflows.
    let q: u64 = time / 25;
    let r: u64 = time % 25;
    proof {
        assert(time as int * 1_000_000 / CLOCK_FREQ as int == time as int * 2 / 25) by {
            vstd::arithmetic::div_mod::lemma_div_denominator(time as int * 2, 25, 500_000);
            assert(time as int * 1_000_000 == (time as int * 2) * 500_000) by (nonlinear_arith);
            vstd::arithmetic::div_mod::lemma_div_multiples_vanish(time as int * 2, 500_000);
        }
        assert(time as int * 2 / 25 == q * 2 + r * 2 / 25) by (nonlinear_arith)
            requires
                q == time / 25,
                r == time % 25,
        ;
        assert(q * 2 <= u64::MAX) by (nonlinear_arith)
            requires
                q == time / 25,
        ;
    }
    q * 2 + r * 2 / 25
}

/// The `time` counter from its two 32-bit halves, read high, low, high
/// again: the reading is kept only when the high half did not change in
/// between (otherwise the low half may belong to another high half, and the
/// halves are read again).
pub fn combine_time_halves(high: u32, low: u32, high_again: u32) -> (t: Option<u64>)
    ensures
        high == high_again ==> t == Some((high as int * 0x1_0000_0000 + low as int) as u64),
        high != high_again ==> t is None,
{
    if high == high_again {
        let h: u64 = high as u64;
        let l: u64 = low as u64;
        let t: u64 = (h << 32u64) | l;
        assert(t == h * 0x1_0000_0000 + l) by (bit_vector)
            requires
                h < 0x1_0000_0000,
                l < 0x1_0000_0000,
                t == (h << 32u64) | l,
        ;
        Some(t)
    } else {
        None
    }
}

/// The two conversions agree: whole milliseconds are whole microseconds
/// divided by 1000, and both grow with the counter.
pub proof fn lemma_time_units_agree(time: u64, later: u64)
    ensures
        (time as int * 1_000_000 / CLOCK_FREQ as int) / 1000 == time / 12500,
        time <= later ==> time / 12500 <= later / 12500,
        time <= later ==> time as int * 1_000_000 / CLOCK_FREQ as int <= later as int * 1_000_000
            / CLOCK_FREQ as int,
{
    let t = time as int;
    vstd::arithmetic::div_mod::lemma_div_denominator(t * 2, 25, 1000);
    assert(t * 1_000_000 / 12_500_000 == t * 2 / 25) by (nonlinear_arith);
    assert(t * 2 / 25000 == t / 12500) by (nonlinear_arith);
    if time <= later {
        vstd::arithmetic::div_mod::lemma_div_is_ordered(t, later as int, 12500);
        vstd::arithmetic::div_mod::lemma_div_is_ordered(
            t * 1_000_000,
            later as int * 1_000_000,
            12_500_000,
        );
    }
}

/// The compare value that sets the next timer interrupt one tick
/// (`CLOCK_FREQ / TICKS_PER_SEC` counts) after the reading `time`.
pub fn set_next_trigger(time: u64) -> (next: u64)
    requires
        time + 125000 <= u64::MAX,
    ensures
        next == time + 125000,
{
    time + CLOCK_FREQ as u64 / TICKS_PER_SEC as u64
}

/// A task waiting until a given time.
#[derive(Clone, Copy, Debug, Eq)]
pub struct TimerCondVar {
    /// Time, in milliseconds, at which the task is woken.
    pub expire_ms: usize,
    /// The waiting task.
    pub task: usize,
}

/// Timers compare by their expiry time alone.
impl PartialEq for TimerCondVar {
    fn eq(&self, other: &Self) -> (r: bool) {
        self.expire_ms == other.expire_ms
    }
}

impl PartialEqSpecImpl for TimerCondVar {
    open spec fn obeys_eq_spec() -> bool {
        true
    }

    open spec fn eq_spec(&self, other: &Self) -> bool {
        self.expire_ms == other.expire_ms
    }
}

/// Whether timers are in the order in which they expire.
pub open spec fn sorted_by_expire(s: Seq<TimerCondVar>) -> bool {
    forall|i: int, j: int| 0 <= i <= j < s.len() ==> s[i].expire_ms <= s[j].expire_ms
}

/// Whether a timer has expired at `now`.
pub open spec fn expired(now: usize) -> spec_fn(TimerCondVar) -> bool {
    |t: TimerCondVar| t.expire_ms <= now
}

/// Whether a timer is still pending at `now`.
pub open spec fn pending(now: usize) -> spec_fn(TimerCondVar) -> bool {
    |t: TimerCondVar| t.expire_ms > now
}

/// Whether a timer belongs to a task other than `task`.
pub open spec fn not_of(task: usize) -> spec_fn(TimerCondVar) -> bool {
    |t: TimerCondVar| t.task != task
}

/// The tasks of a sequence of timers, in the same order.
pub open spec fn tasks_of(s: Seq<TimerCondVar>) -> Seq<usize> {
    s.map_values(|t: TimerCondVar| t.task)
}

/// The timers of the sleeping tasks, the one that expires first at the front.
pub struct TimerQueue {
    timers: Vec<TimerCondVar>,
}

impl View for TimerQueue {
    /// The timers, in the order in which they are woken.
    type V = Seq<TimerCondVar>;

    closed spec fn view(&self) -> Seq<TimerCondVar> {
        self.timers@
    }
}

impl TimerQueue {
    /// Whether the timers are kept in expiry order.
    pub open spec fn wf(&self) -> bool {
        sorted_by_expire(self@)
    }

    /// An empty queue.
    pub fn new() -> (q: Self)
        ensures
            q.wf(),
            q@ == Seq::<TimerCondVar>::empty(),
    {
        TimerQueue { timers: Vec::new() }
    }

    /// Number of waiting timers.
    pub fn len(&self) -> (n: usize)
        ensures
            n == self@.len(),
    {
        self.timers.len()
    }

    /// The `i`-th timer in wake order.
    pub fn get(&self, i: usize) -> (t: TimerCondVar)
        requires
            i < self@.len(),
        ensures
            t == self@[i as int],
    {
        self.timers[i]
    }

    /// Add a timer for `task` expiring at `expire_ms`; it is woken after the
    /// timers that expire no later, before those that expire later.
    pub fn add_timer(&mut self, expire_ms: usize, task: usize)
        requires
            old(self).wf(),
        ensures
            final(self).wf(),
            exists|pos: int|
                {
                    &&& 0 <= pos <= old(self)@.len()
                    &&& final(self)@ == old(self)@.insert(pos, TimerCondVar { expire_ms, task })
                    &&& forall|i: int| 0 <= i < pos ==> old(self)@[i].expire_ms <= expire_ms
                    &&& forall|i: int| pos <= i < old(self)@.len() ==> expire_ms < old(self)@[i].expire_ms
                },
    {
        let mut pos: usize = 0;
        while pos < self.timers.len() && self.timers[pos].expire_ms <= expire_ms
            invariant
                0 <= pos <= self.timers@.len(),
                forall|i: int| 0 <= i < pos ==> self.timers@[i].expire_ms <= expire_ms,
            decreases self.timers@.len() - pos,
        {
            pos = pos + 1;
        }
        let ghost before = self@;
        self.timers.insert(pos, TimerCondVar { expire_ms, task });
        proof {
            let t = TimerCondVar { expire_ms, task };
            assert(self@ =~= before.insert(pos as int, t));
            assert forall|i: int| pos <= i < before.len() implies expire_ms < before[i].expire_ms by {
                assert(before[pos as int].expire_ms > expire_ms);
            }
            assert forall|i: int, j: int| 0 <= i <= j < self@.len() implies self@[i].expire_ms
                <= self@[j].expire_ms by {
                if i < pos && j > pos {
                    assert(self@[j] == before[j - 1]);
                } else if i < pos && j == pos {
                } else if i == pos && j > pos {
                    assert(self@[j] == before[j - 1]);
                } else if i > pos {
                    assert(self@[j] == before[j - 1]);
                    assert(self@[i] == before[i - 1]);
                }
            }
        }
    }

    /// Remove every timer of `task`, keeping the others in order.
    pub fn remove_timer(&mut self, task: usize)
        requires
            old(self).wf(),
        ensures
            final(self).wf(),
            final(self)@ == old(self)@.filter(not_of(task)),
    {
        let mut temp: Vec<TimerCondVar> = Vec::new();
        let mut i: usize = 0;
        while i < self.timers.len()
            invariant
                0 <= i <= self.timers@.len(),
                temp@ == self.timers@.take(i as int).filter(not_of(task)),
            decreases self.timers@.len() - i,
        {
            let t = self.timers[i];
            proof {
                assert(self.timers@.take(i as int + 1) =~= self.timers@.take(i as int).push(t));
                self.timers@.take(i as int).lemma_filter_push(t, not_of(task));
            }
            if t.task != task {
                temp.push(t);
            }
            i = i + 1;
        }
        proof {
            assert(self.timers@.take(i as int) =~= self.timers@);
            lemma_filter_keeps_order(self.timers@, not_of(task));
        }
        self.timers = temp;
    }

    /// Wake the timers that have expired at `current_ms`: their tasks are
    /// returned in expiry order, and the pending timers stay.
    pub fn check_timer(&mut self, current_ms: usize) -> (woken: Vec<usize>)
        requires
            old(self).wf(),
        ensures
            final(self).wf(),
            woken@ == tasks_of(old(self)@.filter(expired(current_ms))),
            final(self)@ == old(self)@.filter(pending(current_ms)),
    {
        let mut k: usize = 0;
        let mut woken: Vec<usize> = Vec::new();
        while k < self.timers.len() && self.timers[k].expire_ms <= current_ms
            invariant
                0 <= k <= self.timers@.len(),
                forall|i: int| 0 <= i < k ==> self.timers@[i].expire_ms <= current_ms,
                woken@ == tasks_of(self.timers@.take(k as int)),
            decreases self.timers@.len() - k,
        {
            woken.push(self.timers[k].task);
            k = k + 1;
            proof {
                assert(tasks_of(self.timers@.take(k as int)) =~= woken@);
            }
        }
        let mut rest: Vec<TimerCondVar> = Vec::new();
        let mut j: usize = k;
        while j < self.timers.len()
            invariant
                k <= j <= self.timers@.len(),
                rest@ == self.timers@.subrange(k as int, j as int),
            decreases self.timers@.len() - j,
        {
            rest.push(self.timers[j]);
            j = j + 1;
            proof {
                assert(rest@ =~= self.timers@.subrange(k as int, j as int));
            }
        }
        proof {
            let s = self.timers@;
            assert(k < s.len() ==> s[k as int].expire_ms > current_ms);
            lemma_sorted_split(s, k as int, current_ms);
        }
        self.timers = rest;
        woken
    }
}

/// Filtering a sequence of timers keeps expiry order.
proof fn lemma_filter_keeps_order(s: Seq<TimerCondVar>, p: spec_fn(TimerCondVar) -> bool)
    requires
        sorted_by_expire(s),
    ensures
        sorted_by_expire(s.filter(p)),
    decreases s.len(),
{
    reveal(Seq::filter);
    if s.len() > 0 {
        lemma_filter_keeps_order(s.drop_last(), p);
        let sub = s.drop_last().filter(p);
        if p(s.last()) {
            assert forall|i: int| 0 <= i < sub.len() implies sub[i].expire_ms <= s.last().expire_ms by {
                s.drop_last().lemma_filter_contains_rev(p, sub[i]);
                assert(sub.contains(sub[i]));
                let k = choose|k: int| 0 <= k < s.drop_last().len() && s.drop_last()[k] == sub[i];
            }
        }
    }
}

/// In a sorted sequence whose first `k` timers are exactly those expired at
/// `now`, filtering by expiry splits it at `k`.
proof fn lemma_sorted_split(s: Seq<TimerCondVar>, k: int, now: usize)
    requires
        sorted_by_expire(s),
        0 <= k <= s.len(),
        forall|i: int| 0 <= i < k ==> s[i].expire_ms <= now,
        k < s.len() ==> s[k].expire_ms > now,
    ensures
        s.filter(expired(now)) == s.take(k),
        s.filter(pending(now)) == s.subrange(k, s.len() as int),
        sorted_by_expire(s.subrange(k, s.len() as int)),
    decreases s.len(),
{
    reveal(Seq::filter);
    if s.len() == 0 {
        assert(s.take(k) =~= s);
        assert(s.subrange(k, s.len() as int) =~= s);
    } else if k == s.len() {
        lemma_sorted_split(s.drop_last(), k - 1, now);
        assert(s.drop_last().take(k - 1).push(s.last()) =~= s.take(k));
        assert(s.drop_last().subrange(k - 1, k - 1) =~= s.subrange(k, k));
    } else {
        lemma_sorted_split(s.drop_last(), k, now);
        assert(s.last().expire_ms > now);
        assert(s.drop_last().take(k) =~= s.take(k));
        assert(s.drop_last().subrange(k, s.len() - 1).push(s.last()) =~= s.subrange(
            k,
            s.len() as int,
        ));
    }
}


/// A timer that has expired when the queue is checked has its task woken:
/// once added (at any place), a timer expiring at or before `now` is among
/// those that a check at `now` wakes.
pub proof fn lemma_added_timer_is_woken(
    before: Seq<TimerCondVar>,
    pos: int,
    t: TimerCondVar,
    now: usize,
)
    requires
        0 <= pos <= before.len(),
        t.expire_ms <= now,
    ensures
        tasks_of(before.insert(pos, t).filter(expired(now))).contains(t.task),
{
    let after = before.insert(pos, t);
    assert(after[pos] == t);
    after.lemma_filter_contains(expired(now), pos);
    let f = after.filter(expired(now));
    let k = choose|k: int| 0 <= k < f.len() && f[k] == t;
    assert(tasks_of(f)[k] == t.task);
}

/// After the timers of a task are removed, no check wakes that task.
pub proof fn lemma_removed_task_is_never_woken(s: Seq<TimerCondVar>, task: usize, now: usize)
    ensures
        !tasks_of(s.filter(not_of(task)).filter(expired(now))).contains(task),
{
    let f = s.filter(not_of(task)).filter(expired(now));
    if tasks_of(f).contains(task) {
        let k = choose|k: int| 0 <= k < tasks_of(f).len() && tasks_of(f)[k] == task;
        s.filter(not_of(task)).lemma_filter_contains_rev(expired(now), f[k]);
        assert(f.contains(f[k]));
        assert(s.filter(not_of(task)).contains(f[k]));
        let m = choose|m: int|
            0 <= m < s.filter(not_of(task)).len() && s.filter(not_of(task))[m] == f[k];
        s.lemma_filter_pred(not_of(task), m);
    }
}

/// A check loses no timer: every timer is either woken or still waiting.
pub proof fn lemma_check_partitions(s: Seq<TimerCondVar>, now: usize)
    ensures
        s.filter(expired(now)).len() + s.filter(pending(now)).len() == s.len(),
    decreases s.len(),
{
    reveal(Seq::filter);
    if s.len() > 0 {
        lemma_check_partitions(s.drop_last(), now);
    }
}

} // verus!
