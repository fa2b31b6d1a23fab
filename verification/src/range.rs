//! Ranges of values that can be stepped through one at a time, such as
//! ranges of virtual page numbers.

use vstd::prelude::*;
use vstd::std_specs::cmp::PartialOrdSpecImpl;
use vstd::std_specs::cmp::PartialEqSpecImpl;
use vstd::std_specs::cmp::PartialOrdIs;
use vstd::std_specs::cmp::PartialEqIs;
use vstd::std_specs::cmp::PartialEqSpec;
use vstd::std_specs::cmp::PartialOrdSpec;
use core::cmp::Ordering;
use crate::address::VirtPageNum;

verus! {

/// Step by one trait
pub trait StepByOne: Sized {
    /// The value one step further.
    spec fn next_step(&self) -> Self;

    /// Whether one more step can be taken.
    spec fn can_step(&self) -> bool;

    /// Step
    fn step(&mut self)
        requires
            old(self).can_step(),
        ensures
            *final(self) == old(self).next_step(),
    ;
}

impl StepByOne for VirtPageNum {
    open spec fn next_step(&self) -> Self {
        VirtPageNum((self.0 + 1) as usize)
    }

    open spec fn can_step(&self) -> bool {
        self.0 < usize::MAX
    }

    fn step(&mut self) {
        self.0 = self.0 + 1;
    }
}

impl PartialEq for VirtPageNum {
    fn eq(&self, other: &Self) -> (r: bool) {
        self.0 == other.0
    }
}

impl PartialEqSpecImpl for VirtPageNum {
    open spec fn obeys_eq_spec() -> bool {
        true
    }

    open spec fn eq_spec(&self, other: &Self) -> bool {
        self.0 == other.0
    }
}

impl PartialOrd for VirtPageNum {
    fn partial_cmp(&self, other: &Self) -> (r: Option<Ordering>) {
        if self.0 < other.0 {
            Some(Ordering::Less)
        } else if self.0 == other.0 {
            Some(Ordering::Equal)
        } else {
            Some(Ordering::Greater)
        }
    }
}

impl PartialOrdSpecImpl for VirtPageNum {
    open spec fn obeys_partial_cmp_spec() -> bool {
        true
    }

    open spec fn partial_cmp_spec(&self, other: &Self) -> Option<Ordering> {
        if self.0 < other.0 {
            Some(Ordering::Less)
        } else if self.0 == other.0 {
            Some(Ordering::Equal)
        } else {
            Some(Ordering::Greater)
        }
    }
}

/// A simple range structure for type T
#[derive(Clone, Copy)]
pub struct SimpleRange<T> where T: StepByOne + Copy + PartialEq + PartialOrd {
    l: T,
    r: T,
}

impl<T> View for SimpleRange<T> where T: StepByOne + Copy + PartialEq + PartialOrd {
    /// The start and the end of the range.
    type V = (T, T);

    closed spec fn view(&self) -> (T, T) {
        (self.l, self.r)
    }
}

impl<T> SimpleRange<T> where T: StepByOne + Copy + PartialEq + PartialOrd {
    /// Create new range
    pub fn new(start: T, end: T) -> (r: Self)
        requires
            T::obeys_partial_cmp_spec(),
            start.is_le(&end),
        ensures
            r@ == (start, end),
    {
        Self { l: start, r: end }
    }

    /// Get start
    pub fn get_start(&self) -> (r: T)
        ensures
            r == self@.0,
    {
        self.l
    }

    /// Get end
    pub fn get_end(&self) -> (r: T)
        ensures
            r == self@.1,
    {
        self.r
    }

    /// An iterator over the range, from its start.
    pub fn into_iter(self) -> (it: SimpleRangeIterator<T>)
        ensures
            it@ == self@,
    {
        SimpleRangeIterator::new(self.l, self.r)
    }
}

/// Iterator for the simple range structure
pub struct SimpleRangeIterator<T> where T: StepByOne + Copy + PartialEq + PartialOrd {
    current: T,
    end: T,
}

impl<T> View for SimpleRangeIterator<T> where T: StepByOne + Copy + PartialEq + PartialOrd {
    /// The next value to yield and the end of the range.
    type V = (T, T);

    closed spec fn view(&self) -> (T, T) {
        (self.current, self.end)
    }
}

impl<T> SimpleRangeIterator<T> where T: StepByOne + Copy + PartialEq + PartialOrd {
    /// Create new iterator
    pub fn new(l: T, r: T) -> (it: Self)
        ensures
            it@ == (l, r),
    {
        Self { current: l, end: r }
    }

    /// The next value of the range: `None` once the current value equals
    /// the end, otherwise the current value, after which the iterator steps.
    pub fn next(&mut self) -> (r: Option<T>)
        requires
            T::obeys_eq_spec(),
            !old(self)@.0.is_eq(&old(self)@.1) ==> old(self)@.0.can_step(),
        ensures
            old(self)@.0.is_eq(&old(self)@.1) ==> r is None && final(self)@ == old(self)@,
            !old(self)@.0.is_eq(&old(self)@.1) ==> r == Some(old(self)@.0) && final(self)@ == (
                old(self)@.0.next_step(),
                old(self)@.1,
            ),
    {
        if self.current == self.end {
            None
        } else {
            let t = self.current;
            self.current.step();
            Some(t)
        }
    }
}

/// A simple range structure for virtual page number
pub type VPNRange = SimpleRange<VirtPageNum>;

/// The value reached from `v` after `k` steps.
pub open spec fn steps<T: StepByOne>(v: T, k: nat) -> T
    decreases k,
{
    if k == 0 {
        v
    } else {
        steps(v, (k - 1) as nat).next_step()
    }
}

/// A range of virtual page numbers from `l` to `r` yields `l`, `l + 1`, ...,
/// `r - 1` and then stops: after `k` steps from `l` the iterator stands at
/// `l + k`, which differs from `r` (so `next` yields it and can step) until
/// `k` reaches `r - l`.
pub proof fn lemma_vpn_range_yields(l: VirtPageNum, r: VirtPageNum, k: nat)
    requires
        l.0 <= r.0,
        k <= r.0 - l.0,
    ensures
        steps(l, k) == VirtPageNum((l.0 + k) as usize),
        steps(l, k).is_eq(&r) <==> k == r.0 - l.0,
        k < r.0 - l.0 ==> steps(l, k).can_step(),
    decreases k,
{
    if k > 0 {
        lemma_vpn_range_yields(l, r, (k - 1) as nat);
    }
}

} // verus!
