//! A fixed-capacity window over the most recent samples.
use std::collections::VecDeque;
use vstd::prelude::*;
use crate::pow2::{is_next_pow2, nearest_power_of_two};

verus! {

/// What the window holds after `s` is appended to `w` under capacity `cap`:
/// the oldest element leaves when the length would exceed `cap`.
pub open spec fn push_window<T>(w: Seq<T>, s: T, cap: nat) -> Seq<T> {
    if w.len() + 1 > cap {
        w.push(s).drop_first()
    } else {
        w.push(s)
    }
}

/// What the window holds after each element of `pushes` is appended in turn to `w`.
pub open spec fn push_all<T>(w: Seq<T>, pushes: Seq<T>, cap: nat) -> Seq<T>
    decreases pushes.len(),
{
    if pushes.len() == 0 {
        w
    } else {
        push_window(push_all(w, pushes.drop_last(), cap), pushes.last(), cap)
    }
}

/// The last `min(n, cap)` elements of `pushes`, in their order.
pub open spec fn most_recent<T>(pushes: Seq<T>, cap: nat) -> Seq<T> {
    if pushes.len() <= cap {
        pushes
    } else {
        pushes.subrange(pushes.len() - cap, pushes.len() as int)
    }
}

/// A window over the most recent samples, oldest first, whose capacity is a
/// power of two.
pub struct RollingSampleBuffer<T> {
    capacity: usize,
    samples: VecDeque<T>,
}

impl<T> View for RollingSampleBuffer<T> {
    type V = Seq<T>;

    closed spec fn view(&self) -> Seq<T> {
        self.samples@
    }
}

impl<T> RollingSampleBuffer<T> {
    /// The effective capacity.
    pub closed spec fn cap(&self) -> nat {
        self.capacity as nat
    }

    pub closed spec fn wf(&self) -> bool {
        &&& 1 <= self.capacity
        &&& self.samples@.len() <= self.capacity
    }

    /// An empty window whose capacity is `capacity` rounded up to a power of two.
    pub fn new(capacity: usize) -> (r: Self)
        requires
            capacity <= usize::MAX / 2 + 1,
        ensures
            r.wf(),
            r@ == Seq::<T>::empty(),
            is_next_pow2(capacity as nat, r.cap()),
            1 <= r.cap(),
    {
        let p = nearest_power_of_two(capacity);
        RollingSampleBuffer { capacity: p, samples: VecDeque::new() }
    }

    /// A well-formed window never holds more than its capacity, which is at
    /// least 1.
    pub proof fn lemma_bounded(&self)
        requires
            self.wf(),
        ensures
            self@.len() <= self.cap(),
            1 <= self.cap(),
    {
    }

    pub fn capacity(&self) -> (r: usize)
        ensures
            r == self.cap(),
    {
        self.capacity
    }

    pub fn len(&self) -> (r: usize)
        requires
            self.wf(),
        ensures
            r == self@.len(),
    {
        self.samples.len()
    }

    /// Appends `s`; drops the oldest sample when the window is over capacity.
    pub fn push(&mut self, s: T)
        requires
            old(self).wf(),
        ensures
            final(self).wf(),
            final(self).cap() == old(self).cap(),
            final(self)@ == push_window(old(self)@, s, old(self).cap()),
            final(self)@.len() <= final(self).cap(),
    {
        self.samples.push_back(s);
        if self.samples.len() > self.capacity {
            let _ = self.samples.pop_front();
        }
    }
}

impl<T: Copy> RollingSampleBuffer<T> {
    /// The samples in the window, oldest first.
    pub fn snapshot(&self) -> (r: Vec<T>)
        requires
            self.wf(),
        ensures
            r@ == self@,
    {
        let mut out: Vec<T> = Vec::new();
        let n = self.samples.len();
        let mut i: usize = 0;
        while i < n
            invariant
                n == self.samples@.len(),
                i <= n,
                out@ == self.samples@.subrange(0, i as int),
            decreases n - i,
        {
            out.push(self.samples[i]);
            i = i + 1;
        }
        assert(out@ =~= self.samples@);
        out
    }
}

/// Whatever has been pushed, the window holds exactly the most recent
/// `min(n, capacity)` of the `n` samples pushed into an empty buffer, in
/// push order.
pub proof fn lemma_window_is_most_recent<T>(pushes: Seq<T>, cap: nat)
    requires
        1 <= cap,
    ensures
        push_all(Seq::<T>::empty(), pushes, cap) == most_recent(pushes, cap),
        push_all(Seq::<T>::empty(), pushes, cap).len() == if pushes.len() <= cap {
            pushes.len()
        } else {
            cap
        },
    decreases pushes.len(),
{
    if pushes.len() > 0 {
        let prev = pushes.drop_last();
        lemma_window_is_most_recent(prev, cap);
        let w = push_all(Seq::<T>::empty(), prev, cap);
        let r = push_window(w, pushes.last(), cap);
        assert(r =~= most_recent(pushes, cap));
    }
}

} // verus!
