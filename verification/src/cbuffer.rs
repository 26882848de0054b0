//! A fixed-capacity circular buffer: a ring of slots with read and write at
//! the current head and a head-advance operation.

use vstd::prelude::*;
use vstd::arithmetic::div_mod::{lemma_add_mod_noop, lemma_small_mod};

verus! {

/// Where the head lands after one advance in a ring of `len` slots.
pub open spec fn advance(idx: int, len: int) -> int {
    (idx + 1) % len
}

/// Where the head lands after `n` advances in a ring of `len` slots.
pub open spec fn advance_n(idx: int, len: int, n: nat) -> int
    decreases n,
{
    if n == 0 {
        idx
    } else {
        advance(advance_n(idx, len, (n - 1) as nat), len)
    }
}

proof fn lemma_advance_n_mod(idx: int, len: int, n: nat)
    requires
        0 <= idx < len,
    ensures
        advance_n(idx, len, n) == (idx + n) % len,
    decreases n,
{
    if n == 0 {
        lemma_small_mod(idx as nat, len as nat);
    } else {
        lemma_advance_n_mod(idx, len, (n - 1) as nat);
        lemma_add_mod_noop(idx + n - 1, 1, len);
        if len == 1 {
            lemma_small_mod(0, 1);
        } else {
            lemma_small_mod(1, len as nat);
        }
    }
}

/// Law: advancing the head as many times as the ring has slots returns it to
/// its starting slot.
pub proof fn lemma_full_cycle(idx: int, len: int)
    requires
        0 <= idx < len,
    ensures
        advance_n(idx, len, len as nat) == idx,
{
    lemma_advance_n_mod(idx, len, len as nat);
    lemma_add_mod_noop(idx, len, len);
    lemma_small_mod(idx as nat, len as nat);
}

/// A ring of `slots().len()` slots; `head()` is the index of the slot that
/// `read` and `write` touch.
pub struct CircularBuffer<T> {
    vec: Vec<T>,
    idx: usize,
}

impl<T> CircularBuffer<T> {
    /// The contents of the ring, in storage order.
    pub closed spec fn slots(self) -> Seq<T> {
        self.vec@
    }

    /// The index of the current head slot.
    pub closed spec fn head(self) -> int {
        self.idx as int
    }

    /// The ring is non-empty and the head points at one of its slots.
    pub open spec fn wf(self) -> bool {
        0 <= self.head() < self.slots().len()
    }

    /// A ring of `size` slots, each holding `default`, with the head on
    /// slot 0.
    pub fn new(size: usize, default: T) -> (c: Self) where T: Copy
        requires
            size > 0,
        ensures
            c.wf(),
            c.slots().len() == size,
            c.head() == 0,
            forall|i: int| 0 <= i < size ==> c.slots()[i] == default,
    {
        let mut v: Vec<T> = Vec::new();
        let mut i: usize = 0;
        while i < size
            invariant
                i <= size,
                v.len() == i,
                forall|j: int| 0 <= j < i ==> v@[j] == default,
            decreases size - i,
        {
            v.push(default);
            i += 1;
        }
        CircularBuffer { vec: v, idx: 0 }
    }

    /// A ring whose slots are exactly `slots`, with the head on slot 0.
    pub fn from_slots(slots: Vec<T>) -> (c: Self)
        requires
            slots.len() > 0,
        ensures
            c.wf(),
            c.slots() == slots@,
            c.head() == 0,
    {
        CircularBuffer { vec: slots, idx: 0 }
    }

    /// The element at the head slot.
    pub fn read(&self) -> (t: T) where T: Copy
        requires
            self.wf(),
        ensures
            t == self.slots()[self.head()],
    {
        self.vec[self.idx]
    }

    /// A reference to the element at the head slot.
    pub fn read_ref(&self) -> (t: &T)
        requires
            self.wf(),
        ensures
            *t == self.slots()[self.head()],
    {
        &self.vec[self.idx]
    }

    /// Replace the element at the head slot.
    pub fn write(&mut self, t: T)
        requires
            old(self).wf(),
        ensures
            final(self).wf(),
            final(self).slots() == old(self).slots().update(old(self).head(), t),
            final(self).head() == old(self).head(),
    {
        self.vec[self.idx] = t;
    }

    /// Advance the head one slot, wrapping at the end of the ring.
    pub fn tick(&mut self)
        requires
            old(self).wf(),
        ensures
            final(self).wf(),
            final(self).slots() == old(self).slots(),
            final(self).head() == advance(old(self).head(), old(self).slots().len() as int),
    {
        let len = self.vec.len();
        self.idx = (self.idx + 1) % len;
    }
}

} // verus!
