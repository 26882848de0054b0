//! The shared medium: a ring of per-tick activity bitmaps. The ring's
//! capacity is the propagation delay in ticks; each slot is an N-bit bitmap,
//! bit `i` set exactly when station `i` placed a bit on the medium in that
//! tick.

use vstd::prelude::*;
use bit_vec::BitVec;
use crate::bitmap::{bits_of, bitvec_from_elem, bitvec_get};
use crate::cbuffer::{CircularBuffer, advance};

verus! {

/// Whether the bitmap shows activity from any station other than `id`.
pub open spec fn busy_in(bitmap: Seq<bool>, id: int) -> bool {
    exists|j: int| 0 <= j < bitmap.len() && j != id && bitmap[j]
}

/// The shared channel for `nodes()` stations, with a propagation-delay ring
/// of `slots().len()` per-tick bitmaps.
pub struct Medium {
    tracks: CircularBuffer<BitVec>,
    num_nodes: usize,
}

impl Medium {
    /// The ring's contents, each slot as a sequence of per-station bits.
    pub closed spec fn slots(self) -> Seq<Seq<bool>> {
        Seq::new(self.tracks.slots().len(), |i: int| bits_of(self.tracks.slots()[i]))
    }

    /// The index of the current head slot.
    pub closed spec fn head(self) -> int {
        self.tracks.head()
    }

    /// The number of stations attached to the medium.
    pub closed spec fn nodes(self) -> nat {
        self.num_nodes as nat
    }

    /// The bitmap currently observable: the one at the head slot.
    pub open spec fn head_bits(self) -> Seq<bool> {
        self.slots()[self.head()]
    }

    /// What `is_busy` answers station `id`.
    pub open spec fn busy_for(self, id: int) -> bool {
        busy_in(self.head_bits(), id)
    }

    /// The ring is non-empty, the head is in range, and every slot is an
    /// `nodes()`-bit bitmap.
    pub open spec fn wf(self) -> bool {
        &&& 0 <= self.head() < self.slots().len()
        &&& forall|i: int| 0 <= i < self.slots().len() ==> (#[trigger] self.slots()[i]).len() == self.nodes()
    }

    /// A medium for `num_nodes` stations whose ring holds `bsize` slots, all
    /// initially free of activity.
    pub fn new(num_nodes: usize, bsize: usize) -> (m: Medium)
        requires
            bsize > 0,
        ensures
            m.wf(),
            m.nodes() == num_nodes,
            m.slots().len() == bsize,
            m.head() == 0,
            forall|i: int, j: int|
                0 <= i < bsize && 0 <= j < num_nodes ==> !(#[trigger] m.slots()[i][j]),
    {
        let mut v: Vec<BitVec> = Vec::new();
        let mut i: usize = 0;
        while i < bsize
            invariant
                i <= bsize,
                v.len() == i,
                forall|k: int|
                    0 <= k < i ==> bits_of(#[trigger] v@[k]) == Seq::new(
                        num_nodes as nat,
                        |j: int| false,
                    ),
            decreases bsize - i,
        {
            v.push(bitvec_from_elem(num_nodes, false));
            i += 1;
        }
        let m = Medium { tracks: CircularBuffer::from_slots(v), num_nodes };
        proof {
            assert forall|i2: int, j: int|
                0 <= i2 < bsize && 0 <= j < num_nodes implies !(#[trigger] m.slots()[i2][j]) by {
                assert(m.slots()[i2] == Seq::new(num_nodes as nat, |j2: int| false));
            }
        }
        m
    }

    /// Advance the ring's head by one slot.
    pub fn tick(&mut self)
        requires
            old(self).wf(),
        ensures
            final(self).wf(),
            final(self).nodes() == old(self).nodes(),
            final(self).slots() == old(self).slots(),
            final(self).head() == advance(old(self).head(), old(self).slots().len() as int),
    {
        self.tracks.tick();
        proof {
            assert(final(self).slots() =~= old(self).slots());
        }
    }

    /// Whether station `id` currently observes activity from any other
    /// station: some bit other than `id` is set in the head bitmap.
    pub fn is_busy(&self, id: usize) -> (r: bool)
        requires
            self.wf(),
            id < self.nodes(),
        ensures
            r == self.busy_for(id as int),
    {
        let head: &BitVec = self.tracks.read_ref();
        proof {
            assert(bits_of(*head) == self.slots()[self.head()]);
            assert(self.slots()[self.head()].len() == self.nodes());
        }
        let mut j: usize = 0;
        while j < self.num_nodes
            invariant
                self.wf(),
                id < self.nodes(),
                j <= self.num_nodes,
                *head == self.tracks.slots()[self.tracks.head()],
                bits_of(*head).len() == self.nodes(),
                forall|k: int| 0 <= k < j && k != id ==> !self.head_bits()[k],
            decreases self.num_nodes - j,
        {
            if j != id && bitvec_get(head, j) {
                return true;
            }
            j += 1;
        }
        false
    }

    /// Replace the head slot with the bitmap `state`.
    pub fn write(&mut self, state: BitVec)
        requires
            old(self).wf(),
            bits_of(state).len() == old(self).nodes(),
        ensures
            final(self).wf(),
            final(self).nodes() == old(self).nodes(),
            final(self).head() == old(self).head(),
            final(self).slots() == old(self).slots().update(old(self).head(), bits_of(state)),
    {
        self.tracks.write(state);
        proof {
            assert(final(self).slots() =~= old(self).slots().update(
                old(self).head(),
                bits_of(state),
            ));
        }
    }
}

/// Law: at every slot of a well-formed medium — the head included — the
/// bitmap holds exactly one bit per attached station.
pub proof fn lemma_head_bitmap_length(m: Medium)
    requires
        m.wf(),
    ensures
        m.head_bits().len() == m.nodes(),
{
}

/// Law: writing bitmap `b` and then asking `is_busy(i)`, with no `tick`
/// between, depends only on `b` and `i`: the answer is "some bit of `b`
/// other than `i` is set". Over the model, replacing the head slot by `b`
/// makes the observable bitmap `b` itself.
pub proof fn lemma_write_then_is_busy(slots: Seq<Seq<bool>>, h: int, b: Seq<bool>, i: int)
    requires
        0 <= h < slots.len(),
    ensures
        busy_in(slots.update(h, b)[h], i) == exists|j: int| 0 <= j < b.len() && j != i && b[j],
{
}

} // verus!
