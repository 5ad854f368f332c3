//! The mathematical picture of a ring queue: a fixed array of slots, a write
//! cursor, a read cursor and an occupancy count, together with the four
//! transitions that the queue performs on them.

use vstd::prelude::*;

verus! {

/// Abstract state of a ring queue.
///
/// `slots` is the whole backing array, including slots that hold no unread
/// entry. `occupancy` counts the entries that were published and not yet
/// released; they sit in the slots `read_cursor`, `read_cursor + 1`, ...,
/// taken modulo the capacity.
pub struct RingState<T> {
    pub slots: Seq<T>,
    pub write_cursor: int,
    pub read_cursor: int,
    pub occupancy: int,
}

impl<T> RingState<T> {
    /// Number of slots; fixed for the lifetime of a queue.
    pub open spec fn capacity(self) -> int {
        self.slots.len() as int
    }

    /// The invariant of every reachable state: a nonzero capacity, cursors
    /// inside the array, an occupancy between zero and the capacity, and a
    /// write cursor that runs exactly `occupancy` slots ahead of the read
    /// cursor.
    pub open spec fn wf(self) -> bool {
        &&& self.capacity() > 0
        &&& 0 <= self.read_cursor < self.capacity()
        &&& 0 <= self.occupancy <= self.capacity()
        &&& self.write_cursor == (self.read_cursor + self.occupancy) % self.capacity()
    }

    /// Empty means an occupancy of zero; it is never read off the cursors.
    pub open spec fn is_empty(self) -> bool {
        self.occupancy == 0
    }

    /// Full means an occupancy equal to the capacity.
    pub open spec fn is_full(self) -> bool {
        self.occupancy == self.capacity()
    }

    /// The unread entries, oldest first.
    pub open spec fn pending(self) -> Seq<T> {
        Seq::new(
            self.occupancy as nat,
            |i: int| self.slots[(self.read_cursor + i) % self.capacity()],
        )
    }

    /// Content of the slot under the write cursor: what the next publish
    /// makes visible.
    pub open spec fn staged(self) -> T {
        self.slots[self.write_cursor]
    }

    /// Content of the slot under the read cursor.
    pub open spec fn front(self) -> T {
        self.slots[self.read_cursor]
    }

    /// A state with the given slots and nothing published.
    pub open spec fn fresh(slots: Seq<T>) -> Self {
        RingState { slots, write_cursor: 0, read_cursor: 0, occupancy: 0 }
    }

    /// Writing `v` into the claimed slot. Neither cursor nor the occupancy
    /// moves.
    pub open spec fn stage(self, v: T) -> Self {
        RingState { slots: self.slots.update(self.write_cursor, v), ..self }
    }

    /// Publishing the claimed slot: the write cursor advances by one modulo
    /// the capacity and the occupancy grows by one.
    pub open spec fn publish(self) -> Self {
        RingState {
            write_cursor: (self.write_cursor + 1) % self.capacity(),
            occupancy: self.occupancy + 1,
            ..self
        }
    }

    /// Releasing the oldest entry: the read cursor advances by one modulo the
    /// capacity and the occupancy shrinks by one.
    pub open spec fn release(self) -> Self {
        RingState {
            read_cursor: (self.read_cursor + 1) % self.capacity(),
            occupancy: self.occupancy - 1,
            ..self
        }
    }

    /// Stage and publish in one step.
    pub open spec fn enqueue(self, v: T) -> Self {
        self.stage(v).publish()
    }
}

/// Below twice the modulus, reduction is at most one subtraction.
pub proof fn lemma_mod_below_double(x: int, n: int)
    requires
        0 < n,
        0 <= x < 2 * n,
    ensures
        x % n == if x < n { x } else { x - n },
{
    if x < n {
        vstd::arithmetic::div_mod::lemma_small_mod(x as nat, n as nat);
    } else {
        vstd::arithmetic::div_mod::lemma_small_mod((x - n) as nat, n as nat);
        vstd::arithmetic::div_mod::lemma_mod_add_multiples_vanish(x - n, n);
    }
}

/// Staging a value in a state that is not full keeps the state well formed
/// and touches none of the unread entries.
pub proof fn lemma_stage_keeps_pending<T>(s: RingState<T>, v: T)
    requires
        s.wf(),
        !s.is_full(),
    ensures
        s.stage(v).wf(),
        s.stage(v).pending() == s.pending(),
        s.stage(v).staged() == v,
{
    let n = s.capacity();
    let t = s.stage(v);
    lemma_mod_below_double(s.read_cursor + s.occupancy, n);
    assert forall|i: int| 0 <= i < s.occupancy implies t.pending()[i] == s.pending()[i] by {
        lemma_mod_below_double(s.read_cursor + i, n);
    }
    assert(t.pending() =~= s.pending());
}

/// Publishing in a state that is not full appends the staged value to the
/// unread entries.
pub proof fn lemma_publish_appends<T>(s: RingState<T>)
    requires
        s.wf(),
        !s.is_full(),
    ensures
        s.publish().wf(),
        s.publish().pending() == s.pending().push(s.staged()),
{
    let n = s.capacity();
    lemma_mod_below_double(s.read_cursor + s.occupancy, n);
    lemma_mod_below_double(s.read_cursor + s.occupancy + 1, n);
    lemma_mod_below_double(s.write_cursor + 1, n);
    assert(s.publish().pending() =~= s.pending().push(s.staged()));
}

/// Releasing in a state that is not empty removes the oldest unread entry,
/// which is the one under the read cursor.
pub proof fn lemma_release_drops_front<T>(s: RingState<T>)
    requires
        s.wf(),
        !s.is_empty(),
    ensures
        s.release().wf(),
        s.front() == s.pending()[0],
        s.release().pending() == s.pending().drop_first(),
{
    let n = s.capacity();
    let t = s.release();
    lemma_mod_below_double(s.read_cursor, n);
    lemma_mod_below_double(s.read_cursor + 1, n);
    lemma_mod_below_double(s.read_cursor + s.occupancy, n);
    lemma_mod_below_double(t.read_cursor + t.occupancy, n);
    assert forall|i: int| 0 <= i < t.occupancy implies t.pending()[i] == s.pending()[i + 1] by {
        lemma_mod_below_double(t.read_cursor + i, n);
        lemma_mod_below_double(s.read_cursor + (i + 1), n);
    }
    assert(t.pending() =~= s.pending().drop_first());
}

} // verus!
