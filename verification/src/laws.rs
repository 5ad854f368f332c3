//! What holds of every run of the queue, proved over the abstract state that
//! the queue's operations are specified with.

use vstd::prelude::*;
use crate::ring::RingState;
use crate::ring::lemma_stage_keeps_pending;
use crate::ring::lemma_publish_appends;
use crate::ring::lemma_release_drops_front;

verus! {

impl<T> RingState<T> {
    /// Enqueues the values of `vs`, first to last.
    pub open spec fn enqueue_all(self, vs: Seq<T>) -> Self
        decreases vs.len(),
    {
        if vs.len() == 0 {
            self
        } else {
            self.enqueue_all(vs.drop_last()).enqueue(vs.last())
        }
    }

    /// The state after `n` releases.
    pub open spec fn release_n(self, n: nat) -> Self
        decreases n,
    {
        if n == 0 {
            self
        } else {
            self.release().release_n((n - 1) as nat)
        }
    }

    /// What a reader sees that looks at the front and releases it, `n` times
    /// over.
    pub open spec fn observed(self, n: nat) -> Seq<T>
        decreases n,
    {
        if n == 0 {
            Seq::empty()
        } else {
            seq![self.front()] + self.release().observed((n - 1) as nat)
        }
    }

    /// One enqueue followed at once by one release, for each value of `vs`.
    pub open spec fn cycle_all(self, vs: Seq<T>) -> Self
        decreases vs.len(),
    {
        if vs.len() == 0 {
            self
        } else {
            self.cycle_all(vs.drop_last()).enqueue(vs.last()).release()
        }
    }
}

/// Enqueuing into a state that is not full appends the value to the unread
/// entries and moves nothing but the write cursor and the occupancy.
pub proof fn lemma_enqueue_appends<T>(s: RingState<T>, v: T)
    requires
        s.wf(),
        !s.is_full(),
    ensures
        s.enqueue(v).wf(),
        s.enqueue(v).pending() == s.pending().push(v),
        s.enqueue(v).occupancy == s.occupancy + 1,
        s.enqueue(v).capacity() == s.capacity(),
        s.enqueue(v).read_cursor == s.read_cursor,
        s.enqueue(v).write_cursor == (s.write_cursor + 1) % s.capacity(),
{
    lemma_stage_keeps_pending(s, v);
    lemma_publish_appends(s.stage(v));
}

/// Enqueuing a run of values that fits appends the run, in order, to the
/// unread entries.
pub proof fn lemma_enqueue_all_appends<T>(s: RingState<T>, vs: Seq<T>)
    requires
        s.wf(),
        s.occupancy + vs.len() <= s.capacity(),
    ensures
        s.enqueue_all(vs).wf(),
        s.enqueue_all(vs).pending() == s.pending() + vs,
        s.enqueue_all(vs).occupancy == s.occupancy + vs.len(),
        s.enqueue_all(vs).capacity() == s.capacity(),
        s.enqueue_all(vs).read_cursor == s.read_cursor,
    decreases vs.len(),
{
    if vs.len() == 0 {
        assert(s.pending() + vs =~= s.pending());
    } else {
        let head = vs.drop_last();
        let t = s.enqueue_all(head);
        lemma_enqueue_all_appends(s, head);
        lemma_enqueue_appends(t, vs.last());
        assert((s.pending() + head).push(vs.last()) =~= s.pending() + vs);
    }
}

/// Reading and releasing `n` times yields the `n` oldest unread entries,
/// oldest first, and leaves the rest unread.
pub proof fn lemma_observed_is_prefix<T>(s: RingState<T>, n: nat)
    requires
        s.wf(),
        n <= s.occupancy,
    ensures
        s.observed(n) == s.pending().take(n as int),
        s.release_n(n).wf(),
        s.release_n(n).pending() == s.pending().skip(n as int),
        s.release_n(n).occupancy == s.occupancy - n,
        s.release_n(n).capacity() == s.capacity(),
    decreases n,
{
    if n == 0 {
        assert(s.observed(n) =~= s.pending().take(0));
        assert(s.pending().skip(0) =~= s.pending());
    } else {
        let rest = (n - 1) as nat;
        lemma_release_drops_front(s);
        lemma_observed_is_prefix(s.release(), rest);
        assert(seq![s.pending()[0]] + s.pending().drop_first().take(rest as int) =~= s.pending().take(
            n as int,
        ));
        assert(s.pending().drop_first().skip(rest as int) =~= s.pending().skip(n as int));
    }
}

/// First in, first out: values enqueued into an empty queue that has room for
/// all of them are read back in exactly the order in which they were
/// published, none lost and none twice, and the queue is empty afterwards.
pub proof fn law_fifo_order<T>(s: RingState<T>, vs: Seq<T>)
    requires
        s.wf(),
        s.is_empty(),
        vs.len() <= s.capacity(),
    ensures
        s.enqueue_all(vs).observed(vs.len()) == vs,
        s.enqueue_all(vs).release_n(vs.len()).is_empty(),
        s.enqueue_all(vs).release_n(vs.len()).wf(),
{
    let filled = s.enqueue_all(vs);
    lemma_enqueue_all_appends(s, vs);
    lemma_observed_is_prefix(filled, vs.len());
    assert(s.pending() =~= Seq::<T>::empty());
    assert((s.pending() + vs).take(vs.len() as int) =~= vs);
}

/// A queue that starts empty is full after exactly as many enqueues as it
/// has slots, and after no fewer.
pub proof fn law_full_at_capacity<T>(s: RingState<T>, vs: Seq<T>)
    requires
        s.wf(),
        s.is_empty(),
        vs.len() <= s.capacity(),
    ensures
        s.enqueue_all(vs).wf(),
        s.enqueue_all(vs).occupancy == vs.len(),
        s.enqueue_all(vs).is_full() <==> vs.len() == s.capacity(),
{
    lemma_enqueue_all_appends(s, vs);
}

/// Releasing every unread entry leaves the queue empty.
pub proof fn law_drained_is_empty<T>(s: RingState<T>)
    requires
        s.wf(),
    ensures
        s.release_n(s.occupancy as nat).wf(),
        s.release_n(s.occupancy as nat).is_empty(),
        s.release_n(s.occupancy as nat).pending() == Seq::<T>::empty(),
{
    lemma_observed_is_prefix(s, s.occupancy as nat);
    assert(s.pending().skip(s.occupancy) =~= Seq::<T>::empty());
}

/// A value written into the claimed slot and published is the newest unread
/// entry, unchanged; in a queue that was empty it is the next one read.
pub proof fn law_round_trip<T>(s: RingState<T>, v: T)
    requires
        s.wf(),
        !s.is_full(),
    ensures
        s.enqueue(v).wf(),
        s.enqueue(v).pending().last() == v,
        s.is_empty() ==> s.enqueue(v).front() == v,
        s.is_empty() ==> s.enqueue(v).release().is_empty(),
{
    lemma_enqueue_appends(s, v);
    lemma_release_drops_front(s.enqueue(v));
}

/// Both cursors advance modulo the capacity: after one enqueue-release cycle
/// for each value of `vs`, an empty queue is empty again and each cursor
/// stands `vs.len()` slots further on, wrapped round the end of the array.
pub proof fn law_cursors_wrap<T>(s: RingState<T>, vs: Seq<T>)
    requires
        s.wf(),
        s.is_empty(),
    ensures
        s.cycle_all(vs).wf(),
        s.cycle_all(vs).is_empty(),
        s.cycle_all(vs).capacity() == s.capacity(),
        s.cycle_all(vs).write_cursor == (s.write_cursor + vs.len()) % s.capacity(),
        s.cycle_all(vs).read_cursor == (s.read_cursor + vs.len()) % s.capacity(),
    decreases vs.len(),
{
    let n = s.capacity();
    if vs.len() == 0 {
        vstd::arithmetic::div_mod::lemma_small_mod(s.read_cursor as nat, n as nat);
    } else {
        let head = vs.drop_last();
        let t = s.cycle_all(head);
        law_cursors_wrap(s, head);
        lemma_enqueue_appends(t, vs.last());
        lemma_release_drops_front(t.enqueue(vs.last()));
        vstd::arithmetic::div_mod::lemma_add_mod_noop_right(1, s.write_cursor + head.len(), n);
        vstd::arithmetic::div_mod::lemma_add_mod_noop_right(1, s.read_cursor + head.len(), n);
    }
}

} // verus!
