//! The executable ring queue.
//!
//! The queue is a plain value: every operation that changes it takes
//! `&mut self`, so the borrow checker grants one party at a time the whole
//! sequence claim, write, publish (or reserve, read, release). To share a
//! queue between threads, put it behind one lock and hold the lock across
//! that whole sequence. A claimed slot is reachable only through the
//! reference that the claim returned, and the queue cannot be touched while
//! that reference lives, so no reader ever sees a half-written entry.

use vstd::prelude::*;
use crate::ring::RingState;
use crate::ring::lemma_stage_keeps_pending;
use crate::ring::lemma_publish_appends;
use crate::ring::lemma_release_drops_front;
use crate::ring::lemma_mod_below_double;

verus! {

/// Why a queue could not be built.
#[derive(Debug, Clone, Copy, PartialEq, Eq, Structural)]
pub enum QueueError {
    /// A queue needs at least one slot.
    ZeroCapacity,
}

/// Every slot holds a clone of one value that `T::default()` may return.
pub open spec fn default_filled<T: Default + Clone>(slots: Seq<T>) -> bool {
    exists|d: T|
        call_ensures(T::default, (), d) && forall|i: int|
            0 <= i < slots.len() ==> cloned(d, #[trigger] slots[i])
}

/// A fixed-capacity queue over a preallocated array of slots.
///
/// Writing is two-phase: `get_next_to_write_to` hands out the slot under the
/// write cursor, and `update_write_index` publishes it. Reading mirrors this
/// with `get_next_to_read` and `update_read_index`. A claim that is never
/// published costs nothing: the next claim hands out the same slot again.
#[allow(non_camel_case_types)]
pub struct LF_Queue<T: Default + Clone> {
    store: Vec<T>,
    counters: Counters,
}

/// The two cursors and the occupancy. A publish or a release moves a cursor
/// and the occupancy together, so they are kept, and replaced, as one value.
struct Counters {
    next_write_index: usize,
    next_read_index: usize,
    num_elements: usize,
}

impl<T: Default + Clone> View for LF_Queue<T> {
    type V = RingState<T>;

    closed spec fn view(&self) -> RingState<T> {
        RingState {
            slots: self.store@,
            write_cursor: self.counters.next_write_index as int,
            read_cursor: self.counters.next_read_index as int,
            occupancy: self.counters.num_elements as int,
        }
    }
}

impl<T: Default + Clone> LF_Queue<T> {
    #[verifier::type_invariant]
    spec fn inv(&self) -> bool {
        self@.wf()
    }

    /// Builds an empty queue of `capacity` default-initialized slots.
    pub fn new(capacity: usize) -> (queue: Self)
        requires
            capacity > 0,
        ensures
            queue@.wf(),
            queue@ == RingState::fresh(queue@.slots),
            queue@.capacity() == capacity,
            queue@.pending() == Seq::<T>::empty(),
            default_filled(queue@.slots),
    {
        let filler = T::default();
        let store = vec![filler; capacity];
        proof {
            lemma_mod_below_double(0, capacity as int);
        }
        let counters = Counters { next_write_index: 0, next_read_index: 0, num_elements: 0 };
        let queue = LF_Queue { store, counters };
        assert(queue@.pending() =~= Seq::<T>::empty());
        queue
    }

    /// Builds an empty queue, or reports that the capacity asked for is zero.
    pub fn try_new(capacity: usize) -> (made: Result<Self, QueueError>)
        ensures
            made is Err <==> capacity == 0,
            made matches Err(e) ==> e == QueueError::ZeroCapacity,
            made matches Ok(queue) ==> {
                &&& queue@.wf()
                &&& queue@ == RingState::fresh(queue@.slots)
                &&& queue@.capacity() == capacity
                &&& queue@.pending() == Seq::<T>::empty()
                &&& default_filled(queue@.slots)
            },
    {
        if capacity == 0 {
            Err(QueueError::ZeroCapacity)
        } else {
            Ok(Self::new(capacity))
        }
    }

    /// Number of slots.
    pub fn capacity(&self) -> (n: usize)
        ensures
            n == self@.capacity(),
            n > 0,
            self@.wf(),
    {
        proof {
            use_type_invariant(self);
        }
        self.store.len()
    }

    /// Number of entries published and not yet released.
    pub fn size(&self) -> (n: usize)
        ensures
            n == self@.occupancy,
            n == self@.pending().len(),
            self@.wf(),
    {
        proof {
            use_type_invariant(self);
        }
        self.counters.num_elements
    }

    /// Claims the slot under the write cursor, unless the queue is full.
    ///
    /// The slot still holds whatever was last written there. Whatever the
    /// caller leaves in it is what the next `update_write_index` publishes;
    /// until then neither cursor nor the occupancy moves and the unread
    /// entries stay as they are.
    pub fn get_next_to_write_to(&mut self) -> (slot: Option<&mut T>)
        ensures
            slot is None <==> old(self)@.is_full(),
            old(self)@.wf(),
            final(self)@.wf(),
            match slot {
                Some(s) => {
                    &&& *s == old(self)@.staged()
                    &&& final(self)@ == old(self)@.stage(*final(s))
                    &&& final(self)@.pending() == old(self)@.pending()
                },
                None => final(self)@ == old(self)@,
            },
    {
        proof {
            use_type_invariant(&*self);
            let before = self@;
            assert forall|v: T| !before.is_full() implies #[trigger] before.stage(v).pending()
                == before.pending() by {
                lemma_stage_keeps_pending(before, v);
            }
        }
        if self.counters.num_elements < self.store.len() {
            let at: usize = self.counters.next_write_index;
            Some(&mut self.store[at])
        } else {
            None
        }
    }

    /// Looks at the oldest unread entry, unless the queue is empty.
    pub fn get_next_to_read(&self) -> (entry: Option<&T>)
        ensures
            entry is None <==> self@.is_empty(),
            self@.wf(),
            entry matches Some(e) ==> *e == self@.front() && *e == self@.pending()[0],
    {
        proof {
            use_type_invariant(self);
            if !self@.is_empty() {
                lemma_release_drops_front(self@);
            }
        }
        if self.counters.num_elements > 0 {
            let at: usize = self.counters.next_read_index;
            Some(&self.store[at])
        } else {
            None
        }
    }

    /// Publishes the slot under the write cursor: its content becomes the
    /// newest unread entry.
    pub fn update_write_index(&mut self)
        requires
            !old(self)@.is_full(),
        ensures
            old(self)@.wf(),
            final(self)@.wf(),
            final(self)@ == old(self)@.publish(),
            final(self)@.pending() == old(self)@.pending().push(old(self)@.staged()),
    {
        proof {
            use_type_invariant(&*self);
            lemma_mod_below_double(self@.read_cursor + self@.occupancy, self@.capacity());
            lemma_publish_appends(self@);
        }
        let capacity: usize = self.store.len();
        let current_index: usize = self.counters.next_write_index;
        let next_index: usize = (current_index + 1) % capacity;
        self.counters = Counters {
            next_write_index: next_index,
            next_read_index: self.counters.next_read_index,
            num_elements: self.counters.num_elements + 1,
        };
    }

    /// Releases the oldest unread entry.
    pub fn update_read_index(&mut self)
        requires
            !old(self)@.is_empty(),
        ensures
            old(self)@.wf(),
            final(self)@.wf(),
            final(self)@ == old(self)@.release(),
            final(self)@.pending() == old(self)@.pending().drop_first(),
    {
        proof {
            use_type_invariant(&*self);
            lemma_release_drops_front(self@);
        }
        let capacity: usize = self.store.len();
        let current_index: usize = self.counters.next_read_index;
        let next_index: usize = (current_index + 1) % capacity;
        self.counters = Counters {
            next_write_index: self.counters.next_write_index,
            next_read_index: next_index,
            num_elements: self.counters.num_elements - 1,
        };
    }
}

} // verus!
