//! Fixed-capacity FIFO history of numeric samples.
//!
//! Once the buffer is full, each push evicts the oldest element, so the
//! newest sample is always at the tail and the length never exceeds the
//! capacity chosen at construction.

use std::collections::VecDeque;
use vstd::prelude::*;

verus! {

/// Bounded FIFO of samples; the sole mutator is [`SampleBuffer::push`].
pub struct SampleBuffer {
    items: VecDeque<u64>,
    capacity: usize,
}

/// One FIFO step: append `v`, evicting the oldest element when the
/// buffer already holds `cap` samples.
pub open spec fn spec_push(s: Seq<u64>, cap: nat, v: u64) -> Seq<u64> {
    if s.len() >= cap {
        s.drop_first().push(v)
    } else {
        s.push(v)
    }
}

/// The FIFO steps of every element of `vs` in order, oldest first.
pub open spec fn spec_push_all(s: Seq<u64>, cap: nat, vs: Seq<u64>) -> Seq<u64>
    decreases vs.len(),
{
    if vs.len() == 0 {
        s
    } else {
        spec_push_all(spec_push(s, cap, vs[0]), cap, vs.drop_first())
    }
}

/// The trailing `cap` elements of `s` (all of `s` when it is shorter).
pub open spec fn spec_last_n(s: Seq<u64>, cap: nat) -> Seq<u64> {
    if s.len() <= cap {
        s
    } else {
        s.subrange(s.len() - cap, s.len() as int)
    }
}

impl SampleBuffer {
    /// The stored samples, oldest first.
    pub closed spec fn contents(&self) -> Seq<u64> {
        self.items@
    }

    /// The fixed maximum number of samples.
    pub closed spec fn cap(&self) -> nat {
        self.capacity as nat
    }

    /// The length bound that every operation preserves.
    pub open spec fn wf(&self) -> bool {
        &&& self.cap() >= 1
        &&& self.contents().len() <= self.cap()
    }

    /// An empty buffer of the given capacity.
    pub fn new(capacity: usize) -> (r: SampleBuffer)
        requires
            capacity >= 1,
        ensures
            r.wf(),
            r.cap() == capacity,
            r.contents() == Seq::<u64>::empty(),
    {
        SampleBuffer { items: VecDeque::new(), capacity }
    }

    /// A buffer pre-filled to capacity with neutral zero samples, the
    /// state a sensor starts from.
    pub fn zero_filled(capacity: usize) -> (r: SampleBuffer)
        requires
            capacity >= 1,
        ensures
            r.wf(),
            r.cap() == capacity,
            r.contents().len() == capacity,
            forall|i: int| 0 <= i < capacity ==> r.contents()[i] == 0u64,
    {
        let mut items: VecDeque<u64> = VecDeque::new();
        let mut n: usize = 0;
        while n < capacity
            invariant
                n <= capacity,
                items@.len() == n,
                forall|i: int| 0 <= i < n ==> items@[i] == 0u64,
            decreases capacity - n,
        {
            items.push_back(0);
            n = n + 1;
        }
        SampleBuffer { items, capacity }
    }

    pub fn len(&self) -> (r: usize)
        ensures
            r == self.contents().len(),
    {
        self.items.len()
    }

    /// The sample at position `i`, oldest first.
    pub fn get(&self, i: usize) -> (r: u64)
        requires
            i < self.contents().len(),
        ensures
            r == self.contents()[i as int],
    {
        self.items[i]
    }

    /// The newest sample.
    pub fn last(&self) -> (r: u64)
        requires
            self.contents().len() >= 1,
        ensures
            r == self.contents().last(),
    {
        self.items[self.items.len() - 1]
    }

    /// Appends a sample, evicting the oldest when the buffer is full.
    pub fn push(&mut self, v: u64)
        requires
            old(self).wf(),
        ensures
            final(self).wf(),
            final(self).cap() == old(self).cap(),
            final(self).contents() == spec_push(old(self).contents(), old(self).cap(), v),
    {
        if self.items.len() >= self.capacity {
            self.items.pop_front();
            proof {
                assert(self.items@ =~= old(self).items@.drop_first());
            }
        }
        self.items.push_back(v);
    }
}

/// FIFO retention law: starting from any well-formed content, pushing a
/// sequence of at least `cap` samples leaves exactly the last `cap`
/// pushed samples, in push order.
pub proof fn lemma_fifo(s: Seq<u64>, cap: nat, vs: Seq<u64>)
    requires
        cap >= 1,
        s.len() <= cap,
        vs.len() >= cap,
    ensures
        spec_push_all(s, cap, vs) == vs.subrange(vs.len() - cap, vs.len() as int),
{
    lemma_push_all_window(s, cap, vs);
    assert(spec_last_n(s + vs, cap) =~= vs.subrange(vs.len() - cap, vs.len() as int));
}

/// After pushing `vs`, the contents are the trailing window of the
/// concatenation of the old contents and `vs`.
pub proof fn lemma_push_all_window(s: Seq<u64>, cap: nat, vs: Seq<u64>)
    requires
        cap >= 1,
        s.len() <= cap,
    ensures
        spec_push_all(s, cap, vs) == spec_last_n(s + vs, cap),
    decreases vs.len(),
{
    if vs.len() == 0 {
        assert(s + vs =~= s);
    } else {
        let s1 = spec_push(s, cap, vs[0]);
        lemma_push_all_window(s1, cap, vs.drop_first());
        assert(spec_last_n(s1 + vs.drop_first(), cap) =~= spec_last_n(s + vs, cap));
    }
}

} // verus!
