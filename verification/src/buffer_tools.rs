use vstd::prelude::*;

verus! {

/// Three slots of state shared between one producer and one consumer.
///
/// The producer fills the write slot, `commit` copies it into the swap slot,
/// and `swap_read` points the consumer's read slot at the swap slot. The
/// reader never looks at the slot that the producer is filling.
pub struct TripleBuffer<T: Clone> {
    buffers: Vec<T>,
    read_index: usize,
    write_index: usize,
    swap_index: usize,
}

impl<T: Clone> TripleBuffer<T> {
    /// The contents of the three slots, by slot number.
    pub closed spec fn slots(&self) -> Seq<T> {
        self.buffers@
    }

    /// The slot that the consumer reads.
    pub closed spec fn read_slot(&self) -> int {
        self.read_index as int
    }

    /// The slot that the producer writes.
    pub closed spec fn write_slot(&self) -> int {
        self.write_index as int
    }

    /// The slot that `commit` publishes into.
    pub closed spec fn swap_slot(&self) -> int {
        self.swap_index as int
    }

    /// What the consumer currently sees.
    pub open spec fn read_value(&self) -> T {
        self.slots()[self.read_slot()]
    }

    /// What the producer is currently filling.
    pub open spec fn write_value(&self) -> T {
        self.slots()[self.write_slot()]
    }

    /// What the last commit published.
    pub open spec fn swap_value(&self) -> T {
        self.slots()[self.swap_slot()]
    }

    /// Three slots, three indices in range, and the producer's slot is
    /// neither the published slot nor the one the consumer reads.
    pub open spec fn wf(&self) -> bool {
        &&& self.slots().len() == 3
        &&& 0 <= self.read_slot() < 3
        &&& 0 <= self.write_slot() < 3
        &&& 0 <= self.swap_slot() < 3
        &&& self.write_slot() != self.swap_slot()
        &&& self.write_slot() != self.read_slot()
    }

    /// `next` has the same slot numbering as `self`.
    pub open spec fn same_slots(&self, next: Self) -> bool {
        &&& next.read_slot() == self.read_slot()
        &&& next.write_slot() == self.write_slot()
        &&& next.swap_slot() == self.swap_slot()
    }

    /// `next` is `self` after the producer stored `value` in its slot.
    pub open spec fn written(&self, next: Self, value: T) -> bool {
        &&& self.same_slots(next)
        &&& next.slots() == self.slots().update(self.write_slot(), value)
    }

    /// `next` is `self` after a commit: the swap slot holds a clone of the
    /// write slot, and nothing else changed.
    pub open spec fn committed(&self, next: Self) -> bool {
        &&& self.same_slots(next)
        &&& next.slots().len() == self.slots().len()
        &&& vstd::pervasive::strictly_cloned(self.write_value(), next.swap_value())
        &&& forall|i: int|
            0 <= i < self.slots().len() && i != self.swap_slot() ==> #[trigger] next.slots()[i]
                == self.slots()[i]
    }

    /// `next` is `self` after `swap_read`: the consumer now reads the swap
    /// slot, and no slot's contents changed.
    pub open spec fn read_swapped(&self, next: Self) -> bool {
        &&& next.slots() == self.slots()
        &&& next.read_slot() == self.swap_slot()
        &&& next.write_slot() == self.write_slot()
        &&& next.swap_slot() == self.swap_slot()
    }

    /// Starts with slot 0 for reading, slot 1 for writing and slot 2 for
    /// publishing; slot 2 holds `initial_state` and the others clones of it.
    pub fn new(initial_state: T) -> (r: Self)
        ensures
            r.wf(),
            r.read_slot() == 0,
            r.write_slot() == 1,
            r.swap_slot() == 2,
            vstd::pervasive::strictly_cloned(initial_state, r.slots()[0]),
            vstd::pervasive::strictly_cloned(initial_state, r.slots()[1]),
            r.slots()[2] == initial_state,
    {
        let first = initial_state.clone();
        let second = initial_state.clone();
        let mut buffers: Vec<T> = Vec::new();
        buffers.push(first);
        buffers.push(second);
        buffers.push(initial_state);
        TripleBuffer { buffers, read_index: 0, write_index: 1, swap_index: 2 }
    }

    /// The producer's slot, to be filled in place.
    pub fn get_write_buffer(&mut self) -> (r: &mut T)
        requires
            old(self).wf(),
        ensures
            *r == old(self).write_value(),
            old(self).written(*final(self), *final(r)),
            final(self).wf(),
    {
        let write_idx = self.write_index;
        &mut self.buffers[write_idx]
    }

    /// The consumer's slot.
    pub fn get_read_buffer(&self) -> (r: &T)
        requires
            self.wf(),
        ensures
            *r == self.read_value(),
    {
        let read_idx = self.read_index;
        &self.buffers[read_idx]
    }

    /// Publishes a clone of the producer's slot into the swap slot.
    pub fn commit(&mut self)
        requires
            old(self).wf(),
        ensures
            old(self).committed(*final(self)),
            final(self).wf(),
    {
        let write_idx = self.write_index;
        let swap_idx = self.swap_index;
        let published = self.buffers[write_idx].clone();
        self.buffers.set(swap_idx, published);
    }

    /// Points the consumer at the slot that the last commit published.
    pub fn swap_read(&mut self)
        requires
            old(self).wf(),
        ensures
            old(self).read_swapped(*final(self)),
            final(self).wf(),
    {
        self.read_index = self.swap_index;
    }
}

/// What the producer wrote before a commit is what the consumer reads after
/// the following `swap_read` (a clone of it), and the producer keeps its own
/// contents.
pub proof fn lemma_commit_then_swap_read_publishes<T: Clone>(
    before: TripleBuffer<T>,
    committed: TripleBuffer<T>,
    swapped: TripleBuffer<T>,
)
    requires
        before.wf(),
        before.committed(committed),
        committed.read_swapped(swapped),
    ensures
        vstd::pervasive::strictly_cloned(before.write_value(), swapped.read_value()),
        swapped.write_value() == before.write_value(),
        swapped.wf(),
{
}

/// Filling the producer's slot changes nothing that the consumer reads.
pub proof fn lemma_write_hidden_from_reader<T: Clone>(
    before: TripleBuffer<T>,
    after: TripleBuffer<T>,
    value: T,
)
    requires
        before.wf(),
        before.written(after, value),
    ensures
        after.read_value() == before.read_value(),
        after.swap_value() == before.swap_value(),
        after.write_value() == value,
        after.wf(),
{
}

/// A commit leaves the producer's slot as it was.
pub proof fn lemma_commit_keeps_write_slot<T: Clone>(before: TripleBuffer<T>, after: TripleBuffer<T>)
    requires
        before.wf(),
        before.committed(after),
    ensures
        after.write_value() == before.write_value(),
        after.wf(),
{
}

/// When cloning `T` is deterministic (every clone of a value is the same
/// value), a second commit right after the first leaves the same contents
/// and slot numbering as the first.
pub proof fn lemma_commit_twice_same_as_once<T: Clone>(
    first: TripleBuffer<T>,
    second: TripleBuffer<T>,
    third: TripleBuffer<T>,
)
    requires
        first.wf(),
        first.committed(second),
        second.committed(third),
        forall|a: T, b: T, c: T|
            #[trigger] vstd::pervasive::strictly_cloned(a, b) && #[trigger] vstd::pervasive::strictly_cloned(a, c) ==> b == c,
    ensures
        third.slots() == second.slots(),
        second.same_slots(third),
{
    assert(second.write_value() == first.write_value());
    assert(vstd::pervasive::strictly_cloned(first.write_value(), second.swap_value()));
    assert(vstd::pervasive::strictly_cloned(first.write_value(), third.swap_value()));
    assert(third.swap_value() == second.swap_value());
    assert(third.slots() =~= second.slots());
}

/// A second `swap_read` right after the first changes nothing.
pub proof fn lemma_swap_read_idempotent<T: Clone>(
    first: TripleBuffer<T>,
    second: TripleBuffer<T>,
    third: TripleBuffer<T>,
)
    requires
        first.wf(),
        first.read_swapped(second),
        second.read_swapped(third),
    ensures
        third.slots() == second.slots(),
        second.same_slots(third),
{
}

} // verus!
