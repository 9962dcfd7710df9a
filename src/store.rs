//! A single-slot store that holds the latest value of one kind of state.
//!
//! Producers replace the whole slot with `publish`; consumers obtain an
//! independent copy with `read`. The slot is never partially written: a read
//! returns either the initial value or exactly one value that was published.
use vstd::prelude::*;

verus! {

/// The latest value of one kind of state, replaced as a whole on each publish.
pub struct SnapshotStore<T: Copy> {
    slot: T,
}

impl<T: Copy> View for SnapshotStore<T> {
    type V = T;

    closed spec fn view(&self) -> T {
        self.slot
    }
}

impl<T: Copy> SnapshotStore<T> {
    /// A store whose slot holds `initial` until the first publish.
    pub fn new(initial: T) -> (r: Self)
        ensures
            r@ == initial,
    {
        SnapshotStore { slot: initial }
    }

    /// Replaces the slot with `value`, whether or not the previous value was read.
    pub fn publish(&mut self, value: T)
        ensures
            final(self)@ == value,
    {
        self.slot = value;
    }

    /// A copy of the value currently held in the slot.
    pub fn read(&self) -> (r: T)
        ensures
            r == self@,
    {
        self.slot
    }
}

/// One access to a store: a publish of a value, or a read.
pub enum StoreOp<T> {
    Publish(T),
    Read,
}

/// What the slot holds after `ops`, applied in order to a store created with `initial`:
/// the value of the last publish, or `initial` if there was none.
pub open spec fn slot_after<T>(initial: T, ops: Seq<StoreOp<T>>) -> T
    decreases ops.len(),
{
    if ops.len() == 0 {
        initial
    } else {
        match ops.last() {
            StoreOp::Publish(v) => v,
            StoreOp::Read => slot_after(initial, ops.drop_last()),
        }
    }
}

/// The values that the reads among `ops` return, in order.
pub open spec fn reads_of<T>(initial: T, ops: Seq<StoreOp<T>>) -> Seq<T>
    decreases ops.len(),
{
    if ops.len() == 0 {
        Seq::empty()
    } else {
        match ops.last() {
            StoreOp::Publish(_) => reads_of(initial, ops.drop_last()),
            StoreOp::Read => reads_of(initial, ops.drop_last()).push(
                slot_after(initial, ops.drop_last()),
            ),
        }
    }
}

/// A read with no publish before it returns the initial value, and a read
/// right after `publish(v)` returns `v`.
pub proof fn lemma_read_after_publish<T>(initial: T, ops: Seq<StoreOp<T>>, v: T)
    ensures
        reads_of(initial, seq![StoreOp::Read]) == seq![initial],
        reads_of(initial, ops.push(StoreOp::Publish(v)).push(StoreOp::Read)).last() == v,
{
    let one = seq![StoreOp::<T>::Read];
    assert(one.drop_last() =~= Seq::<StoreOp<T>>::empty());
    assert(one.last() == StoreOp::<T>::Read);
    assert(one.len() == 1);
    assert(reads_of(initial, one.drop_last()) == Seq::<T>::empty());
    assert(slot_after(initial, one.drop_last()) == initial);
    assert(reads_of(initial, one) == Seq::<T>::empty().push(initial));
    assert(reads_of(initial, one) =~= seq![initial]);
    let with_publish = ops.push(StoreOp::Publish(v));
    assert(with_publish.push(StoreOp::Read).drop_last() == with_publish);
    assert(with_publish.drop_last() == ops);
}

/// However publishes and reads interleave, every read returns the initial
/// value or exactly one published value, never a mix of two. So a property
/// that holds of the initial value and of each published value as a whole
/// (say, that all of its fields carry the same sequence number) holds of
/// every value read.
pub proof fn lemma_reads_never_torn<T>(initial: T, ops: Seq<StoreOp<T>>, whole: spec_fn(T) -> bool)
    requires
        whole(initial),
        forall|i: int| 0 <= i < ops.len() && ops[i] is Publish ==> whole(ops[i]->Publish_0),
    ensures
        whole(slot_after(initial, ops)),
        forall|k: int| 0 <= k < reads_of(initial, ops).len() ==> whole(#[trigger] reads_of(initial, ops)[k]),
        forall|k: int| 0 <= k < reads_of(initial, ops).len() ==> reads_of(initial, ops)[k] == initial
            || exists|i: int| 0 <= i < ops.len() && ops[i] == StoreOp::Publish(#[trigger] reads_of(initial, ops)[k]),
    decreases ops.len(),
{
    if ops.len() > 0 {
        let prefix = ops.drop_last();
        assert forall|i: int| 0 <= i < prefix.len() && prefix[i] is Publish implies whole(prefix[i]->Publish_0) by {
            assert(prefix[i] == ops[i]);
        }
        lemma_reads_never_torn(initial, prefix, whole);
        lemma_slot_is_published(initial, prefix);
        assert(ops[ops.len() - 1] == ops.last());
        let reads = reads_of(initial, ops);
        let before = reads_of(initial, prefix);
        assert forall|k: int| 0 <= k < reads.len() implies reads[k] == initial
            || exists|i: int| 0 <= i < ops.len() && ops[i] == StoreOp::Publish(#[trigger] reads[k]) by {
            if k < before.len() {
                assert(reads[k] == before[k]);
                if reads[k] != initial {
                    let i = choose|i: int| 0 <= i < prefix.len() && prefix[i] == StoreOp::Publish(before[k]);
                    assert(ops[i] == prefix[i]);
                }
            } else {
                assert(reads[k] == slot_after(initial, prefix));
                if reads[k] != initial {
                    let i = choose|i: int| 0 <= i < prefix.len() && prefix[i] == StoreOp::Publish(slot_after(initial, prefix));
                    assert(ops[i] == prefix[i]);
                }
            }
        }
    }
}

/// The slot holds the initial value or one of the values published.
proof fn lemma_slot_is_published<T>(initial: T, ops: Seq<StoreOp<T>>)
    ensures
        slot_after(initial, ops) == initial
            || exists|i: int| 0 <= i < ops.len() && ops[i] == StoreOp::Publish(slot_after(initial, ops)),
    decreases ops.len(),
{
    if ops.len() > 0 {
        let prefix = ops.drop_last();
        lemma_slot_is_published(initial, prefix);
        assert(ops[ops.len() - 1] == ops.last());
        if slot_after(initial, prefix) != initial {
            let i = choose|i: int| 0 <= i < prefix.len() && prefix[i] == StoreOp::Publish(slot_after(initial, prefix));
            assert(ops[i] == prefix[i]);
        }
    }
}

} // verus!
