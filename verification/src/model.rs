//! The mathematical model of an arena: which slots hold an element, and in
//! which order vacant slots are handed out again.

use vstd::prelude::*;
use vstd::set_lib::{lemma_int_range, lemma_len_subset, set_int_range};
use crate::error::{ArenaError, BorrowError};

verus! {

/// What an arena is, apart from the elements themselves.
#[verifier::ext_equal]
pub struct ArenaView {
    /// One entry per slot, in position order: `true` where the slot holds an element.
    pub slots: Seq<bool>,
    /// The positions of the vacant slots; the last entry is reused first.
    pub free: Seq<int>,
}

/// A call that changes an arena.
pub enum ArenaOp {
    /// `add`, with any element.
    Add,
    /// `remove`, with the index of this position.
    Remove(int),
}

impl ArenaView {
    /// The arena without slots.
    pub open spec fn empty() -> ArenaView {
        ArenaView { slots: Seq::empty(), free: Seq::empty() }
    }

    /// The arena of `count` slots that all hold an element.
    pub open spec fn full(count: nat) -> ArenaView {
        ArenaView { slots: Seq::new(count, |p: int| true), free: Seq::empty() }
    }

    /// Whether `position` is that of a slot that holds an element.
    pub open spec fn occupied(self, position: int) -> bool {
        0 <= position < self.slots.len() && self.slots[position]
    }

    /// Whether `position` is that of a slot that holds no element.
    pub open spec fn vacant(self, position: int) -> bool {
        0 <= position < self.slots.len() && !self.slots[position]
    }

    /// The free list names exactly the vacant slots, each once.
    pub open spec fn consistent(self) -> bool {
        &&& self.free.no_duplicates()
        &&& forall|k: int| 0 <= k < self.free.len() ==> self.vacant(#[trigger] self.free[k])
        &&& forall|p: int| #[trigger] self.vacant(p) ==> self.free.contains(p)
    }

    /// The model of an arena that can exist: it is consistent, and no more
    /// slots are in it than a vector can hold.
    pub open spec fn wf(self) -> bool {
        self.consistent() && self.slots.len() <= isize::MAX
    }

    /// The number of slots, occupied or vacant.
    pub open spec fn slot_count(self) -> nat {
        self.slots.len()
    }

    /// The number of elements held: the slots less the vacant ones.
    pub open spec fn len(self) -> int {
        self.slots.len() - self.free.len()
    }

    /// The positions of the slots that hold an element.
    pub open spec fn occupied_positions(self) -> Set<int> {
        Set::new(|p: int| self.occupied(p))
    }

    /// Whether one more element can be stored: a vacant slot waits for reuse,
    /// or one more slot can be appended.
    pub open spec fn has_room(self) -> bool {
        self.free.len() > 0 || self.slots.len() < isize::MAX
    }

    /// The position that the next element goes to: the vacant slot freed
    /// last, or a new slot behind the others when none is vacant.
    pub open spec fn next_position(self) -> int {
        if self.free.len() > 0 {
            self.free.last()
        } else {
            self.slots.len() as int
        }
    }

    /// The arena after an element was added.
    pub open spec fn add(self) -> ArenaView {
        if self.free.len() > 0 {
            ArenaView { slots: self.slots.update(self.free.last(), true), free: self.free.drop_last() }
        } else {
            ArenaView { slots: self.slots.push(true), free: self.free }
        }
    }

    /// The arena after the element at `position` was removed.
    pub open spec fn remove(self, position: int) -> ArenaView {
        ArenaView { slots: self.slots.update(position, false), free: self.free.push(position) }
    }

    /// The error with which the removal at `position` fails, if it fails: a
    /// negative position names no slot, and any other position must be that
    /// of a slot that holds an element.
    pub open spec fn removal_error(self, position: int) -> Option<ArenaError> {
        if position < 0 {
            Some(ArenaError::InvalidIndexUsage)
        } else if !self.occupied(position) {
            Some(ArenaError::RemovedElementAccess)
        } else {
            None
        }
    }

    /// The arena after one call: a removal that fails changes nothing.
    pub open spec fn apply(self, op: ArenaOp) -> ArenaView {
        match op {
            ArenaOp::Add => self.add(),
            ArenaOp::Remove(position) => if self.occupied(position) {
                self.remove(position)
            } else {
                self
            },
        }
    }

    /// The arena after the calls of `ops`, made in order.
    pub open spec fn run(self, ops: Seq<ArenaOp>) -> ArenaView
        decreases ops.len(),
    {
        if ops.len() == 0 {
            self
        } else {
            self.run(ops.drop_last()).apply(ops.last())
        }
    }

    /// How many of the calls of `ops` are additions.
    pub open spec fn additions(ops: Seq<ArenaOp>) -> nat
        decreases ops.len(),
    {
        if ops.len() == 0 {
            0
        } else {
            Self::additions(ops.drop_last()) + if ops.last() is Add {
                1nat
            } else {
                0nat
            }
        }
    }

    /// How many of the calls of `ops`, made in order on this arena, are
    /// removals that succeed.
    pub open spec fn removals(self, ops: Seq<ArenaOp>) -> nat
        decreases ops.len(),
    {
        if ops.len() == 0 {
            0
        } else {
            self.removals(ops.drop_last()) + match ops.last() {
                ArenaOp::Remove(position) if self.run(ops.drop_last()).occupied(position) => 1nat,
                _ => 0nat,
            }
        }
    }

    /// What holds of the outcome of asking for shared access to the element
    /// at `position`, whatever the borrow state of the slot: access is given
    /// only to an occupied slot, and each refusal tells what was wrong.
    pub open spec fn shared_access<G>(self, position: int, res: Result<G, ArenaError>) -> bool {
        match res {
            Ok(_) => self.occupied(position),
            Err(ArenaError::InvalidIndexUsage) => position < 0,
            Err(ArenaError::RemovedElementAccess) => false,
            Err(ArenaError::BorrowError(BorrowError::ElementOutOfBounds)) => position
                >= self.slots.len(),
            Err(ArenaError::BorrowError(BorrowError::ElementAlreadyBorrowedMutably)) => 0
                <= position < self.slots.len(),
            Err(ArenaError::BorrowError(BorrowError::ElementAlreadyBorrowed)) => false,
            Err(ArenaError::BorrowError(BorrowError::Other(message))) => self.vacant(position)
                && message@ == "No value was found"@,
        }
    }

    /// What holds of the outcome of asking for exclusive access to the
    /// element at `position`, whatever the borrow state of the slot.
    pub open spec fn exclusive_access<G>(self, position: int, res: Result<G, ArenaError>) -> bool {
        match res {
            Ok(_) => self.occupied(position),
            Err(ArenaError::InvalidIndexUsage) => position < 0,
            Err(ArenaError::RemovedElementAccess) => false,
            Err(ArenaError::BorrowError(BorrowError::ElementOutOfBounds)) => position
                >= self.slots.len(),
            Err(ArenaError::BorrowError(BorrowError::ElementAlreadyBorrowedMutably)) => false,
            Err(ArenaError::BorrowError(BorrowError::ElementAlreadyBorrowed)) => 0 <= position
                < self.slots.len(),
            Err(ArenaError::BorrowError(BorrowError::Other(message))) => self.vacant(position)
                && message@ == "No value was found"@,
        }
    }

    /// No more slots are vacant than there are slots.
    pub proof fn lemma_free_fits(self)
        requires
            self.consistent(),
        ensures
            self.free.len() <= self.slots.len(),
            0 <= self.len() <= self.slots.len(),
    {
        let positions = set_int_range(0, self.slots.len() as int);
        lemma_int_range(0, self.slots.len() as int);
        assert(self.free.to_set().subset_of(positions)) by {
            assert forall|p: int| self.free.to_set().contains(p) implies positions.contains(p) by {
                let k = choose|k: int| 0 <= k < self.free.len() && self.free[k] == p;
                assert(self.vacant(self.free[k]));
            }
        }
        lemma_len_subset(self.free.to_set(), positions);
        self.free.unique_seq_to_set();
    }

    /// Adding keeps the model consistent, fills the slot at the next position
    /// and leaves every other slot as it was.
    pub proof fn lemma_add(self)
        requires
            self.consistent(),
        ensures
            self.add().consistent(),
            self.wf() && self.has_room() ==> self.add().wf(),
            self.add().occupied(self.next_position()),
            !self.occupied(self.next_position()),
            forall|p: int| p != self.next_position() ==> self.add().occupied(p) == self.occupied(p),
            self.add().len() == self.len() + 1,
            self.add().slot_count() == self.slot_count() + if self.free.len() > 0 {
                0nat
            } else {
                1nat
            },
    {
        let after = self.add();
        if self.free.len() > 0 {
            let last = self.free.len() - 1;
            assert(self.vacant(self.free[last]));
            assert forall|k: int| 0 <= k < after.free.len() implies after.vacant(
                #[trigger] after.free[k],
            ) by {
                assert(self.vacant(self.free[k]));
                assert(self.free[k] != self.free[last]);
            }
            assert forall|p: int| #[trigger] after.vacant(p) implies after.free.contains(p) by {
                assert(self.vacant(p));
                let k = choose|k: int| 0 <= k < self.free.len() && self.free[k] == p;
                assert(k != last);
                assert(after.free[k] == p);
            }
        } else {
            assert forall|p: int| #[trigger] after.vacant(p) implies after.free.contains(p) by {
                assert(self.vacant(p));
            }
        }
    }

    /// Removing the element of an occupied slot keeps the model consistent,
    /// vacates that slot and leaves every other slot as it was.
    pub proof fn lemma_remove(self, position: int)
        requires
            self.consistent(),
            self.occupied(position),
        ensures
            self.remove(position).consistent(),
            self.wf() ==> self.remove(position).wf(),
            self.remove(position).vacant(position),
            forall|p: int| p != position ==> self.remove(position).occupied(p) == self.occupied(p),
            self.remove(position).len() == self.len() - 1,
            self.remove(position).slot_count() == self.slot_count(),
    {
        let after = self.remove(position);
        assert forall|k: int| 0 <= k < after.free.len() implies after.vacant(
            #[trigger] after.free[k],
        ) by {
            if k < self.free.len() {
                assert(self.vacant(self.free[k]));
            }
        }
        assert(after.free.no_duplicates()) by {
            assert forall|i: int, j: int|
                0 <= i < after.free.len() && 0 <= j < after.free.len() && i != j implies after.free[i]
                != after.free[j] by {
                if i < self.free.len() {
                    assert(self.vacant(self.free[i]));
                }
                if j < self.free.len() {
                    assert(self.vacant(self.free[j]));
                }
            }
        }
        assert forall|p: int| #[trigger] after.vacant(p) implies after.free.contains(p) by {
            if p == position {
                assert(after.free[self.free.len() as int] == p);
            } else {
                assert(self.vacant(p));
                let k = choose|k: int| 0 <= k < self.free.len() && self.free[k] == p;
                assert(after.free[k] == p);
            }
        }
    }

    /// The length is the number of slots that hold an element.
    pub proof fn lemma_len_counts_occupied(self)
        requires
            self.consistent(),
        ensures
            self.occupied_positions().finite(),
            self.occupied_positions().len() == self.len(),
    {
        let positions = set_int_range(0, self.slots.len() as int);
        let vacant = self.free.to_set();
        let occupied = self.occupied_positions();
        lemma_int_range(0, self.slots.len() as int);
        self.free.unique_seq_to_set();
        assert(positions.difference(vacant) =~= occupied) by {
            assert forall|p: int| positions.difference(vacant).contains(p) implies occupied.contains(
                p,
            ) by {
                if self.vacant(p) {
                    assert(self.free.contains(p));
                }
            }
            assert forall|p: int| occupied.contains(p) implies positions.difference(vacant).contains(
                p,
            ) by {
                if vacant.contains(p) {
                    let k = choose|k: int| 0 <= k < self.free.len() && self.free[k] == p;
                    assert(self.vacant(self.free[k]));
                }
            }
        }
        assert(vacant.subset_of(positions)) by {
            assert forall|p: int| vacant.contains(p) implies positions.contains(p) by {
                let k = choose|k: int| 0 <= k < self.free.len() && self.free[k] == p;
                assert(self.vacant(self.free[k]));
            }
        }
        vstd::set_lib::lemma_set_difference_len(positions, vacant);
        assert(positions.intersect(vacant) =~= vacant);
    }
}

} // verus!
