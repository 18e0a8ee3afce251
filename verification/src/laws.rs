//! What holds of an arena across calls, proved over its model.
//!
//! `Arena::add` and `Arena::remove` change the model exactly as
//! `ArenaView::add` and `ArenaView::remove` say, and an arena is well formed
//! at all times, so each statement here holds of every arena that a program
//! can build.

use vstd::prelude::*;
use crate::error::{ArenaError, BorrowError};
use crate::model::{ArenaOp, ArenaView};

verus! {

/// Once the element at `position` is removed, the next addition goes to
/// `position`. It appends no slot, and it leaves the arena with the same
/// slots occupied, and the same slots waiting for reuse, as before the
/// removal.
pub proof fn law_slot_reuse(arena: ArenaView, position: int)
    requires
        arena.consistent(),
        arena.occupied(position),
    ensures
        arena.remove(position).has_room(),
        arena.remove(position).next_position() == position,
        arena.remove(position).add().occupied(position),
        arena.remove(position).add().slots == arena.slots,
        arena.remove(position).add().free == arena.free,
{
    let removed = arena.remove(position);
    assert(removed.free.drop_last() =~= arena.free);
    assert(removed.add().slots =~= arena.slots);
}

/// No slot is appended while one is vacant: an addition to an arena with a
/// vacant slot fills a vacant slot and leaves the number of slots as it is.
pub proof fn law_reuse_before_growth(arena: ArenaView)
    requires
        arena.consistent(),
        arena.len() < arena.slot_count(),
    ensures
        arena.vacant(arena.next_position()),
        arena.add().slot_count() == arena.slot_count(),
{
    assert(arena.vacant(arena.free[arena.free.len() - 1]));
}

/// An addition to an arena without a vacant slot appends one slot, and the
/// new element gets the position behind the slots that were there.
pub proof fn law_growth(arena: ArenaView)
    requires
        arena.consistent(),
        arena.len() == arena.slot_count(),
    ensures
        arena.next_position() == arena.slot_count(),
        arena.add().slot_count() == arena.slot_count() + 1,
{
}

/// An addition raises the length by one, a removal that succeeds lowers it
/// by one, and a removal that fails leaves it as it is.
pub proof fn law_count_step(arena: ArenaView, op: ArenaOp)
    requires
        arena.consistent(),
    ensures
        arena.apply(op).len() == arena.len() + match op {
            ArenaOp::Add => 1int,
            ArenaOp::Remove(position) => if arena.occupied(position) {
                -1int
            } else {
                0int
            },
        },
{
    match op {
        ArenaOp::Add => arena.lemma_add(),
        ArenaOp::Remove(position) => if arena.occupied(position) {
            arena.lemma_remove(position);
        },
    }
}

/// After any sequence of additions and removals, the length has grown by
/// the number of additions less the number of removals that succeeded.
pub proof fn law_count(arena: ArenaView, ops: Seq<ArenaOp>)
    requires
        arena.consistent(),
    ensures
        arena.run(ops).len() == arena.len() + ArenaView::additions(ops) - arena.removals(ops),
    decreases ops.len(),
{
    if ops.len() > 0 {
        law_count(arena, ops.drop_last());
        law_invariant(arena, ops.drop_last());
        law_count_step(arena.run(ops.drop_last()), ops.last());
    }
}

/// An empty arena on which a sequence of additions and removals was made
/// holds as many elements as were added, less those that were removed.
pub proof fn law_count_from_empty(ops: Seq<ArenaOp>)
    ensures
        ArenaView::empty().run(ops).len() == ArenaView::additions(ops) - ArenaView::empty().removals(
            ops,
        ),
{
    law_count(ArenaView::empty(), ops);
}

/// Every arena that a sequence of additions and removals leads to is
/// consistent: its free list names exactly its vacant slots, each once. And
/// its length is the number of its occupied slots.
pub proof fn law_invariant(arena: ArenaView, ops: Seq<ArenaOp>)
    requires
        arena.consistent(),
    ensures
        arena.run(ops).consistent(),
        arena.run(ops).occupied_positions().finite(),
        arena.run(ops).occupied_positions().len() == arena.run(ops).len(),
    decreases ops.len(),
{
    if ops.len() > 0 {
        law_invariant(arena, ops.drop_last());
        let reached = arena.run(ops.drop_last());
        match ops.last() {
            ArenaOp::Add => reached.lemma_add(),
            ArenaOp::Remove(position) => if reached.occupied(position) {
                reached.lemma_remove(position);
            },
        }
    }
    arena.run(ops).lemma_len_counts_occupied();
}

/// An arena grows only: no addition and no removal takes a slot away, and
/// only an addition to an arena without a vacant slot appends one.
pub proof fn law_never_shrinks(arena: ArenaView, ops: Seq<ArenaOp>)
    requires
        arena.consistent(),
    ensures
        arena.run(ops).slot_count() >= arena.slot_count(),
        arena.run(ops).slot_count() <= arena.slot_count() + ArenaView::additions(ops),
    decreases ops.len(),
{
    if ops.len() > 0 {
        law_never_shrinks(arena, ops.drop_last());
        law_invariant(arena, ops.drop_last());
        let reached = arena.run(ops.drop_last());
        match ops.last() {
            ArenaOp::Add => reached.lemma_add(),
            ArenaOp::Remove(position) => if reached.occupied(position) {
                reached.lemma_remove(position);
            },
        }
    }
}

/// A removal at a negative position fails with `InvalidIndexUsage` and
/// changes nothing, whatever the arena holds.
pub proof fn law_invalid_index_removal(arena: ArenaView, position: int)
    requires
        position < 0,
    ensures
        arena.removal_error(position) == Some(ArenaError::InvalidIndexUsage),
        arena.apply(ArenaOp::Remove(position)) == arena,
{
}

/// Asking for access at a negative position, shared or exclusive, can only
/// end in `InvalidIndexUsage`.
pub proof fn law_invalid_index_access<G>(arena: ArenaView, position: int, res: Result<G, ArenaError>)
    requires
        position < 0,
        arena.shared_access(position, res) || arena.exclusive_access(position, res),
    ensures
        res matches Err(ArenaError::InvalidIndexUsage),
{
}

/// Of two removals at one position that names a slot, with no addition
/// between the two, the second fails with `RemovedElementAccess` and changes
/// nothing, whether the first took an element out or failed itself.
pub proof fn law_double_removal(arena: ArenaView, position: int)
    requires
        position >= 0,
    ensures
        arena.apply(ArenaOp::Remove(position)).removal_error(position) == Some(
            ArenaError::RemovedElementAccess,
        ),
        arena.apply(ArenaOp::Remove(position)).apply(ArenaOp::Remove(position)) == arena.apply(
            ArenaOp::Remove(position),
        ),
        arena.occupied(position) ==> arena.removal_error(position) is None,
{
}

/// Access is given to occupied slots only: whatever the borrow state, a
/// guard comes back only for a position that holds an element.
pub proof fn law_access_needs_element<G>(arena: ArenaView, position: int, res: Result<G, ArenaError>)
    requires
        arena.shared_access(position, res) || arena.exclusive_access(position, res),
        res is Ok,
    ensures
        arena.occupied(position),
{
}

/// Access to an element is refused for one reason only: the borrow state of
/// its slot. Shared access to an occupied slot fails, if it fails, with
/// `ElementAlreadyBorrowedMutably`, and exclusive access with
/// `ElementAlreadyBorrowed`.
pub proof fn law_element_refused_for_conflict_only<G>(
    arena: ArenaView,
    position: int,
    res: Result<G, ArenaError>,
)
    requires
        arena.occupied(position),
        res is Err,
    ensures
        arena.shared_access(position, res) ==> res matches Err(
            ArenaError::BorrowError(BorrowError::ElementAlreadyBorrowedMutably),
        ),
        arena.exclusive_access(position, res) ==> res matches Err(
            ArenaError::BorrowError(BorrowError::ElementAlreadyBorrowed),
        ),
{
}

/// Access beyond the last slot is refused with `ElementOutOfBounds`,
/// whatever the borrow state.
pub proof fn law_access_beyond_slots<G>(arena: ArenaView, position: int, res: Result<G, ArenaError>)
    requires
        position >= arena.slot_count(),
        arena.shared_access(position, res) || arena.exclusive_access(position, res),
    ensures
        res matches Err(ArenaError::BorrowError(BorrowError::ElementOutOfBounds)),
{
}

} // verus!
