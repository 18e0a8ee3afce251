//! The slot storage: the cells of an arena, kept in a `vec_cell::VecCell`.
//!
//! Every function of this module is a thin call into `vec_cell`. Verus does
//! not read their bodies: it takes each contract on trust, so each one says no
//! more than the source of `vec_cell` shows. A cell holds `Some` element or
//! `None`; the contracts speak of which cells are filled, never of the
//! elements, because an element can change behind a shared reference, through
//! an exclusive guard.

use vstd::prelude::*;
use vec_cell::{ElementRef, ElementRefMut, Flatten, VecCell};
use crate::error::BorrowError;

verus! {

/// `vec_cell::VecCell`, a vector of cells with a borrow mark each. Nothing
/// of what it holds is visible to the verifier.
#[verifier::external_type_specification]
#[verifier::external_body]
#[verifier::reject_recursive_types(T)]
pub struct ExVecCell<T>(VecCell<T>);

/// `vec_cell::ElementRef`, the guard of a shared borrow. Nothing of it is
/// visible to the verifier.
#[verifier::external_type_specification]
#[verifier::external_body]
#[verifier::reject_recursive_types(T)]
pub struct ExElementRef<'borrow, T>(ElementRef<'borrow, T>);

/// `vec_cell::ElementRefMut`, the guard of an exclusive borrow. Nothing of
/// it is visible to the verifier.
#[verifier::external_type_specification]
#[verifier::external_body]
#[verifier::reject_recursive_types(T)]
pub struct ExElementRefMut<'borrow, T: 'borrow>(ElementRefMut<'borrow, T>);

/// The cells of an arena.
///
/// `filled` stands for what `cells` holds: one entry per cell, `true` where
/// the cell is `Some`. Only the functions below make or change a storage, and
/// each changes both fields together, as its contract says.
///
/// Which cells are filled changes only through an exclusive reference to the
/// storage. A guard that `borrow` or `borrow_mut` hands out under a shared
/// reference gives access to the element inside a `Some`, not to the cell, so
/// a filled cell stays filled whatever is done through the guard.
#[verifier::reject_recursive_types(T)]
pub struct SlotStorage<T> {
    cells: VecCell<Option<T>>,
    filled: Ghost<Seq<bool>>,
}

impl<T> SlotStorage<T> {
    /// Which cells hold an element, in position order.
    pub closed spec fn filled(&self) -> Seq<bool> {
        self.filled@
    }

    /// `VecCell::new`: a storage without cells.
    #[verifier::external_body]
    pub(crate) fn new() -> (storage: Self)
        ensures
            storage.filled() == Seq::<bool>::empty(),
    {
        SlotStorage { cells: VecCell::new(), filled: Ghost(Seq::empty()) }
    }

    /// `VecCell::len`: the number of cells.
    #[verifier::external_body]
    pub(crate) fn len(&self) -> (count: usize)
        ensures
            count == self.filled().len(),
    {
        self.cells.len()
    }

    /// `VecCell::push`: appends one cell that holds `slot`. A `Vec` never
    /// holds more than `isize::MAX` bytes, so the call is kept below that.
    #[verifier::external_body]
    pub(crate) fn push(&mut self, slot: Option<T>)
        requires
            old(self).filled().len() < isize::MAX,
        ensures
            final(self).filled() == old(self).filled().push(slot is Some),
    {
        self.cells.push(slot)
    }

    /// `VecCell::try_take`: moves the content of the cell at `offset` out and
    /// leaves `None`. It fails beyond the last cell, and on a cell that is
    /// marked as borrowed; a failure changes nothing.
    #[verifier::external_body]
    pub(crate) fn take(&mut self, offset: usize) -> (res: Result<Option<T>, BorrowError>)
        ensures
            match res {
                Ok(slot) => {
                    &&& offset < old(self).filled().len()
                    &&& (slot is Some) == old(self).filled()[offset as int]
                    &&& final(self).filled() == old(self).filled().update(offset as int, false)
                },
                Err(error) => {
                    &&& final(self).filled() == old(self).filled()
                    &&& if offset < old(self).filled().len() {
                        error is ElementAlreadyBorrowed
                    } else {
                        error is ElementOutOfBounds
                    }
                },
            },
    {
        match self.cells.try_take(offset) {
            Ok(slot) => Ok(slot),
            Err(vec_cell::BorrowError::ElementOutOfBounds) => Err(BorrowError::ElementOutOfBounds),
            Err(vec_cell::BorrowError::ElementAlreadyBorrowedMutably) => Err(
                BorrowError::ElementAlreadyBorrowedMutably,
            ),
            Err(vec_cell::BorrowError::ElementAlreadyBorrowed) => Err(
                BorrowError::ElementAlreadyBorrowed,
            ),
            Err(vec_cell::BorrowError::Other(message)) => Err(BorrowError::Other(message)),
        }
    }

    /// `VecCell::try_borrow_mut`, then a store through the guard: puts
    /// `value` into the cell at `offset`. It fails beyond the last cell, and
    /// on a cell that is marked as borrowed; a failure changes nothing and
    /// hands `value` back.
    #[verifier::external_body]
    pub(crate) fn fill(&mut self, offset: usize, value: T) -> (res: Result<(), T>)
        ensures
            match res {
                Ok(_) => {
                    &&& offset < old(self).filled().len()
                    &&& final(self).filled() == old(self).filled().update(offset as int, true)
                },
                Err(back) => back == value && final(self).filled() == old(self).filled(),
            },
    {
        match self.cells.try_borrow_mut(offset) {
            Ok(mut cell) => {
                *cell = Some(value);
                Ok(())
            },
            Err(_) => Err(value),
        }
    }

    /// `VecCell::remove`: takes the cell at `offset` out, with its borrow
    /// mark, and moves the cells behind it one position down. It panics
    /// beyond the last cell.
    #[verifier::external_body]
    pub(crate) fn evict(&mut self, offset: usize) -> (slot: Option<T>)
        requires
            offset < old(self).filled().len(),
        ensures
            (slot is Some) == old(self).filled()[offset as int],
            final(self).filled() == old(self).filled().remove(offset as int),
    {
        self.cells.remove(offset)
    }

    /// `VecCell::insert`: puts a new cell that holds `slot`, marked as not
    /// borrowed, at `offset`, and moves the cells from there on one position
    /// up. It panics beyond the position behind the last cell.
    #[verifier::external_body]
    pub(crate) fn insert(&mut self, offset: usize, slot: Option<T>)
        requires
            offset <= old(self).filled().len(),
            old(self).filled().len() < isize::MAX,
        ensures
            final(self).filled() == old(self).filled().insert(offset as int, slot is Some),
    {
        self.cells.insert(offset, slot)
    }

    /// `VecCell::try_borrow`, then `Flatten::flatten`: a shared guard on the
    /// element in the cell at `offset`. Beyond the last cell it fails with
    /// `ElementOutOfBounds`; on a cell lent out exclusively, with
    /// `ElementAlreadyBorrowedMutably`; on a cell that holds nothing, with
    /// `Other` and the message of `flatten`. The borrow mark is tested before
    /// the content.
    #[verifier::external_body]
    pub(crate) fn borrow(&self, offset: usize) -> (res: Result<ElementRef<'_, T>, BorrowError>)
        ensures
            match res {
                Ok(_) => offset < self.filled().len() && self.filled()[offset as int],
                Err(BorrowError::ElementOutOfBounds) => offset >= self.filled().len(),
                Err(BorrowError::ElementAlreadyBorrowedMutably) => offset < self.filled().len(),
                Err(BorrowError::ElementAlreadyBorrowed) => false,
                Err(BorrowError::Other(message)) => {
                    &&& offset < self.filled().len()
                    &&& !self.filled()[offset as int]
                    &&& message@ == "No value was found"@
                },
            },
    {
        match self.cells.try_borrow(offset).flatten() {
            Ok(guard) => Ok(guard),
            Err(vec_cell::BorrowError::ElementOutOfBounds) => Err(BorrowError::ElementOutOfBounds),
            Err(vec_cell::BorrowError::ElementAlreadyBorrowedMutably) => Err(
                BorrowError::ElementAlreadyBorrowedMutably,
            ),
            Err(vec_cell::BorrowError::ElementAlreadyBorrowed) => Err(
                BorrowError::ElementAlreadyBorrowed,
            ),
            Err(vec_cell::BorrowError::Other(message)) => Err(BorrowError::Other(message)),
        }
    }

    /// `VecCell::try_borrow_mut`, then `Flatten::flatten`: an exclusive guard
    /// on the element in the cell at `offset`. Beyond the last cell it fails
    /// with `ElementOutOfBounds`; on a cell lent out in either way, with
    /// `ElementAlreadyBorrowed`; on a cell that holds nothing, with `Other`
    /// and the message of `flatten`. The borrow mark is tested before the
    /// content.
    #[verifier::external_body]
    pub(crate) fn borrow_mut(&self, offset: usize) -> (res: Result<
        ElementRefMut<'_, T>,
        BorrowError,
    >)
        ensures
            match res {
                Ok(_) => offset < self.filled().len() && self.filled()[offset as int],
                Err(BorrowError::ElementOutOfBounds) => offset >= self.filled().len(),
                Err(BorrowError::ElementAlreadyBorrowedMutably) => false,
                Err(BorrowError::ElementAlreadyBorrowed) => offset < self.filled().len(),
                Err(BorrowError::Other(message)) => {
                    &&& offset < self.filled().len()
                    &&& !self.filled()[offset as int]
                    &&& message@ == "No value was found"@
                },
            },
    {
        match self.cells.try_borrow_mut(offset).flatten() {
            Ok(guard) => Ok(guard),
            Err(vec_cell::BorrowError::ElementOutOfBounds) => Err(BorrowError::ElementOutOfBounds),
            Err(vec_cell::BorrowError::ElementAlreadyBorrowedMutably) => Err(
                BorrowError::ElementAlreadyBorrowedMutably,
            ),
            Err(vec_cell::BorrowError::ElementAlreadyBorrowed) => Err(
                BorrowError::ElementAlreadyBorrowed,
            ),
            Err(vec_cell::BorrowError::Other(message)) => Err(BorrowError::Other(message)),
        }
    }
}

} // verus!
