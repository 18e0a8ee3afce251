//! The arena: elements at stable positions, with vacant positions reused.

use vstd::prelude::*;
use vec_cell::{ElementRef, ElementRefMut};
use crate::error::{ArenaError, BorrowError};
use crate::handle::{Handle, Handleable, RawHandle};
use crate::index::Index;
use crate::model::{ArenaOp, ArenaView};
use crate::storage::SlotStorage;

verus! {

/// Stores elements of one type at stable positions and hands out an
/// [`Index`] for each. A removed element's position is reused by a later
/// `add`, the position freed last first.
///
/// An element is reached through a guard, shared or exclusive, that the slot
/// storage gives out under a borrow test of its own for each slot. The view
/// of an arena says which slots hold an element and which wait for reuse. It
/// says nothing of the elements themselves: those can change under a shared
/// reference to the arena, through an exclusive guard.
#[verifier::reject_recursive_types(T)]
pub struct Arena<T> {
    data: SlotStorage<T>,
    free: Vec<Index>,
}

impl<T> View for Arena<T> {
    type V = ArenaView;

    closed spec fn view(&self) -> ArenaView {
        ArenaView { slots: self.data.filled(), free: positions(self.free@) }
    }
}

/// The positions that a list of indices names.
pub open spec fn positions(indices: Seq<Index>) -> Seq<int> {
    indices.map_values(|index: Index| index@)
}

/// Puts `value` into the cell at `offset`. Where the cell is still marked as
/// borrowed, by a guard that was leaked, the cell is replaced by a new one:
/// with exclusive access to the storage no guard can be in use.
fn put<T>(data: &mut SlotStorage<T>, offset: usize, value: T)
    requires
        offset < old(data).filled().len() <= isize::MAX,
    ensures
        final(data).filled() == old(data).filled().update(offset as int, true),
{
    match data.fill(offset, value) {
        Ok(_) => {},
        Err(value) => {
            let _ = data.evict(offset);
            data.insert(offset, Some(value));
        },
    }
}

/// Moves the content of the cell at `offset` out and leaves the cell vacant.
/// Where the cell is still marked as borrowed, by a guard that was leaked,
/// the cell is replaced by a new one: with exclusive access to the storage no
/// guard can be in use.
fn pull<T>(data: &mut SlotStorage<T>, offset: usize) -> (slot: Option<T>)
    requires
        offset < old(data).filled().len() <= isize::MAX,
    ensures
        (slot is Some) == old(data).filled()[offset as int],
        final(data).filled() == old(data).filled().update(offset as int, false),
{
    match data.take(offset) {
        Ok(slot) => slot,
        Err(_) => {
            let slot = data.evict(offset);
            data.insert(offset, None);
            slot
        },
    }
}

impl<T> Arena<T> {
    /// The free list names exactly the vacant slots, each once, and no more
    /// slots are there than a vector can hold.
    #[verifier::type_invariant]
    pub open spec fn wf(&self) -> bool {
        self@.wf()
    }

    /// An arena without slots.
    pub fn new() -> (arena: Self)
        ensures
            arena@ == ArenaView::empty(),
    {
        let arena = Arena { data: SlotStorage::new(), free: Vec::new() };
        assert(arena@.free =~= Seq::<int>::empty());
        arena
    }

    /// Takes the storage and the free list out and leaves an empty arena.
    fn take_parts(&mut self) -> (parts: (SlotStorage<T>, Vec<Index>))
        ensures
            parts.0.filled() == old(self)@.slots,
            positions(parts.1@) == old(self)@.free,
            final(self)@ == ArenaView::empty(),
    {
        let mut parts = Arena::new();
        std::mem::swap(self, &mut parts);
        let Arena { data, free } = parts;
        (data, free)
    }

    /// The number of elements held.
    pub fn len(&self) -> (count: usize)
        ensures
            count == self@.len(),
    {
        proof {
            use_type_invariant(self);
            self@.lemma_free_fits();
        }
        self.data.len() - self.free.len()
    }

    /// Whether the arena holds no element.
    pub fn is_empty(&self) -> (empty: bool)
        ensures
            empty == (self@.len() == 0),
    {
        self.len() == 0
    }

    /// Stores `value` and returns the index of its slot: the vacant slot
    /// freed last, or a new slot behind the others when none is vacant.
    pub fn add(&mut self, value: T) -> (index: Index)
        requires
            old(self)@.has_room(),
        ensures
            index@ == old(self)@.next_position(),
            final(self)@ == old(self)@.add(),
            final(self)@ == old(self)@.apply(ArenaOp::Add),
    {
        proof {
            use_type_invariant(&*self);
            self@.lemma_add();
        }
        let (mut data, mut free) = self.take_parts();
        let index = match free.pop() {
            Some(free_index) => {
                assert(old(self)@.vacant(old(self)@.free.last()));
                put(&mut data, free_index.offset(), value);
                free_index
            },
            None => {
                let offset = data.len();
                data.push(Some(value));
                Index::from_offset(offset)
            },
        };
        assert(positions(free@) =~= old(self)@.add().free);
        *self = Arena { data, free };
        index
    }

    /// Stores `value` as `add` does, if there is room for it, and hands it
    /// back if there is none.
    pub fn try_add(&mut self, value: T) -> (res: Result<Index, T>)
        ensures
            match res {
                Ok(index) => {
                    &&& old(self)@.has_room()
                    &&& index@ == old(self)@.next_position()
                    &&& final(self)@ == old(self)@.add()
                },
                Err(back) => !old(self)@.has_room() && back == value && final(self)@ == old(self)@,
            },
    {
        if self.free.len() == 0 && self.data.len() >= isize::MAX as usize {
            Err(value)
        } else {
            Ok(self.add(value))
        }
    }

    /// The arena that holds the elements of `data`, each at the position
    /// that it has in `data`.
    pub fn from_vec(data: Vec<T>) -> (arena: Self)
        requires
            data.len() <= isize::MAX,
        ensures
            arena@ == ArenaView::full(data.len() as nat),
    {
        let mut arena = Arena::new();
        assert(arena@ =~= ArenaView::full(0));
        for value in iter: data.into_iter()
            invariant
                iter.index() <= data.len() <= isize::MAX,
                arena@ == ArenaView::full(iter.index() as nat),
        {
            arena.add(value);
            assert(arena@ =~= ArenaView::full((iter.index() + 1) as nat));
        }
        arena
    }

    /// Takes the element at `index` out of the arena. Its slot becomes
    /// vacant and is the first to be reused.
    pub fn remove(&mut self, index: Index) -> (res: Result<T, ArenaError>)
        ensures
            match res {
                Ok(_) => {
                    &&& old(self)@.removal_error(index@) is None
                    &&& final(self)@ == old(self)@.remove(index@)
                },
                Err(error) => {
                    &&& old(self)@.removal_error(index@) == Some(error)
                    &&& final(self)@ == old(self)@
                },
            },
            final(self)@ == old(self)@.apply(ArenaOp::Remove(index@)),
    {
        proof {
            use_type_invariant(&*self);
        }
        if index.is_invalid() {
            return Err(ArenaError::InvalidIndexUsage);
        }
        let offset = match index.try_offset() {
            Some(offset) => offset,
            None => {
                return Err(ArenaError::RemovedElementAccess);
            },
        };
        if offset >= self.data.len() {
            return Err(ArenaError::RemovedElementAccess);
        }
        let (mut data, mut free) = self.take_parts();
        let res = match pull(&mut data, offset) {
            Some(value) => {
                proof {
                    old(self)@.lemma_remove(index@);
                }
                free.push(index);
                assert(positions(free@) =~= old(self)@.remove(index@).free);
                Ok(value)
            },
            None => {
                assert(data.filled() =~= old(self)@.slots);
                Err(ArenaError::RemovedElementAccess)
            },
        };
        *self = Arena { data, free };
        res
    }

    /// A shared guard on the element at `index`: it lends the element out
    /// for reading until it goes out of scope. Whether the storage gives
    /// one depends on the guards that are out at the moment; the contract
    /// says what holds of either outcome.
    pub fn lookup(&self, index: Index) -> (res: Result<ElementRef<'_, T>, ArenaError>)
        ensures
            self@.shared_access(index@, res),
    {
        proof {
            use_type_invariant(self);
        }
        if index.is_invalid() {
            return Err(ArenaError::InvalidIndexUsage);
        }
        match index.try_offset() {
            Some(offset) => ArenaError::from_storage(self.data.borrow(offset)),
            None => Err(ArenaError::BorrowError(BorrowError::ElementOutOfBounds)),
        }
    }

    /// An exclusive guard on the element at `index`: it lends the element
    /// out for reading and writing until it goes out of scope. Whether the
    /// storage gives one depends on the guards that are out at the moment;
    /// the contract says what holds of either outcome.
    pub fn lookup_mut(&self, index: Index) -> (res: Result<ElementRefMut<'_, T>, ArenaError>)
        ensures
            self@.exclusive_access(index@, res),
    {
        proof {
            use_type_invariant(self);
        }
        if index.is_invalid() {
            return Err(ArenaError::InvalidIndexUsage);
        }
        match index.try_offset() {
            Some(offset) => ArenaError::from_storage(self.data.borrow_mut(offset)),
            None => Err(ArenaError::BorrowError(BorrowError::ElementOutOfBounds)),
        }
    }
}

impl<T> From<Vec<T>> for Arena<T> {
    /// The arena that holds the elements of `data`, each at the position
    /// that it has in `data`. A vector of more than `isize::MAX` elements,
    /// which only elements without size allow, gives up those behind the
    /// first `isize::MAX`.
    fn from(data: Vec<T>) -> (arena: Arena<T>)
        ensures
            arena@ == ArenaView::full(
                if data.len() <= isize::MAX {
                    data.len() as nat
                } else {
                    isize::MAX as nat
                },
            ),
    {
        let mut data = data;
        data.truncate(isize::MAX as usize);
        Arena::from_vec(data)
    }
}

impl<T> vstd::std_specs::convert::FromSpecImpl<Vec<T>> for Arena<T> {
    /// An arena is no value that a spec function can build: what `from`
    /// returns is stated by its own contract.
    open spec fn obeys_from_spec() -> bool {
        false
    }

    open spec fn from_spec(data: Vec<T>) -> Arena<T> {
        arbitrary()
    }
}

impl<'arena, T: Handleable<'arena>> Arena<T> {
    /// The handle of `T`'s handle type for the slot at `index`, made by that
    /// type's `from_raw`. The index is not tested: whether it names an
    /// element shows when the handle is used.
    pub fn handle(
        &'arena self,
        index: Index,
        userdata: <T::Handle as Handle<'arena>>::Userdata,
    ) -> (handle: T::Handle)
        ensures
            handle_made(self, index, userdata, handle),
    {
        let raw_handle = RawHandle::new(self, index);
        <T::Handle as Handle<'arena>>::from_raw(raw_handle, userdata)
    }

    /// An iterator over handles for all slots of the arena, occupied or
    /// vacant, from the first slot on.
    pub fn handle_iter(&'arena self, userdata: <T::Handle as Handle<'arena>>::Userdata) -> (iter:
        HandleIter<'arena, T>)
        ensures
            iter.arena() == self,
            iter.userdata() == userdata,
            iter.position()@ == 0,
    {
        HandleIter { arena: self, userdata, last_index: Index::new(0) }
    }
}

/// Whether `handle` is what the `from_raw` of `T`'s handle type can make of
/// the raw handle for the slot at `index` of `arena`, with `userdata`.
pub open spec fn handle_made<'arena, T: Handleable<'arena>>(
    arena: &'arena Arena<T>,
    index: Index,
    userdata: <T::Handle as Handle<'arena>>::Userdata,
    handle: T::Handle,
) -> bool {
    call_ensures(
        <T::Handle as Handle<'arena>>::from_raw,
        (RawHandle { arena, index }, userdata),
        handle,
    )
}

/// Walks the slots of an arena in position order and makes a handle for
/// each, whether the slot is occupied or not.
#[verifier::reject_recursive_types(T)]
pub struct HandleIter<'arena, T: Handleable<'arena>> {
    arena: &'arena Arena<T>,
    userdata: <T::Handle as Handle<'arena>>::Userdata,
    last_index: Index,
}

impl<'arena, T: Handleable<'arena>> HandleIter<'arena, T> {
    /// The cursor lies at a slot or right behind the last one.
    #[verifier::type_invariant]
    spec fn inv(&self) -> bool {
        0 <= self.last_index@ <= self.arena@.slot_count()
    }

    /// The arena that is walked.
    pub closed spec fn arena(&self) -> &'arena Arena<T> {
        self.arena
    }

    /// The userdata that each handle gets a clone of.
    pub closed spec fn userdata(&self) -> <T::Handle as Handle<'arena>>::Userdata {
        self.userdata
    }

    /// The index of the slot that the next handle is for.
    pub closed spec fn position(&self) -> Index {
        self.last_index
    }

    /// Whether `handle` is one that the iterator can give for the slot at
    /// `position`: one made for the index of that position, from a clone of
    /// the iterator's userdata.
    pub open spec fn yields(&self, position: int, handle: T::Handle) -> bool {
        exists|index: Index, userdata: <T::Handle as Handle<'arena>>::Userdata|
            {
                &&& index@ == position
                &&& cloned(self.userdata(), userdata)
                &&& #[trigger] handle_made(self.arena(), index, userdata, handle)
            }
    }

    /// The handle for the slot at the cursor, which moves on by one; `None`
    /// once the cursor is behind the last slot.
    pub fn next(&mut self) -> (item: Option<T::Handle>)
        ensures
            final(self).arena() == old(self).arena(),
            final(self).userdata() == old(self).userdata(),
            match item {
                Some(handle) => {
                    &&& 0 <= old(self).position()@ < old(self).arena()@.slot_count()
                    &&& final(self).position()@ == old(self).position()@ + 1
                    &&& old(self).yields(old(self).position()@, handle)
                },
                None => {
                    &&& old(self).position()@ == old(self).arena()@.slot_count()
                    &&& final(self).position() == old(self).position()
                },
            },
    {
        proof {
            use_type_invariant(&*self);
            use_type_invariant(self.arena);
        }
        let last_index: usize = self.last_index.offset();
        if last_index >= self.arena.data.len() {
            return None;
        }
        let userdata = self.userdata.clone();
        let ghost given = userdata;
        let handle = self.arena.handle(self.last_index, userdata);
        assert(old(self).yields(old(self).position()@, handle)) by {
            assert(cloned(old(self).userdata(), given));
            assert(handle_made(old(self).arena(), old(self).position(), given, handle));
        }
        self.last_index = Index::from_offset(last_index + 1);
        Some(handle)
    }

    /// The handles that are left to give, in the order in which `next`
    /// gives them: one for each slot from the cursor on, in position order.
    pub fn collect(self) -> (handles: Vec<T::Handle>)
        ensures
            handles.len() == self.arena()@.slot_count() - self.position()@,
            forall|k: int|
                0 <= k < handles.len() ==> self.yields(self.position()@ + k, #[trigger] handles[k]),
    {
        let mut iter = self;
        let mut handles: Vec<T::Handle> = Vec::new();
        proof {
            use_type_invariant(&iter);
        }
        loop
            invariant
                iter.arena() == self.arena(),
                iter.userdata() == self.userdata(),
                self.position()@ <= iter.position()@ <= self.arena()@.slot_count(),
                handles.len() == iter.position()@ - self.position()@,
                forall|k: int|
                    0 <= k < handles.len() ==> self.yields(
                        self.position()@ + k,
                        #[trigger] handles[k],
                    ),
            ensures
                iter.position()@ == self.arena()@.slot_count(),
            decreases self.arena()@.slot_count() - iter.position()@,
        {
            let ghost before = iter;
            let ghost given = handles@;
            match iter.next() {
                Some(handle) => {
                    handles.push(handle);
                    assert forall|k: int| 0 <= k < handles.len() implies self.yields(
                        self.position()@ + k,
                        #[trigger] handles[k],
                    ) by {
                        if k < given.len() {
                            assert(handles[k] == given[k]);
                        } else {
                            assert(before.yields(before.position()@, handle));
                        }
                    }
                },
                None => {
                    break ;
                },
            }
        }
        handles
    }
}

} // verus!
