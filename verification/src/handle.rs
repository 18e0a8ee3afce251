//! Handles: copyable references to a slot of an arena.

use vstd::prelude::*;
use std::cmp::Ordering;
use vec_cell::{ElementRef, ElementRefMut};
use crate::arena::Arena;
use crate::error::ArenaError;
use crate::index::Index;

verus! {

/// A type without values. Its one variant holds a value of a type that has
/// none, so it can never be built.
#[derive(Debug, Clone, Copy)]
pub enum Void {
    Never(core::convert::Infallible),
}

/// The userdata of a handle that carries none: it is always `None`.
pub type EmptyUserdata = Option<Void>;

/// Ties an element type to the handle type that `Arena::handle` makes for it.
pub trait Handleable<'arena>: Sized {
    type Handle: Handle<'arena, Type = Self>;
}

/// A reference to a slot of an arena, with whatever context the implementor
/// binds to it. Access to the element goes through the raw handle that
/// `to_raw` gives.
pub trait Handle<'arena>: Sized where Self: 'arena {
    /// The element type of the arena.
    type Type;

    /// Context handed to `from_raw`; an iterator over handles clones it once
    /// for each handle.
    type Userdata: Clone;

    /// Makes a handle of a raw handle and the context to bind to it.
    fn from_raw(raw: RawHandle<'arena, Self::Type>, userdata: Self::Userdata) -> Self;

    /// The raw handle that the handle stands on.
    fn to_raw(&self) -> RawHandle<'arena, Self::Type>;

    /// A shared guard on the element: what `Arena::lookup` gives for the
    /// raw handle's index.
    fn get(&self) -> (res: Result<ElementRef<'arena, Self::Type>, ArenaError>)
        ensures
            exists|raw: RawHandle<'arena, Self::Type>|
                {
                    &&& #[trigger] call_ensures(Self::to_raw, (self,), raw)
                    &&& raw.arena@.shared_access(raw.index@, res)
                },
    {
        let raw = self.to_raw();
        raw.arena.lookup(raw.index)
    }

    /// An exclusive guard on the element: what `Arena::lookup_mut` gives for
    /// the raw handle's index.
    fn get_mut(&self) -> (res: Result<ElementRefMut<'arena, Self::Type>, ArenaError>)
        ensures
            exists|raw: RawHandle<'arena, Self::Type>|
                {
                    &&& #[trigger] call_ensures(Self::to_raw, (self,), raw)
                    &&& raw.arena@.exclusive_access(raw.index@, res)
                },
    {
        let raw = self.to_raw();
        raw.arena.lookup_mut(raw.index)
    }

    /// Whether shared access to the element can be had right now. It cannot
    /// where the slot holds no element, nor while the element is lent out
    /// exclusively.
    fn is_live(&self) -> (found: bool)
        ensures
            exists|raw: RawHandle<'arena, Self::Type>|
                {
                    &&& #[trigger] call_ensures(Self::to_raw, (self,), raw)
                    &&& found ==> raw.arena@.occupied(raw.index@)
                },
    {
        let raw = self.to_raw();
        raw.arena.lookup(raw.index).is_ok()
    }

    /// The arena that the handle points into.
    fn arena(&self) -> (arena: &'arena Arena<Self::Type>)
        ensures
            exists|raw: RawHandle<'arena, Self::Type>|
                #[trigger] call_ensures(Self::to_raw, (self,), raw) && arena == raw.arena,
    {
        self.to_raw().arena
    }

    /// The index of the slot that the handle points to.
    fn index(&self) -> (index: Index)
        ensures
            exists|raw: RawHandle<'arena, Self::Type>|
                #[trigger] call_ensures(Self::to_raw, (self,), raw) && index == raw.index,
    {
        self.to_raw().index
    }
}

/// The plain handle: an arena and an index, nothing else. Two raw handles
/// are compared by their indices alone, which says something only of handles
/// into one arena.
#[verifier::reject_recursive_types(T)]
pub struct RawHandle<'arena, T> {
    pub arena: &'arena Arena<T>,
    pub index: Index,
}

impl<'arena, T> RawHandle<'arena, T> {
    /// The raw handle for the slot at `index` of `arena`.
    pub(crate) fn new(arena: &'arena Arena<T>, index: Index) -> (raw: Self)
        ensures
            raw == (RawHandle { arena, index }),
    {
        Self { arena, index }
    }
}

impl<'arena, T> Handle<'arena> for RawHandle<'arena, T> {
    type Type = T;

    type Userdata = EmptyUserdata;

    /// The raw handle itself: it binds no context.
    fn from_raw(raw: RawHandle<'arena, T>, _userdata: EmptyUserdata) -> (handle: Self)
        ensures
            handle == raw,
    {
        raw
    }

    /// A copy of the handle.
    fn to_raw(&self) -> (raw: RawHandle<'arena, T>)
        ensures
            raw == *self,
    {
        *self
    }
}

impl<'arena, T> Clone for RawHandle<'arena, T> {
    fn clone(&self) -> (raw: Self)
        ensures
            raw == *self,
    {
        Self::new(self.arena, self.index)
    }
}

impl<'arena, T> Copy for RawHandle<'arena, T> {

}

impl<'arena, T> PartialEq for RawHandle<'arena, T> {
    fn eq(&self, other: &Self) -> (r: bool) {
        self.index == other.index
    }
}

impl<'arena, T> vstd::std_specs::cmp::PartialEqSpecImpl for RawHandle<'arena, T> {
    open spec fn obeys_eq_spec() -> bool {
        true
    }

    /// Handles are equal when their indices are; the arenas are not compared.
    open spec fn eq_spec(&self, other: &Self) -> bool {
        self.index == other.index
    }
}

impl<'arena, T> Eq for RawHandle<'arena, T> {

}

impl<'arena, T> PartialOrd for RawHandle<'arena, T> {
    fn partial_cmp(&self, other: &Self) -> (r: Option<Ordering>) {
        let left = self.index.raw();
        let right = other.index.raw();
        if left < right {
            Some(Ordering::Less)
        } else if left > right {
            Some(Ordering::Greater)
        } else {
            Some(Ordering::Equal)
        }
    }
}

impl<'arena, T> vstd::std_specs::cmp::PartialOrdSpecImpl for RawHandle<'arena, T> {
    open spec fn obeys_partial_cmp_spec() -> bool {
        true
    }

    /// Handles are ordered as their indices are; the arenas are not compared.
    open spec fn partial_cmp_spec(&self, other: &Self) -> Option<Ordering> {
        if self.index@ < other.index@ {
            Some(Ordering::Less)
        } else if self.index@ > other.index@ {
            Some(Ordering::Greater)
        } else {
            Some(Ordering::Equal)
        }
    }
}

} // verus!
