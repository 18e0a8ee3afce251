//! Slot identifiers.

use vstd::prelude::*;
use std::cmp::Ordering;

verus! {

/// Identifies a slot of an arena by its position.
///
/// An index wraps a signed integer. A non-negative value names a position; a
/// negative one names no slot. Indices are equal, and ordered, as the integers
/// that they wrap.
#[derive(Debug, Clone, Copy, PartialEq, Eq, Structural, Ord)]
pub struct Index {
    index: i64,
}

impl View for Index {
    type V = int;

    /// The raw integer that the index wraps.
    closed spec fn view(&self) -> int {
        self.index as int
    }
}

impl Index {
    /// The index that wraps `raw`; the spec-level counterpart of [`Index::new`].
    pub closed spec fn spec_new(raw: i64) -> Index {
        Index { index: raw }
    }

    /// Whether the index names no slot; the spec-level counterpart of
    /// [`Index::is_invalid`].
    pub open spec fn spec_is_invalid(&self) -> bool {
        self@ < 0
    }

    /// The index that wraps `index`.
    #[verifier::when_used_as_spec(spec_new)]
    pub fn new(index: i64) -> (r: Index)
        ensures
            r == Index::spec_new(index),
            r@ == index,
    {
        Self { index }
    }

    /// The index that names no slot: it wraps `-1`.
    pub fn invalid() -> (r: Index)
        ensures
            r@ == -1,
            r.spec_is_invalid(),
    {
        Self::new(-1)
    }

    /// Whether the index names no slot: whether it wraps a negative integer.
    #[verifier::when_used_as_spec(spec_is_invalid)]
    pub fn is_invalid(&self) -> (b: bool)
        ensures
            b == self.spec_is_invalid(),
    {
        self.index < 0
    }

    /// The wrapped integer; the spec-level counterpart of [`Index::raw`].
    pub closed spec fn spec_raw(self) -> i64 {
        self.index
    }

    /// The wrapped integer.
    #[verifier::when_used_as_spec(spec_raw)]
    pub fn raw(self) -> (r: i64)
        ensures
            r == self.spec_raw(),
            r == self@,
    {
        self.index
    }

    /// The index of the slot at position `offset`.
    pub fn from_offset(offset: usize) -> (r: Index)
        requires
            offset <= i64::MAX,
        ensures
            r@ == offset,
    {
        Self { index: offset as i64 }
    }

    /// The position that the index names. The index must name one: see
    /// [`Index::try_offset`] for an index of which that is not known.
    pub fn offset(self) -> (r: usize)
        requires
            0 <= self@ <= usize::MAX,
        ensures
            r == self@,
    {
        self.index as usize
    }

    /// The position that the index names, or `None` if it names none that
    /// fits a `usize`.
    pub fn try_offset(self) -> (r: Option<usize>)
        ensures
            r == if 0 <= self@ <= usize::MAX { Some(self@ as usize) } else { None::<usize> },
    {
        if self.index < 0 {
            None
        } else if self.index as u64 > usize::MAX as u64 {
            None
        } else {
            Some(self.index as usize)
        }
    }

    /// An index is a 64-bit signed integer.
    pub proof fn lemma_view_range(self)
        ensures
            i64::MIN <= self@ <= i64::MAX,
    {
    }

    /// Two indices are equal exactly when they wrap the same integer.
    pub proof fn lemma_equal_by_value(self, other: Index)
        ensures
            (self@ == other@) <==> (self == other),
    {
    }
}

impl From<i64> for Index {
    /// The index that wraps `index`.
    fn from(index: i64) -> (r: Index)
        ensures
            r@ == index,
    {
        Index::new(index)
    }
}

impl From<usize> for Index {
    /// The index of the slot at position `offset`. An offset beyond
    /// `i64::MAX` is cut down to 64 bits and read as a signed integer.
    fn from(offset: usize) -> (r: Index)
        ensures
            r@ == offset as i64,
            offset <= i64::MAX ==> r@ == offset,
    {
        Index::new(offset as i64)
    }
}

impl vstd::std_specs::convert::FromSpecImpl<usize> for Index {
    open spec fn obeys_from_spec() -> bool {
        true
    }

    open spec fn from_spec(offset: usize) -> Index {
        Index::spec_new(offset as i64)
    }
}

impl vstd::std_specs::convert::FromSpecImpl<i64> for Index {
    open spec fn obeys_from_spec() -> bool {
        true
    }

    open spec fn from_spec(index: i64) -> Index {
        Index::spec_new(index)
    }
}

impl From<Index> for i64 {
    /// The integer that `index` wraps.
    fn from(index: Index) -> (r: i64)
        ensures
            r == index@,
    {
        index.raw()
    }
}

impl vstd::std_specs::convert::FromSpecImpl<Index> for i64 {
    open spec fn obeys_from_spec() -> bool {
        true
    }

    open spec fn from_spec(index: Index) -> i64 {
        index.spec_raw()
    }
}

impl PartialOrd for Index {
    fn partial_cmp(&self, other: &Index) -> (r: Option<Ordering>) {
        if self.index < other.index {
            Some(Ordering::Less)
        } else if self.index > other.index {
            Some(Ordering::Greater)
        } else {
            Some(Ordering::Equal)
        }
    }
}

impl vstd::std_specs::cmp::PartialOrdSpecImpl for Index {
    open spec fn obeys_partial_cmp_spec() -> bool {
        true
    }

    /// Indices are ordered as the integers that they wrap.
    open spec fn partial_cmp_spec(&self, other: &Index) -> Option<Ordering> {
        if self@ < other@ {
            Some(Ordering::Less)
        } else if self@ > other@ {
            Some(Ordering::Greater)
        } else {
            Some(Ordering::Equal)
        }
    }
}

/// How two indices compare: what `partial_cmp`, and with it `<` and its kin,
/// gives for them.
pub open spec fn order_of(left: Index, right: Index) -> Option<Ordering> {
    vstd::std_specs::cmp::PartialOrdSpec::partial_cmp_spec(&left, &right)
}

/// Indices are in the order of the integers that they wrap, which is total:
/// of two indices one is less, or they are equal, or one is greater, and
/// they compare as equal only when they are the same index.
pub proof fn lemma_order_by_value(left: Index, right: Index)
    ensures
        order_of(left, right) == Some(Ordering::Less) <==> left@ < right@,
        order_of(left, right) == Some(Ordering::Greater) <==> left@ > right@,
        order_of(left, right) == Some(Ordering::Equal) <==> left == right,
        order_of(left, right) is Some,
{
    left.lemma_equal_by_value(right);
}

} // verus!
