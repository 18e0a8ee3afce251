//! A slot arena whose elements are reached through copyable handles, with
//! aliasing between shared and exclusive access tested per slot at run time.
//!
//! An [`Arena`] stores elements at stable positions and names each by an
//! [`Index`]. A removed element's position is handed out again by a later
//! addition. A [`Handle`] pairs an arena with an index, and with whatever
//! context its type binds to it; [`RawHandle`] is the plain one.
//!
//! What is proved:
//!
//! - [`model`] holds the mathematical model of an arena, [`ArenaView`]: which
//!   slots hold an element, and in which order the vacant ones are reused.
//!   The contracts of the arena's functions are stated over it.
//! - [`laws`] holds what follows for sequences of calls: freed slots are
//!   reused before the arena grows, the length counts additions less
//!   removals, a removed element cannot be removed again.
//!
//! What is taken on trust:
//!
//! - [`storage`] holds the calls into `vec_cell`, which keeps the elements
//!   and does the borrow tests. Each call has a contract that Verus does not
//!   prove.

pub mod arena;
pub mod error;
pub mod handle;
pub mod index;
pub mod laws;
pub mod model;
pub mod storage;

pub use arena::{Arena, HandleIter};
pub use error::{ArenaError, ArenaResult, BorrowError};
pub use handle::{EmptyUserdata, Handle, Handleable, RawHandle, Void};
pub use index::Index;
pub use model::{ArenaOp, ArenaView};

pub use vec_cell::{ElementRef, ElementRefMut};
