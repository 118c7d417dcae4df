//! A run-time checked borrow cell: a value that is lent out as many shared
//! borrows or as one exclusive borrow at a time.
//!
//! An [`OwnedRefCell`] owns the value and the [`BorrowCounter`] that records
//! which borrows are live. A granted request hands out a guard, an
//! [`OwnedRef`] or an [`OwnedRefMut`]. A guard is a token, not a pointer: it
//! is presented together with its cell to reach the value and to end the
//! borrow, so every step is a call whose effect on the cell its contract
//! states. The module [`laws`] proves what follows for the protocol as a
//! whole.

pub mod cell;
pub mod laws;
pub mod state;

pub use cell::{CellModel, OwnedRef, OwnedRefCell, OwnedRefMut};
pub use state::{BorrowCounter, BorrowRequest, BorrowState};
