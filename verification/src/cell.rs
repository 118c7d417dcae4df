//! The cell, and the guards that stand for its live borrows.

use crate::state::{BorrowCounter, BorrowState};
use std::marker::PhantomData;
use vstd::prelude::*;

verus! {

/// What a cell is to its callers: a tag, the value it holds, and its borrow
/// state.
pub struct CellModel<T> {
    /// The tag that the cell was given when it was made. A guard carries the
    /// tag of the cell that issued it, and nothing else is known of a tag: a
    /// caller can match a guard with a cell only through the contract of the
    /// borrow that issued the guard.
    pub id: int,
    /// The value the cell owns.
    pub payload: T,
    /// The borrows that are live.
    pub state: BorrowState,
}

impl<T> CellModel<T> {
    /// The cell after a request for a shared borrow.
    pub open spec fn borrow_shared(self) -> CellModel<T> {
        CellModel { state: self.state.borrow_shared(), ..self }
    }

    /// The cell after a request for an exclusive borrow.
    pub open spec fn borrow_exclusive(self) -> CellModel<T> {
        CellModel { state: self.state.borrow_exclusive(), ..self }
    }

    /// The cell after one shared borrow has ended.
    pub open spec fn release_shared(self) -> CellModel<T> {
        CellModel { state: self.state.release_shared(), ..self }
    }

    /// The cell after the exclusive borrow has ended.
    pub open spec fn release_exclusive(self) -> CellModel<T> {
        CellModel { state: self.state.release_exclusive(), ..self }
    }

    /// The cell after `value` was stored through the exclusive borrow.
    pub open spec fn write(self, value: T) -> CellModel<T> {
        CellModel { payload: value, ..self }
    }
}

/// A value together with the borrow counter that guards it.
pub struct OwnedRefCell<T> {
    value: T,
    borrow: BorrowCounter,
    id: Ghost<int>,
}

/// A live shared borrow of a cell: the right to read the cell's value until
/// the guard is released. A guard that is dropped without a release leaves
/// its borrow live for good.
#[must_use]
pub struct OwnedRef<T> {
    origin: Ghost<int>,
    payload: PhantomData<T>,
}

/// The live exclusive borrow of a cell: the right to read and to write the
/// cell's value until the guard is released. A guard that is dropped without
/// a release leaves its borrow live for good.
#[must_use]
pub struct OwnedRefMut<T> {
    origin: Ghost<int>,
    payload: PhantomData<T>,
}

impl<T> View for OwnedRefCell<T> {
    type V = CellModel<T>;

    closed spec fn view(&self) -> CellModel<T> {
        CellModel { id: self.id@, payload: self.value, state: self.borrow@ }
    }
}

impl<T> OwnedRefCell<T> {
    /// A free cell that owns `value`.
    pub fn new(value: T) -> (cell: OwnedRefCell<T>)
        ensures
            cell@.payload == value,
            cell@.state == BorrowState::Free,
    {
        OwnedRefCell { value, borrow: BorrowCounter::new(), id: Ghost(arbitrary()) }
    }

    /// Takes a shared borrow of a cell that is not exclusively borrowed. A
    /// caller who breaks the contract and asks while the exclusive borrow is
    /// live is stopped by a panic: no guard is handed out.
    pub fn borrow(&mut self) -> (guard: OwnedRef<T>)
        requires
            old(self)@.state.admits_shared(),
            old(self)@.state.live_shared() < isize::MAX,
        ensures
            guard.origin() == old(self)@.id,
            final(self)@ == old(self)@.borrow_shared(),
    {
        match self.try_borrow() {
            Some(guard) => guard,
            None => unreached(),
        }
    }

    /// Takes the exclusive borrow of a free cell. A caller who breaks the
    /// contract and asks while any borrow is live is stopped by a panic: no
    /// guard is handed out.
    pub fn borrow_mut(&mut self) -> (guard: OwnedRefMut<T>)
        requires
            old(self)@.state.admits_exclusive(),
        ensures
            guard.origin() == old(self)@.id,
            final(self)@ == old(self)@.borrow_exclusive(),
    {
        match self.try_borrow_mut() {
            Some(guard) => guard,
            None => unreached(),
        }
    }

    /// Requests a shared borrow. A guard comes back unless the cell is
    /// exclusively borrowed; a refused request leaves the cell as it was.
    pub fn try_borrow(&mut self) -> (guard: Option<OwnedRef<T>>)
        requires
            old(self)@.state.live_shared() < isize::MAX,
        ensures
            guard is Some <==> old(self)@.state.admits_shared(),
            guard matches Some(g) ==> g.origin() == old(self)@.id,
            final(self)@ == old(self)@.borrow_shared(),
    {
        if self.borrow.try_borrow_shared() {
            Some(OwnedRef { origin: Ghost(self.id@), payload: PhantomData })
        } else {
            None
        }
    }

    /// Requests the exclusive borrow. A guard comes back only if the cell is
    /// free; a refused request leaves the cell as it was.
    pub fn try_borrow_mut(&mut self) -> (guard: Option<OwnedRefMut<T>>)
        ensures
            guard is Some <==> old(self)@.state.admits_exclusive(),
            guard matches Some(g) ==> g.origin() == old(self)@.id,
            final(self)@ == old(self)@.borrow_exclusive(),
    {
        if self.borrow.try_borrow_exclusive() {
            Some(OwnedRefMut { origin: Ghost(self.id@), payload: PhantomData })
        } else {
            None
        }
    }

    /// The number of live shared borrows.
    pub fn shared_count(&self) -> (n: usize)
        ensures
            n == self@.state.live_shared(),
    {
        self.borrow.shared_count()
    }

    /// Whether the exclusive borrow is live.
    pub fn is_exclusive(&self) -> (held: bool)
        ensures
            held == (self@.state is Exclusive),
    {
        self.borrow.is_exclusive()
    }

    /// The borrow state of a cell is always well formed.
    pub proof fn lemma_state_wf(&self)
        ensures
            self@.state.wf(),
    {
        self.borrow.lemma_state_wf();
    }
}

impl<T> OwnedRef<T> {
    /// The tag of the cell that issued this guard.
    pub closed spec fn origin(&self) -> int {
        self.origin@
    }

    /// Reads the value of the cell that issued this guard.
    pub fn as_ref<'a>(&'a self, cell: &'a OwnedRefCell<T>) -> (value: &'a T)
        requires
            self.origin() == cell@.id,
            cell@.state is Shared,
        ensures
            *value == cell@.payload,
    {
        &cell.value
    }

    /// Ends this shared borrow.
    pub fn release(self, cell: &mut OwnedRefCell<T>)
        requires
            self.origin() == old(cell)@.id,
            old(cell)@.state is Shared,
        ensures
            final(cell)@ == old(cell)@.release_shared(),
    {
        cell.borrow.release_shared();
    }
}

impl<T> OwnedRefMut<T> {
    /// The tag of the cell that issued this guard.
    pub closed spec fn origin(&self) -> int {
        self.origin@
    }

    /// Reads the value of the cell that issued this guard.
    pub fn as_ref<'a>(&'a self, cell: &'a OwnedRefCell<T>) -> (value: &'a T)
        requires
            self.origin() == cell@.id,
            cell@.state is Exclusive,
        ensures
            *value == cell@.payload,
    {
        &cell.value
    }

    /// Gives write access to the value of the cell that issued this guard:
    /// what the caller leaves behind the reference is the cell's new value.
    pub fn as_mut<'a>(&'a mut self, cell: &'a mut OwnedRefCell<T>) -> (value: &'a mut T)
        requires
            old(self).origin() == old(cell)@.id,
            old(cell)@.state is Exclusive,
        ensures
            *value == old(cell)@.payload,
            final(cell)@ == old(cell)@.write(*final(value)),
            final(self).origin() == old(self).origin(),
    {
        &mut cell.value
    }

    /// Ends the exclusive borrow: the cell is free again.
    pub fn release(self, cell: &mut OwnedRefCell<T>)
        requires
            self.origin() == old(cell)@.id,
        ensures
            final(cell)@ == old(cell)@.release_exclusive(),
    {
        cell.borrow.release_exclusive();
    }
}

} // verus!
