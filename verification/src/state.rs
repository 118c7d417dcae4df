//! The borrow state of a cell and the counter that records it.

use vstd::pervasive::runtime_assert;
use vstd::prelude::*;

verus! {

/// What a borrow counter stands for.
pub enum BorrowState {
    /// No borrow is live.
    Free,
    /// This many shared borrows are live.
    Shared(nat),
    /// One exclusive borrow is live.
    Exclusive,
}

/// A request for a borrow.
pub enum BorrowRequest {
    /// For one more shared borrow.
    Shared,
    /// For the exclusive borrow.
    Exclusive,
}

impl BorrowState {
    /// A shared state counts at least one borrow.
    pub open spec fn wf(self) -> bool {
        self matches BorrowState::Shared(n) ==> n >= 1
    }

    /// The number of live shared borrows.
    pub open spec fn live_shared(self) -> nat {
        match self {
            BorrowState::Shared(n) => n,
            _ => 0,
        }
    }

    /// Whether a request for a shared borrow is granted in this state.
    pub open spec fn admits_shared(self) -> bool {
        !(self is Exclusive)
    }

    /// Whether a request for the exclusive borrow is granted in this state.
    pub open spec fn admits_exclusive(self) -> bool {
        self is Free
    }

    /// The state after a request for a shared borrow: one more shared borrow
    /// where the request is granted, the same state where it is refused.
    pub open spec fn borrow_shared(self) -> BorrowState {
        match self {
            BorrowState::Free => BorrowState::Shared(1),
            BorrowState::Shared(n) => BorrowState::Shared(n + 1),
            BorrowState::Exclusive => BorrowState::Exclusive,
        }
    }

    /// The state after a request for the exclusive borrow: exclusive where
    /// the request is granted, the same state where it is refused.
    pub open spec fn borrow_exclusive(self) -> BorrowState {
        match self {
            BorrowState::Free => BorrowState::Exclusive,
            _ => self,
        }
    }

    /// The state after one shared borrow has ended: one shared borrow less,
    /// and free after the last one. Other states have no shared borrow to
    /// end and stay as they are.
    pub open spec fn release_shared(self) -> BorrowState {
        match self {
            BorrowState::Shared(n) => if n <= 1 {
                BorrowState::Free
            } else {
                BorrowState::Shared((n - 1) as nat)
            },
            _ => self,
        }
    }

    /// The state after the exclusive borrow has ended: free, whatever the
    /// state was.
    pub open spec fn release_exclusive(self) -> BorrowState {
        BorrowState::Free
    }

    /// Whether the request `r` is granted in this state.
    pub open spec fn grants(self, r: BorrowRequest) -> bool {
        match r {
            BorrowRequest::Shared => self.admits_shared(),
            BorrowRequest::Exclusive => self.admits_exclusive(),
        }
    }

    /// The state after the request `r`.
    pub open spec fn request(self, r: BorrowRequest) -> BorrowState {
        match r {
            BorrowRequest::Shared => self.borrow_shared(),
            BorrowRequest::Exclusive => self.borrow_exclusive(),
        }
    }

    /// The state after the requests `rs`, made one after the other.
    pub open spec fn request_all(self, rs: Seq<BorrowRequest>) -> BorrowState
        decreases rs.len(),
    {
        if rs.len() == 0 {
            self
        } else {
            self.request_all(rs.drop_last()).request(rs.last())
        }
    }
}

/// The counter value of the free state.
const FREE: isize = 0;

/// The counter value that marks the exclusive borrow.
const EXCLUSIVE: isize = -1;

/// A signed counter that records a borrow state: zero when free, the number
/// of live shared borrows when positive, and a sentinel below zero while the
/// exclusive borrow is live.
#[derive(Clone, Copy)]
pub struct BorrowCounter {
    count: isize,
}

impl View for BorrowCounter {
    type V = BorrowState;

    closed spec fn view(&self) -> BorrowState {
        if self.count > FREE {
            BorrowState::Shared(self.count as nat)
        } else if self.count == FREE {
            BorrowState::Free
        } else {
            BorrowState::Exclusive
        }
    }
}

impl BorrowCounter {
    #[verifier::type_invariant]
    spec fn sentinel_is_the_only_negative(self) -> bool {
        self.count >= EXCLUSIVE
    }

    /// The state that a counter records is always well formed.
    pub proof fn lemma_state_wf(self)
        ensures
            self@.wf(),
    {
    }

    /// A counter in the free state.
    pub fn new() -> (counter: BorrowCounter)
        ensures
            counter@ == BorrowState::Free,
    {
        BorrowCounter { count: FREE }
    }

    /// Requests a shared borrow. The request is granted unless the exclusive
    /// borrow is live; a refused request leaves the counter as it was.
    pub fn try_borrow_shared(&mut self) -> (granted: bool)
        requires
            old(self)@.live_shared() < isize::MAX,
        ensures
            granted == old(self)@.admits_shared(),
            final(self)@ == old(self)@.borrow_shared(),
    {
        if self.count >= FREE {
            self.count = self.count + 1;
            true
        } else {
            false
        }
    }

    /// Requests the exclusive borrow. The request is granted only in the free
    /// state; a refused request leaves the counter as it was.
    pub fn try_borrow_exclusive(&mut self) -> (granted: bool)
        ensures
            granted == old(self)@.admits_exclusive(),
            final(self)@ == old(self)@.borrow_exclusive(),
    {
        if self.count == FREE {
            self.count = EXCLUSIVE;
            true
        } else {
            false
        }
    }

    /// Ends one shared borrow. The counter asserts at run time as well that
    /// one is live, so that a caller who broke the contract is stopped before
    /// the count goes wrong.
    pub fn release_shared(&mut self)
        requires
            old(self)@ is Shared,
        ensures
            final(self)@ == old(self)@.release_shared(),
    {
        runtime_assert(self.count > FREE);
        self.count = self.count - 1;
    }

    /// Ends the exclusive borrow: the counter goes back to the free state,
    /// whatever it held.
    pub fn release_exclusive(&mut self)
        ensures
            final(self)@ == old(self)@.release_exclusive(),
    {
        self.count = FREE;
    }

    /// The number of live shared borrows.
    pub fn shared_count(&self) -> (n: usize)
        ensures
            n == self@.live_shared(),
    {
        if self.count > FREE {
            self.count as usize
        } else {
            0
        }
    }

    /// Whether the exclusive borrow is live.
    pub fn is_exclusive(&self) -> (held: bool)
        ensures
            held == (self@ is Exclusive),
    {
        self.count < FREE
    }
}

} // verus!
