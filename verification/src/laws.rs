//! What holds of the borrow protocol as a whole, proved over the models that
//! the contracts of the cell and of its counter are stated in.

use crate::cell::CellModel;
use crate::state::{BorrowRequest, BorrowState};
use vstd::prelude::*;

verus! {

/// Every transition of the protocol leads from a well-formed state to a
/// well-formed state.
pub proof fn law_transitions_keep_wf(s: BorrowState)
    requires
        s.wf(),
    ensures
        s.borrow_shared().wf(),
        s.borrow_exclusive().wf(),
        s.release_shared().wf(),
        s.release_exclusive().wf(),
{
}

/// Shared and exclusive access never follow each other directly: no single
/// transition leads from a shared state to the exclusive state or back, so
/// the way from one to the other passes through the free state.
pub proof fn law_shared_and_exclusive_never_meet(s: BorrowState)
    requires
        s.wf(),
    ensures
        s is Shared ==> !(s.borrow_shared() is Exclusive) && !(s.borrow_exclusive() is Exclusive)
            && !(s.release_shared() is Exclusive),
        s is Exclusive ==> !(s.borrow_shared() is Shared) && !(s.borrow_exclusive() is Shared)
            && !(s.release_exclusive() is Shared),
{
}

/// While no exclusive borrow is live, every request of a sequence of requests
/// for shared borrows is granted, and each adds one to the number of live
/// shared borrows.
pub proof fn law_shared_requests_all_granted(s: BorrowState, rs: Seq<BorrowRequest>)
    requires
        s.wf(),
        s.admits_shared(),
        forall|i: int| 0 <= i < rs.len() ==> rs[i] is Shared,
    ensures
        forall|i: int| 0 <= i < rs.len() ==> (#[trigger] s.request_all(rs.take(i))).grants(rs[i]),
        forall|i: int|
            0 <= i <= rs.len() ==> (#[trigger] s.request_all(rs.take(i))).live_shared()
                == s.live_shared() + i,
        s.request_all(rs).wf(),
        s.request_all(rs).live_shared() == s.live_shared() + rs.len(),
{
    assert forall|i: int| 0 <= i <= rs.len() implies {
        let t = #[trigger] s.request_all(rs.take(i));
        t.wf() && t.admits_shared() && t.live_shared() == s.live_shared() + i
    } by {
        lemma_shared_requests_count(s, rs.take(i));
    }
    assert(rs.take(rs.len() as int) == rs);
}

/// An exclusive borrow is granted exactly in the free state, and it leaves the
/// exclusive state behind; a refused request changes nothing.
pub proof fn law_exclusive_granted_iff_free(s: BorrowState)
    requires
        s.wf(),
    ensures
        s.admits_exclusive() <==> s == BorrowState::Free,
        s.admits_exclusive() ==> s.borrow_exclusive() == BorrowState::Exclusive,
        !s.admits_exclusive() ==> s.borrow_exclusive() == s,
        !s.admits_shared() ==> s.borrow_shared() == s,
{
}

/// While the exclusive borrow is live, every further request, shared or
/// exclusive, is refused, and the state stays exclusive until the release.
pub proof fn law_exclusive_refuses_all(s: BorrowState, rs: Seq<BorrowRequest>)
    requires
        s is Exclusive,
    ensures
        forall|i: int| 0 <= i < rs.len() ==> !(#[trigger] s.request_all(rs.take(i))).grants(rs[i]),
        s.request_all(rs) == s,
        s.request_all(rs).release_exclusive() == BorrowState::Free,
{
    assert forall|i: int| 0 <= i <= rs.len() implies #[trigger] s.request_all(rs.take(i)) == s by {
        lemma_exclusive_requests_refused(s, rs.take(i));
    }
    assert(rs.take(rs.len() as int) == rs);
}

/// The release of the exclusive borrow frees the cell. The release of one of
/// `n` shared borrows leaves `n - 1` of them, and the release of the last one
/// frees the cell.
pub proof fn law_release(s: BorrowState)
    requires
        s.wf(),
    ensures
        s is Exclusive ==> s.release_exclusive() == BorrowState::Free,
        s is Shared ==> s.release_shared().live_shared() == s.live_shared() - 1,
        s is Shared ==> (s.release_shared() == BorrowState::Free <==> s.live_shared() == 1),
        s is Shared && s.live_shared() > 1 ==> s.release_shared() is Shared,
{
}

/// A release undoes the borrow that was granted before it.
pub proof fn law_release_undoes_borrow(s: BorrowState)
    requires
        s.wf(),
    ensures
        s.admits_shared() ==> s.borrow_shared().release_shared() == s,
        s.admits_exclusive() ==> s.borrow_exclusive().release_exclusive() == s,
{
}

/// Requests and releases never touch the value, nor the tag of the cell:
/// whatever borrows begin and end between two reads, both reads see the
/// same value.
pub proof fn law_borrows_keep_value<T>(m: CellModel<T>)
    ensures
        m.borrow_shared().payload == m.payload && m.borrow_shared().id == m.id,
        m.borrow_exclusive().payload == m.payload && m.borrow_exclusive().id == m.id,
        m.release_shared().payload == m.payload && m.release_shared().id == m.id,
        m.release_exclusive().payload == m.payload && m.release_exclusive().id == m.id,
{
}

/// A write replaces the value and leaves the borrow state alone, so a read
/// after it sees what was written last.
pub proof fn law_write_is_read_back<T>(m: CellModel<T>, first: T, second: T)
    ensures
        m.write(first).payload == first,
        m.write(first).write(second).payload == second,
        m.write(first).state == m.state,
        m.write(first).id == m.id,
{
}

/// A value written through the exclusive borrow is the value that a shared
/// borrow reads once the exclusive borrow has been released: the release
/// frees the cell, the next shared request is granted, and the value is the
/// written one.
pub proof fn law_write_then_read<T>(m: CellModel<T>, value: T)
    requires
        m.state is Exclusive,
    ensures
        m.write(value).release_exclusive().state.admits_shared(),
        m.write(value).release_exclusive().borrow_shared().state == BorrowState::Shared(1),
        m.write(value).release_exclusive().borrow_shared().payload == value,
{
}

/// After any sequence of shared requests from a state that admits them, the
/// state still admits them and has counted each one.
proof fn lemma_shared_requests_count(s: BorrowState, rs: Seq<BorrowRequest>)
    requires
        s.wf(),
        s.admits_shared(),
        forall|i: int| 0 <= i < rs.len() ==> rs[i] is Shared,
    ensures
        s.request_all(rs).wf(),
        s.request_all(rs).admits_shared(),
        s.request_all(rs).live_shared() == s.live_shared() + rs.len(),
    decreases rs.len(),
{
    if rs.len() > 0 {
        lemma_shared_requests_count(s, rs.drop_last());
    }
}

/// No sequence of requests changes the exclusive state.
proof fn lemma_exclusive_requests_refused(s: BorrowState, rs: Seq<BorrowRequest>)
    requires
        s is Exclusive,
    ensures
        s.request_all(rs) == s,
    decreases rs.len(),
{
    if rs.len() > 0 {
        lemma_exclusive_requests_refused(s, rs.drop_last());
    }
}

} // verus!
