//! Change-detection state: the shared last-observed address and the
//! `up`/`pending` status computed from it on each completed resolution.
use vstd::prelude::*;

verus! {

/// The transition label a probe reports: `Up` when the resolved address is
/// the same as the last one recorded (or when none was recorded yet),
/// `Pending` when it differs.
#[derive(Clone, Copy, Debug, PartialEq, Eq, Structural)]
pub enum Status {
    Up,
    Pending,
}

/// The status a resolution reports, given the previously recorded address
/// (if any) and the newly resolved one. The first resolution after start
/// reports `Up`: there is no distinct "unknown" status.
pub open spec fn spec_status(prev: Option<Seq<char>>, addr: Seq<char>) -> Status {
    match prev {
        Some(p) => if p != addr {
            Status::Pending
        } else {
            Status::Up
        },
        None => Status::Up,
    }
}

/// The read-compare-write step a probe performs on the shared last-address
/// cell once it has resolved an address: compute the status against the
/// stored value, then overwrite the stored value unconditionally.
///
/// The caller serialises calls on one cell (the process holds the cell
/// under a lock); this function is the whole critical section.
pub fn record_resolution(last: &mut Option<String>, addr: &String) -> (status: Status)
    ensures
        status == spec_status(old(last).deep_view(), addr@),
        final(last).deep_view() == Some(addr@),
{
    let status = match &*last {
        Some(prev) => if *prev == *addr {
            Status::Up
        } else {
            Status::Pending
        },
        None => Status::Up,
    };
    *last = Some(addr.clone());
    status
}

/// The address the shared cell holds after the run of completed
/// resolutions `addrs`, starting from `init`: every completed resolution
/// overwrites the cell, so a non-empty run leaves the last address.
pub open spec fn run_last(init: Option<Seq<char>>, addrs: Seq<Seq<char>>) -> Option<Seq<char>>
    decreases addrs.len(),
{
    if addrs.len() == 0 {
        init
    } else {
        run_last(Some(addrs[0]), addrs.skip(1))
    }
}

/// The status that resolution `i` of the run `addrs` reports, when the
/// cell held `init` before the run and the resolutions complete in order.
pub open spec fn run_status(init: Option<Seq<char>>, addrs: Seq<Seq<char>>, i: int) -> Status
    recommends
        0 <= i < addrs.len(),
{
    spec_status(run_last(init, addrs.take(i)), addrs[i])
}

/// After at least one completed resolution the cell holds the most
/// recently resolved address, whatever it held at the start.
pub proof fn lemma_run_last(init: Option<Seq<char>>, addrs: Seq<Seq<char>>)
    requires
        addrs.len() > 0,
    ensures
        run_last(init, addrs) == Some(addrs.last()),
    decreases addrs.len(),
{
    if addrs.len() > 1 {
        lemma_run_last(Some(addrs[0]), addrs.skip(1));
        assert(addrs.skip(1).last() == addrs.last());
    } else {
        assert(addrs.skip(1).len() == 0);
        assert(run_last(Some(addrs[0]), addrs.skip(1)) == Some(addrs[0]));
    }
}

/// The first successful resolution after process start reports `Up`,
/// whatever address it resolves: the cell starts empty and the comparison
/// branch is skipped entirely.
pub proof fn lemma_first_resolution_up(addrs: Seq<Seq<char>>)
    requires
        addrs.len() > 0,
    ensures
        run_status(None, addrs, 0) == Status::Up,
{
    assert(addrs.take(0) =~= Seq::<Seq<char>>::empty());
}

/// A resolution whose address differs from the immediately preceding
/// completed resolution reports `Pending`; one whose address is unchanged
/// from the preceding one reports `Up` again.
pub proof fn lemma_change_detection(init: Option<Seq<char>>, addrs: Seq<Seq<char>>, i: int)
    requires
        1 <= i < addrs.len(),
    ensures
        addrs[i] != addrs[i - 1] ==> run_status(init, addrs, i) == Status::Pending,
        addrs[i] == addrs[i - 1] ==> run_status(init, addrs, i) == Status::Up,
{
    lemma_run_last(init, addrs.take(i));
    assert(addrs.take(i).last() == addrs[i - 1]);
}

/// For an interface whose resolved address never changes across a run of
/// completed resolutions, every resolution after the first reports `Up`,
/// whatever the cell held at the start.
pub proof fn lemma_steady_address_stays_up(
    init: Option<Seq<char>>,
    addrs: Seq<Seq<char>>,
    a: Seq<char>,
)
    requires
        forall|j: int| 0 <= j < addrs.len() ==> addrs[j] == a,
    ensures
        forall|i: int| 1 <= i < addrs.len() ==> run_status(init, addrs, i) == Status::Up,
{
    assert forall|i: int| 1 <= i < addrs.len() implies run_status(init, addrs, i)
        == Status::Up by {
        lemma_change_detection(init, addrs, i);
    }
}

} // verus!
