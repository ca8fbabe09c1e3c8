//! The mathematical model of one table scan: how many fetch iterations a
//! scan performs and how the offset moves.  The engine's step methods are
//! proved to follow [`scan_start`] and [`scan_step`]; the lemmas here state
//! the scan-wide laws on top of them.

use vstd::prelude::*;

verus! {

/// The state of one table scan: how many fetch iterations are still to
/// complete (the in-flight one included) and how many rows have been
/// consumed so far.
pub struct ScanState {
    pub remaining: nat,
    pub offset: nat,
}

/// The number of fetch iterations a scan performs for a given total row
/// count and fetch limit: `max(1, total / limit)`, with floor division.
pub open spec fn iterations_of(total: nat, limit: nat) -> nat
    recommends
        limit > 0,
{
    if total / limit == 0 {
        1
    } else {
        total / limit
    }
}

/// The scan state right after a successful count of `total` rows, with the
/// first fetch iteration about to run.
pub open spec fn scan_start(total: nat, limit: nat) -> ScanState
    recommends
        limit > 0,
{
    ScanState { remaining: iterations_of(total, limit), offset: 0 }
}

/// One fetch iteration completing: `Some(k)` is a successful fetch of `k`
/// rows, `None` a failed fetch.  The offset advances by exactly the number
/// of rows returned and never on a failure.
pub open spec fn scan_step(s: ScanState, fetched: Option<nat>) -> ScanState
    recommends
        s.remaining > 0,
{
    ScanState {
        remaining: (s.remaining - 1) as nat,
        offset: s.offset + match fetched {
            Some(k) => k,
            None => 0nat,
        },
    }
}

/// The scan state after a sequence of fetch completions.
pub open spec fn scan_run(s: ScanState, evs: Seq<Option<nat>>) -> ScanState
    decreases evs.len(),
{
    if evs.len() == 0 {
        s
    } else {
        scan_run(scan_step(s, evs[0]), evs.drop_first())
    }
}

/// Every completion takes exactly one iteration off the scan.
pub proof fn lemma_scan_run_remaining(s: ScanState, evs: Seq<Option<nat>>)
    requires
        evs.len() <= s.remaining,
    ensures
        scan_run(s, evs).remaining == s.remaining - evs.len(),
    decreases evs.len(),
{
    if evs.len() > 0 {
        lemma_scan_run_remaining(scan_step(s, evs[0]), evs.drop_first());
    }
}

/// For every `total > 0` and `limit > 0`, a scan performs exactly
/// `max(1, total / limit)` fetch iterations: that many completions, of any
/// mix of successes and failures, exhaust the scan, and after any proper
/// prefix of them iterations are still outstanding.
pub proof fn lemma_fetch_iteration_count(total: nat, limit: nat, evs: Seq<Option<nat>>)
    requires
        total > 0,
        limit > 0,
        evs.len() == iterations_of(total, limit),
    ensures
        scan_run(scan_start(total, limit), evs).remaining == 0,
        forall|i: int|
            0 <= i < evs.len() ==> scan_run(
                scan_start(total, limit),
                evs.subrange(0, i),
            ).remaining > 0,
{
    lemma_scan_run_remaining(scan_start(total, limit), evs);
    assert forall|i: int|
        0 <= i < evs.len() implies scan_run(
        scan_start(total, limit),
        evs.subrange(0, i),
    ).remaining > 0 by {
        lemma_scan_run_remaining(scan_start(total, limit), evs.subrange(0, i));
    }
}

/// A successful fetch of `k` rows advances the offset by exactly `k`; a
/// failed fetch leaves it unchanged; the offset never decreases.
pub proof fn lemma_offset_advance(s: ScanState, fetched: Option<nat>)
    ensures
        fetched matches Some(k) ==> scan_step(s, fetched).offset == s.offset + k,
        fetched is None ==> scan_step(s, fetched).offset == s.offset,
        scan_step(s, fetched).offset >= s.offset,
{
}

/// Over any run of completions the offset never decreases.
pub proof fn lemma_offset_monotone(s: ScanState, evs: Seq<Option<nat>>)
    ensures
        scan_run(s, evs).offset >= s.offset,
    decreases evs.len(),
{
    if evs.len() > 0 {
        lemma_offset_monotone(scan_step(s, evs[0]), evs.drop_first());
    }
}

} // verus!
