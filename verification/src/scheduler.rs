//! The cadences derived from the tick counter, and the rule by which a
//! tracked input re-triggers work.

use vstd::prelude::*;

verus! {

/// Ticks between two fast refreshes.
pub const FAST_REFRESH: u64 = 5;

/// Ticks between two slow refreshes.
pub const SLOW_REFRESH: u64 = 30;

/// Whether `tick` is a fast-refresh boundary.
pub open spec fn is_fast_refresh(tick: nat) -> bool {
    tick % FAST_REFRESH as nat == 0
}

/// Whether `tick` is a slow-refresh boundary.
pub open spec fn is_slow_refresh(tick: nat) -> bool {
    tick % SLOW_REFRESH as nat == 0
}

/// Whether `tick` is a fast-refresh boundary.
pub fn fast_refresh(tick: u64) -> (due: bool)
    ensures
        due == is_fast_refresh(tick as nat),
{
    tick % FAST_REFRESH == 0
}

/// Whether `tick` is a slow-refresh boundary.
pub fn slow_refresh(tick: u64) -> (due: bool)
    ensures
        due == is_slow_refresh(tick as nat),
{
    tick % SLOW_REFRESH == 0
}

/// Whether work is due at `tick` for an input that reads `current` and was
/// last acted on when it read `last`: on a fast-refresh boundary, and only
/// where the reading has changed.
pub open spec fn fires<S>(last: S, tick: nat, current: S) -> bool {
    is_fast_refresh(tick) && current != last
}

/// The reading last acted on, after `tick`.
pub open spec fn issued_after<S>(last: S, tick: nat, current: S) -> S {
    if fires(last, tick, current) {
        current
    } else {
        last
    }
}

/// The reading last acted on after the ticks `first`, `first + 1`, ... at
/// which the input read `observed[0]`, `observed[1]`, ...
pub open spec fn issued_after_all<S>(last: S, first: nat, observed: Seq<S>) -> S
    decreases observed.len(),
{
    if observed.len() == 0 {
        last
    } else {
        issued_after(
            issued_after_all(last, first, observed.drop_last()),
            (first + observed.len() - 1) as nat,
            observed.last(),
        )
    }
}

/// Whether the tick `first + i` is a fast-refresh boundary.
pub open spec fn boundary_at(first: nat, i: int) -> bool {
    is_fast_refresh((first + i) as nat)
}

/// Whether work is done at the tick `first + i` of such a run.
pub open spec fn fires_at<S>(last: S, first: nat, observed: Seq<S>, i: int) -> bool
    recommends
        0 <= i < observed.len(),
{
    fires(issued_after_all(last, first, observed.subrange(0, i)), (first + i) as nat, observed[i])
}

/// Work is only ever done on a fast-refresh boundary, and then for the
/// reading of that very tick: a change seen between two boundaries waits for
/// the next one.
pub proof fn lemma_fires_on_boundary<S>(last: S, first: nat, observed: Seq<S>, i: int)
    requires
        0 <= i < observed.len(),
        fires_at(last, first, observed, i),
    ensures
        is_fast_refresh((first + i) as nat),
        issued_after_all(last, first, observed.subrange(0, i + 1)) == observed[i],
{
}

/// However often the input changes, a run of ticks that holds one
/// fast-refresh boundary at most has work done once at most.
pub proof fn lemma_one_boundary_one_firing<S>(
    last: S,
    first: nat,
    observed: Seq<S>,
    i: int,
    j: int,
)
    requires
        observed.len() <= FAST_REFRESH,
        0 <= i < observed.len(),
        0 <= j < observed.len(),
        fires_at(last, first, observed, i),
        fires_at(last, first, observed, j),
    ensures
        i == j,
{
    lemma_fires_on_boundary(last, first, observed, i);
    lemma_fires_on_boundary(last, first, observed, j);
    assert((first + i) % 5 == 0 && (first + j) % 5 == 0 && -5 < i - j < 5 ==> i == j) by {
        if (first + i) % 5 == 0 && (first + j) % 5 == 0 && -5 < i - j < 5 {
            assert(i == j) by (nonlinear_arith)
                requires
                    (first + i) % 5 == 0,
                    (first + j) % 5 == 0,
                    -5 < i - j < 5,
            ;
        }
    }
}

/// Between two boundaries nothing is done: the changes of a window that ends
/// on a boundary lead to one piece of work at most, at the boundary, for the
/// last reading.
pub proof fn lemma_window_fires_last<S>(last: S, first: nat, observed: Seq<S>)
    requires
        observed.len() == FAST_REFRESH,
        first % FAST_REFRESH as nat == 1,
    ensures
        forall|i: int| 0 <= i < observed.len() - 1 ==> !fires_at(last, first, observed, i),
        fires_at(last, first, observed, observed.len() - 1) <==> observed.last() != last,
        issued_after_all(last, first, observed) == if observed.last() != last {
            observed.last()
        } else {
            last
        },
{
    assert forall|i: int| 0 <= i < 4 implies !#[trigger] boundary_at(first, i) by {
    }
    lemma_quiet_between_boundaries(last, first, observed, 4);
    assert forall|i: int| 0 <= i < observed.len() - 1 implies !fires_at(
        last,
        first,
        observed,
        i,
    ) by {
    }
}

/// Over ticks that hold no boundary, nothing is acted on.
pub proof fn lemma_quiet_between_boundaries<S>(last: S, first: nat, observed: Seq<S>, n: int)
    requires
        0 <= n <= observed.len(),
        forall|i: int| 0 <= i < n ==> !#[trigger] boundary_at(first, i),
    ensures
        issued_after_all(last, first, observed.subrange(0, n)) == last,
    decreases n,
{
    if n > 0 {
        lemma_quiet_between_boundaries(last, first, observed, n - 1);
        let upto = observed.subrange(0, n);
        assert(upto.drop_last() =~= observed.subrange(0, n - 1));
        assert(!boundary_at(first, n - 1));
    }
}

} // verus!
