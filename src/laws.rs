//! Properties that hold across several calls, stated over the contracts of
//! the counter store and of the broadcast channel.
use vstd::prelude::*;
use crate::models::{wrap, lemma_wrap_in_range, lemma_wrap_bounds, lemma_wrap_absorbs};
use crate::repositories::{incremented, decremented};
use crate::broadcast::{RecvResult, recv_outcome};

verus! {

/// One change applied to a counter.
#[derive(Debug, Clone, Copy, PartialEq, Eq, Structural)]
pub enum Change {
    Increment,
    Decrement,
}

/// The value after one change, as the store's contracts give it.
pub open spec fn apply_change(v: i32, c: Change) -> i32 {
    match c {
        Change::Increment => incremented(v),
        Change::Decrement => decremented(v),
    }
}

/// The value after `changes` were applied one after another to `initial`.
pub open spec fn after_changes(initial: i32, changes: Seq<Change>) -> i32
    decreases changes.len(),
{
    if changes.len() == 0 {
        initial
    } else {
        apply_change(after_changes(initial, changes.drop_last()), changes.last())
    }
}

/// Number of increments minus number of decrements.
pub open spec fn net_delta(changes: Seq<Change>) -> int
    decreases changes.len(),
{
    if changes.len() == 0 {
        0
    } else {
        net_delta(changes.drop_last()) + match changes.last() {
            Change::Increment => 1int,
            Change::Decrement => -1int,
        }
    }
}

/// After any sequence of increments and decrements the counter holds the initial
/// value plus the number of increments minus the number of decrements, wrapped
/// into the `i32` range; when that sum is in range, it is exactly the sum.
pub proof fn lemma_sequential_changes(initial: i32, changes: Seq<Change>)
    ensures
        after_changes(initial, changes) == wrap(initial + net_delta(changes)),
        i32::MIN <= initial + net_delta(changes) <= i32::MAX ==> after_changes(initial, changes)
            == initial + net_delta(changes),
    decreases changes.len(),
{
    if changes.len() == 0 {
        lemma_wrap_in_range(initial as int);
    } else {
        let rest = changes.drop_last();
        lemma_sequential_changes(initial, rest);
        let v = after_changes(initial, rest);
        lemma_wrap_bounds(v + 1);
        lemma_wrap_bounds(v - 1);
        lemma_wrap_absorbs(initial + net_delta(rest), 1);
        lemma_wrap_absorbs(initial + net_delta(rest), -1);
    }
    if i32::MIN <= initial + net_delta(changes) <= i32::MAX {
        lemma_wrap_in_range(initial + net_delta(changes));
    }
}

/// The net change counts the increments and the decrements, whatever their order.
proof fn lemma_net_delta_counts(changes: Seq<Change>)
    ensures
        net_delta(changes) == changes.to_multiset().count(Change::Increment) - changes.to_multiset().count(
            Change::Decrement,
        ),
    decreases changes.len(),
{
    broadcast use vstd::seq_lib::group_to_multiset_ensures;

    if changes.len() == 0 {
        assert(changes.to_multiset() =~= vstd::multiset::Multiset::empty());
    } else {
        let rest = changes.drop_last();
        lemma_net_delta_counts(rest);
        assert(changes =~= rest.push(changes.last()));
    }
}

/// When writers take turns under mutual exclusion, the changes are applied in some
/// order; whatever that order, once all of them are done the counter holds the same
/// value, so no update is lost.
pub proof fn lemma_any_order(initial: i32, changes: Seq<Change>, reordered: Seq<Change>)
    requires
        reordered.to_multiset() == changes.to_multiset(),
    ensures
        after_changes(initial, reordered) == after_changes(initial, changes),
{
    lemma_net_delta_counts(changes);
    lemma_net_delta_counts(reordered);
    lemma_sequential_changes(initial, changes);
    lemma_sequential_changes(initial, reordered);
}

/// What `k` receives in a row give a subscriber at position `next`, with nothing
/// published in between.
pub open spec fn drain(history: Seq<i32>, cap: nat, next: nat, k: nat) -> Seq<RecvResult>
    decreases k,
{
    if k == 0 {
        Seq::empty()
    } else {
        let (r, after) = recv_outcome(history, cap, next);
        seq![r] + drain(history, cap, after, (k - 1) as nat)
    }
}

/// Each value wrapped as a received one.
pub open spec fn as_received(values: Seq<i32>) -> Seq<RecvResult> {
    values.map_values(|v: i32| RecvResult::Value(v))
}

/// A subscriber that is never more than the capacity behind receives, at each
/// receive, the value published right after the last one it received.
pub proof fn lemma_keeps_up(history: Seq<i32>, cap: nat, next: nat)
    requires
        next < history.len() <= next + cap,
    ensures
        recv_outcome(history, cap, next) == (RecvResult::Value(history[next as int]), next + 1),
{
}

/// A subscriber that is at most the capacity behind receives every pending value,
/// in the order published, and nothing else.
pub proof fn lemma_keeps_up_in_order(history: Seq<i32>, cap: nat, next: nat, k: nat)
    requires
        next <= history.len() <= next + cap,
        next + k <= history.len(),
    ensures
        drain(history, cap, next, k) == as_received(history.subrange(next as int, (next + k) as int)),
    decreases k,
{
    if k == 0 {
        assert(as_received(history.subrange(next as int, next as int)) =~= Seq::empty());
    } else {
        lemma_keeps_up_in_order(history, cap, next + 1, (k - 1) as nat);
        assert(as_received(history.subrange(next as int, (next + k) as int)) =~= seq![
            RecvResult::Value(history[next as int]),
        ] + as_received(history.subrange((next + 1) as int, (next + k) as int)));
    }
}

/// A subscriber more than the capacity behind is told once how many of the oldest
/// values it lost, then receives the kept ones in order, then nothing until the
/// next publish, which it receives.
pub proof fn lemma_lagged_then_resumes(history: Seq<i32>, cap: nat, next: nat, v: i32)
    requires
        cap > 0,
        next + cap < history.len(),
        history.len() < u64::MAX,
    ensures
        drain(history, cap, next, cap + 2) == seq![
            RecvResult::Lagged((history.len() - cap - next) as u64),
        ] + as_received(history.subrange(history.len() - cap, history.len() as int)) + seq![
            RecvResult::Empty,
        ],
        recv_outcome(history.push(v), cap, history.len()) == (RecvResult::Value(v), history.len() + 1),
{
    let len = history.len();
    let oldest = (len - cap) as nat;
    assert(recv_outcome(history, cap, next) == (RecvResult::Lagged((len - cap - next) as u64), oldest));
    lemma_keeps_up_in_order(history, cap, oldest, cap);
    lemma_drain_split(history, cap, oldest, cap, 1);
    assert(drain(history, cap, len, 0) == Seq::<RecvResult>::empty());
    assert(drain(history, cap, len, 1) =~= seq![RecvResult::Empty]);
    assert(drain(history, cap, next, cap + 2) =~= seq![
        RecvResult::Lagged((len - cap - next) as u64),
    ] + drain(history, cap, oldest, cap + 1));
}

/// Receiving `a + b` times is receiving `a` times, then `b` times from where that left off.
proof fn lemma_drain_split(history: Seq<i32>, cap: nat, next: nat, a: nat, b: nat)
    requires
        next <= history.len() <= next + cap,
        next + a <= history.len(),
    ensures
        drain(history, cap, next, a + b) == drain(history, cap, next, a) + drain(
            history,
            cap,
            next + a,
            b,
        ),
    decreases a,
{
    if a == 0 {
        assert(drain(history, cap, next, 0) + drain(history, cap, next, b) =~= drain(
            history,
            cap,
            next,
            b,
        ));
    } else {
        lemma_drain_split(history, cap, next + 1, (a - 1) as nat, b);
        assert(drain(history, cap, next, a + b) =~= drain(history, cap, next, a) + drain(
            history,
            cap,
            next + a,
            b,
        ));
    }
}

/// A subscriber that joins after some values were published gets none of them:
/// its first receive finds nothing, and after the next publish it receives that value.
pub proof fn lemma_subscribe_sees_only_new(history: Seq<i32>, cap: nat, v: i32)
    requires
        cap > 0,
    ensures
        recv_outcome(history, cap, history.len()) == (RecvResult::Empty, history.len()),
        recv_outcome(history.push(v), cap, history.len()) == (RecvResult::Value(v), history.len() + 1),
{
}

} // verus!
