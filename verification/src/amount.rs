//! Totals of asset amounts.
//!
//! Amounts add up the way `rgbstd::Amount` sums them: with a saturating
//! addition, so a total never wraps around but stops at `u64::MAX`.

use vstd::prelude::*;

use crate::outside::{amount_saturating_add, amount_sub};

verus! {

/// The exact (unbounded) sum of a sequence of amounts.
pub open spec fn sum_of(amounts: Seq<u64>) -> int
    decreases amounts.len(),
{
    if amounts.len() == 0 {
        0
    } else {
        sum_of(amounts.drop_last()) + amounts.last()
    }
}

/// A non-negative integer capped at the largest representable amount.
pub open spec fn capped(x: int) -> u64 {
    if x > u64::MAX {
        u64::MAX
    } else if x < 0 {
        0
    } else {
        x as u64
    }
}

/// The total of a sequence of amounts as `rgbstd::Amount` sums it:
/// their exact sum, capped at `u64::MAX`.
pub open spec fn total_of(amounts: Seq<u64>) -> u64 {
    capped(sum_of(amounts))
}

/// A sum of amounts is never negative.
pub proof fn lemma_sum_of_nonnegative(amounts: Seq<u64>)
    ensures
        sum_of(amounts) >= 0,
    decreases amounts.len(),
{
    if amounts.len() > 0 {
        lemma_sum_of_nonnegative(amounts.drop_last());
    }
}

/// Adding one more amount to a running total capped at `u64::MAX` with a
/// saturating addition gives the capped total of the longer sequence.
pub proof fn lemma_total_of_push(amounts: Seq<u64>, next: u64)
    ensures
        total_of(amounts.push(next)) == capped(total_of(amounts) + next),
{
    lemma_sum_of_nonnegative(amounts);
    assert(amounts.push(next).drop_last() =~= amounts);
}

/// Adds up `amounts` as `rgbstd::Amount` does: the result is their sum,
/// or `u64::MAX` where that sum does not fit.
pub fn total_amount(amounts: &Vec<u64>) -> (total: u64)
    ensures
        total == total_of(amounts@),
{
    let mut total: u64 = 0;
    let n = amounts.len();
    assert(amounts@.take(0) =~= Seq::<u64>::empty());
    for i in 0..n
        invariant
            n == amounts@.len(),
            total == total_of(amounts@.take(i as int)),
    {
        proof {
            lemma_total_of_push(amounts@.take(i as int), amounts@[i as int]);
            assert(amounts@.take(i as int).push(amounts@[i as int]) =~= amounts@.take(i + 1));
        }
        total = amount_saturating_add(total, amounts[i]);
    }
    assert(amounts@.take(n as int) =~= amounts@);
    total
}

/// What remains of an issued supply once `burned` of it is gone: `None`
/// where more was burned than issued.
pub open spec fn remaining_of(issued: u64, burned: u64) -> Option<u64> {
    if burned <= issued {
        Some((issued - burned) as u64)
    } else {
        None
    }
}

/// What remains of an issued supply once `burned` of it is gone: `None`
/// where more was burned than issued (the subtraction that `rgbstd::Amount`
/// performs would underflow there).
pub fn remaining_supply(issued: u64, burned: u64) -> (r: Option<u64>)
    ensures
        r == remaining_of(issued, burned),
{
    if burned <= issued {
        Some(amount_sub(issued, burned))
    } else {
        None
    }
}

/// The amounts held in an optional vector, as a sequence.
pub open spec fn seq_of(values: Option<Vec<u64>>) -> Option<Seq<u64>> {
    match values {
        Some(v) => Some(v@),
        None => None,
    }
}

/// The total of a global state field that the interface must know:
/// `None` where it does not (`values` is `None`).
pub open spec fn required_total_of(values: Option<Seq<u64>>) -> Option<u64> {
    match values {
        Some(v) => Some(total_of(v)),
        None => None,
    }
}

/// The total of a global state field that may be missing: a field that the
/// interface does not know counts as holding no amount.
pub open spec fn optional_total_of(values: Option<Seq<u64>>) -> u64 {
    match values {
        Some(v) => total_of(v),
        None => 0,
    }
}

/// The maximal supply of an asset: the total of its `maxSupply` field, or,
/// where the interface has no such field, the total of its `issuedSupply`.
pub open spec fn max_supply_of(max: Option<Seq<u64>>, issued: Option<Seq<u64>>) -> Option<u64> {
    match max {
        Some(v) => Some(total_of(v)),
        None => required_total_of(issued),
    }
}

/// Totals the amounts of a global state field that the interface must know;
/// `None` where it does not.
pub fn required_total(values: &Option<Vec<u64>>) -> (r: Option<u64>)
    ensures
        r == required_total_of(seq_of(*values)),
{
    match values {
        Some(v) => Some(total_amount(v)),
        None => None,
    }
}

/// Totals the amounts of a global state field; one that the interface does
/// not know totals 0.
pub fn optional_total(values: &Option<Vec<u64>>) -> (r: u64)
    ensures
        r == optional_total_of(seq_of(*values)),
{
    match values {
        Some(v) => total_amount(v),
        None => 0,
    }
}

/// The maximal supply from the amounts of the `maxSupply` field and, for
/// interfaces without that field, those of the `issuedSupply` field.
pub fn max_supply_total(max: &Option<Vec<u64>>, issued: &Option<Vec<u64>>) -> (r: Option<u64>)
    ensures
        r == max_supply_of(seq_of(*max), seq_of(*issued)),
{
    match max {
        Some(v) => Some(total_amount(v)),
        None => required_total(issued),
    }
}

/// Where an asset has no `maxSupply` field, its maximal supply is its
/// issued supply.
pub proof fn lemma_max_supply_defaults_to_issued(issued: Option<Seq<u64>>)
    ensures
        max_supply_of(None, issued) == required_total_of(issued),
{
}

/// The supply that remains after a burn, with the burned amount added
/// back, is the issued supply; nothing burned leaves the whole supply, and
/// a burn larger than the issue leaves no defined supply.
pub proof fn lemma_remaining_plus_burned(issued: u64, burned: u64)
    ensures
        remaining_of(issued, burned) matches Some(rest) ==> rest + burned == issued,
        remaining_of(issued, 0) == Some(issued),
        remaining_of(issued, burned) is None <==> burned > issued,
{
}

/// The amounts of `amounts` whose place in `keep` is `true`, in order.
pub open spec fn selected(amounts: Seq<u64>, keep: Seq<bool>) -> Seq<u64>
    decreases amounts.len(),
{
    if amounts.len() == 0 {
        Seq::empty()
    } else if keep.len() == amounts.len() && keep.last() {
        selected(amounts.drop_last(), keep.drop_last()).push(amounts.last())
    } else {
        selected(amounts.drop_last(), keep.drop_last())
    }
}

/// A part of a collection of amounts never totals more than the whole: the
/// balance of some of one's allocations is at most the balance of all of
/// them.
pub proof fn lemma_part_totals_no_more(amounts: Seq<u64>, keep: Seq<bool>)
    requires
        keep.len() == amounts.len(),
    ensures
        sum_of(selected(amounts, keep)) <= sum_of(amounts),
        total_of(selected(amounts, keep)) <= total_of(amounts),
    decreases amounts.len(),
{
    if amounts.len() > 0 {
        lemma_part_totals_no_more(amounts.drop_last(), keep.drop_last());
        let part = selected(amounts.drop_last(), keep.drop_last());
        if keep.last() {
            assert(part.push(amounts.last()).drop_last() =~= part);
        }
        lemma_sum_of_nonnegative(amounts.drop_last());
    }
    lemma_sum_of_nonnegative(selected(amounts, keep));
}

/// Totals count every amount: no amount totals 0, and one more amount
/// adds itself to the total (capped at `u64::MAX`), even where an equal
/// amount is already there. A field that the interface does not know
/// totals 0 where it may be missing, and has no total where it is required.
/// The maximal supply is the total of the `maxSupply` amounts whatever the
/// issued supply, and the issued supply's total only without them.
pub proof fn lemma_totals_count_every_amount(amounts: Seq<u64>, next: u64, issued: Option<Seq<u64>>)
    ensures
        total_of(Seq::empty()) == 0,
        total_of(amounts.push(next)) == capped(total_of(amounts) + next),
        optional_total_of(None) == 0,
        optional_total_of(Some(Seq::empty())) == 0,
        optional_total_of(Some(amounts.push(next))) == capped(optional_total_of(Some(amounts)) + next),
        required_total_of(None) is None,
        required_total_of(Some(Seq::empty())) == Some(0u64),
        required_total_of(Some(amounts.push(next))) == Some(
            capped(required_total_of(Some(amounts)).unwrap() + next),
        ),
        max_supply_of(Some(amounts), issued) == Some(total_of(amounts)),
        max_supply_of(None, issued) == required_total_of(issued),
{
    lemma_total_of_push(amounts, next);
}

/// Capping keeps a non-negative integer that fits in a `u64` as it is, and
/// gives `u64::MAX` for a larger one.
pub proof fn lemma_capped(x: int)
    ensures
        0 <= x <= u64::MAX ==> capped(x) == x,
        x > u64::MAX ==> capped(x) == u64::MAX,
{
}

/// Where the exact sum of the amounts fits in a `u64`, a total is that sum.
pub proof fn lemma_total_is_exact_sum(amounts: Seq<u64>)
    requires
        sum_of(amounts) <= u64::MAX,
    ensures
        total_of(amounts) == sum_of(amounts),
        optional_total_of(Some(amounts)) == sum_of(amounts),
{
    lemma_sum_of_nonnegative(amounts);
}

/// The amounts of an optional vector are those it holds, in order.
pub proof fn lemma_seq_of(values: Option<Vec<u64>>)
    ensures
        values matches Some(v) ==> seq_of(values) == Some(v@),
        values is None ==> seq_of(values) is None,
{
}

} // verus!
