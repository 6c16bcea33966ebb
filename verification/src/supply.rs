//! The ledger's global accounting invariant: the aggregate supply equals
//! the sum over all holder records of spendable plus locked balance.  No
//! operation reads all holders at once, so the invariant is preserved
//! incrementally: each lemma here takes an operation's contract and carries
//! the invariant across the one or two records the operation touched.

use vstd::prelude::*;

use crate::token_standards::{
    burn_post, holding, mint_post, spec_release_vested, transfer_post, TokenError, TokenHolder,
    TokenInfo,
};

verus! {

/// The combined holdings of a sequence of holder records.
pub open spec fn total_holdings(holders: Seq<TokenHolder>) -> int
    decreases holders.len(),
{
    if holders.len() == 0 {
        0
    } else {
        total_holdings(holders.drop_last()) + holding(holders.last())
    }
}

/// The supply invariant of one ledger over its holder records.
pub open spec fn supply_invariant(info: TokenInfo, holders: Seq<TokenHolder>) -> bool {
    total_holdings(holders) == info.total_supply
}

/// Replacing one record moves the sum by exactly that record's change.
proof fn lemma_total_holdings_update(holders: Seq<TokenHolder>, i: int, h: TokenHolder)
    requires
        0 <= i < holders.len(),
    ensures
        total_holdings(holders.update(i, h)) == total_holdings(holders) - holding(holders[i])
            + holding(h),
    decreases holders.len(),
{
    let updated = holders.update(i, h);
    if i == holders.len() - 1 {
        assert(updated.drop_last() =~= holders.drop_last());
        assert(updated.last() == h);
    } else {
        assert(updated.drop_last() =~= holders.drop_last().update(i, h));
        assert(updated.last() == holders.last());
        lemma_total_holdings_update(holders.drop_last(), i, h);
    }
}

/// Combined holdings are never negative.
pub proof fn lemma_total_holdings_nonnegative(holders: Seq<TokenHolder>)
    ensures
        total_holdings(holders) >= 0,
    decreases holders.len(),
{
    if holders.len() > 0 {
        lemma_total_holdings_nonnegative(holders.drop_last());
    }
}

/// A holder record never carries a negative balance, spendable or locked,
/// at any observable point: both are unsigned, and every operation's
/// contract rules out wraparound.
pub proof fn lemma_holder_balances_nonnegative(h: TokenHolder)
    ensures
        h.balance >= 0,
        h.locked_balance >= 0,
        holding(h) >= 0,
{
}

/// A mint preserves the supply invariant, whether it succeeded or failed:
/// holder `i` becomes `post_h` and the ledger becomes `post`.
pub proof fn lemma_mint_preserves_supply_invariant(
    pre: TokenInfo,
    post: TokenInfo,
    pre_h: TokenHolder,
    post_h: TokenHolder,
    res: Result<(), TokenError>,
    amount: u64,
    holders: Seq<TokenHolder>,
    i: int,
)
    requires
        mint_post(pre, pre_h, post, post_h, res, amount),
        supply_invariant(pre, holders),
        0 <= i < holders.len(),
        holders[i] == pre_h,
    ensures
        supply_invariant(post, holders.update(i, post_h)),
{
    lemma_total_holdings_update(holders, i, post_h);
}

/// A burn preserves the supply invariant, whether it succeeded or failed.
pub proof fn lemma_burn_preserves_supply_invariant(
    pre: TokenInfo,
    post: TokenInfo,
    pre_h: TokenHolder,
    post_h: TokenHolder,
    res: Result<(), TokenError>,
    amount: u64,
    holders: Seq<TokenHolder>,
    i: int,
)
    requires
        burn_post(pre, pre_h, post, post_h, res, amount),
        supply_invariant(pre, holders),
        0 <= i < holders.len(),
        holders[i] == pre_h,
    ensures
        supply_invariant(post, holders.update(i, post_h)),
{
    lemma_total_holdings_update(holders, i, post_h);
}

/// A transfer preserves the supply invariant, whether it succeeded or
/// failed: the ledger itself is untouched and the two balance moves cancel.
pub proof fn lemma_transfer_preserves_supply_invariant(
    info: TokenInfo,
    pre_from: TokenHolder,
    pre_to: TokenHolder,
    post_from: TokenHolder,
    post_to: TokenHolder,
    res: Result<(), TokenError>,
    amount: u64,
    now: i64,
    holders: Seq<TokenHolder>,
    i: int,
    j: int,
)
    requires
        transfer_post(info, pre_from, pre_to, post_from, post_to, res, amount, now),
        supply_invariant(info, holders),
        0 <= i < holders.len(),
        0 <= j < holders.len(),
        i != j,
        holders[i] == pre_from,
        holders[j] == pre_to,
    ensures
        supply_invariant(info, holders.update(i, post_from).update(j, post_to)),
{
    lemma_total_holdings_update(holders, i, post_from);
    lemma_total_holdings_update(holders.update(i, post_from), j, post_to);
    assert(holders.update(i, post_from)[j] == pre_to);
}

/// A vesting release preserves the supply invariant, whether it succeeded
/// or failed: it only moves value between the locked and the spendable
/// balance of one record, so the record's holding is unchanged.
pub proof fn lemma_release_preserves_supply_invariant(
    info: TokenInfo,
    pre_h: TokenHolder,
    now: i64,
    holders: Seq<TokenHolder>,
    i: int,
)
    requires
        supply_invariant(info, holders),
        0 <= i < holders.len(),
        holders[i] == pre_h,
    ensures
        supply_invariant(info, holders.update(i, spec_release_vested(pre_h, now).1)),
{
    lemma_total_holdings_update(holders, i, spec_release_vested(pre_h, now).1);
}

} // verus!
