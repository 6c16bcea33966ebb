//! The operation gateway: every public ledger entry point resolves the
//! caller's authority first and only then mutates the ledger.  The caller
//! identity and the current time are supplied, already authenticated, by the
//! surrounding runtime; the settlement of the underlying asset between
//! custodial accounts happens outside, after these entry points commit.

use vstd::prelude::*;

use crate::token_standards::{
    burn_post, holder_wf, mint_post, transfer_post, DistributionRules, TokenConfig, TokenError,
    TokenHolder, TokenInfo, TokenMetadata, TokenPermissions, VestingSchedule,
};
use crate::Pubkey;

verus! {

/// Initializes `token_info` for `authority`; the one entry point with no
/// authority gate, called once when the token definition is created.
pub fn handle_initialize_token(
    token_info: &mut TokenInfo,
    authority: Pubkey,
    metadata: TokenMetadata,
    config: TokenConfig,
    distribution_rules: DistributionRules,
    permissions: TokenPermissions,
) -> (res: Result<(), TokenError>)
    ensures
        res is Ok,
        final(token_info).metadata == metadata,
        final(token_info).config == config,
        final(token_info).distribution_rules == distribution_rules,
        final(token_info).permissions == permissions,
        final(token_info).authority == authority,
        final(token_info).total_supply == 0,
        final(token_info).holder_count == 0,
        final(token_info).mint == old(token_info).mint,
{
    token_info.initialize(metadata, config, distribution_rules, permissions, authority)
}

/// Mints into `holder` on behalf of `authority`, which must be the ledger's
/// authority; an unauthorized caller changes nothing.
pub fn handle_mint_token(
    token_info: &mut TokenInfo,
    holder: &mut TokenHolder,
    authority: Pubkey,
    amount: u64,
) -> (res: Result<(), TokenError>)
    ensures
        authority != old(token_info).authority ==> {
            &&& res == Err::<(), TokenError>(TokenError::UnauthorizedOperation)
            &&& *final(token_info) == *old(token_info)
            &&& *final(holder) == *old(holder)
        },
        authority == old(token_info).authority ==> mint_post(
            *old(token_info),
            *old(holder),
            *final(token_info),
            *final(holder),
            res,
            amount,
        ),
{
    if authority != token_info.authority {
        return Err(TokenError::UnauthorizedOperation);
    }
    token_info.mint(amount, holder)
}

/// Burns out of `holder` on behalf of `authority`, which must be the
/// ledger's authority or the holder's own owner.
pub fn handle_burn_token(
    token_info: &mut TokenInfo,
    holder: &mut TokenHolder,
    authority: Pubkey,
    amount: u64,
) -> (res: Result<(), TokenError>)
    ensures
        authority != old(token_info).authority && authority != old(holder).owner ==> {
            &&& res == Err::<(), TokenError>(TokenError::UnauthorizedOperation)
            &&& *final(token_info) == *old(token_info)
            &&& *final(holder) == *old(holder)
        },
        authority == old(token_info).authority || authority == old(holder).owner ==> burn_post(
            *old(token_info),
            *old(holder),
            *final(token_info),
            *final(holder),
            res,
            amount,
        ),
{
    if authority != token_info.authority && authority != holder.owner {
        return Err(TokenError::UnauthorizedOperation);
    }
    token_info.burn(amount, holder)
}

/// Transfers between two holder records on behalf of `authority`, which
/// must own the source record.
pub fn handle_transfer_token(
    token_info: &TokenInfo,
    from_holder: &mut TokenHolder,
    to_holder: &mut TokenHolder,
    authority: Pubkey,
    amount: u64,
    now: i64,
) -> (res: Result<(), TokenError>)
    ensures
        authority != old(from_holder).owner ==> {
            &&& res == Err::<(), TokenError>(TokenError::UnauthorizedOperation)
            &&& *final(from_holder) == *old(from_holder)
            &&& *final(to_holder) == *old(to_holder)
        },
        authority == old(from_holder).owner ==> transfer_post(
            *token_info,
            *old(from_holder),
            *old(to_holder),
            *final(from_holder),
            *final(to_holder),
            res,
            amount,
            now,
        ),
{
    if authority != from_holder.owner {
        return Err(TokenError::UnauthorizedOperation);
    }
    token_info.transfer(amount, from_holder, to_holder, now)
}

/// Installs a vesting schedule on `holder` on behalf of `authority`, which
/// must be the ledger's authority.
pub fn handle_update_vesting(
    token_info: &TokenInfo,
    holder: &mut TokenHolder,
    authority: Pubkey,
    schedule: VestingSchedule,
) -> (res: Result<(), TokenError>)
    ensures
        authority != token_info.authority ==> {
            &&& res == Err::<(), TokenError>(TokenError::UnauthorizedOperation)
            &&& *final(holder) == *old(holder)
        },
        authority == token_info.authority ==> {
            &&& (res is Ok <==> schedule.end_time > schedule.start_time)
            &&& (res is Ok ==> {
                &&& final(holder).vesting_schedule == Some(schedule)
                &&& final(holder).owner == old(holder).owner
                &&& final(holder).balance == old(holder).balance
                &&& final(holder).locked_balance == old(holder).locked_balance
                &&& final(holder).last_transfer == old(holder).last_transfer
            })
            &&& (res is Err ==> *final(holder) == *old(holder) && res == Err::<(), TokenError>(
                TokenError::InvalidVestingSchedule,
            ))
        },
        holder_wf(*old(holder)) ==> holder_wf(*final(holder)),
{
    if authority != token_info.authority {
        return Err(TokenError::UnauthorizedOperation);
    }
    token_info.update_vesting(holder, schedule)
}

} // verus!
