//! One token definition's policy and aggregate supply, the per-holder
//! balance records it mutates, and linear vesting.
//!
//! Every mutating operation validates before it writes: on any error the
//! ledger and the touched holder records are left exactly as they were.

use vstd::arithmetic::div_mod::{lemma_div_by_multiple, lemma_div_is_ordered, lemma_div_pos_is_pos};
use vstd::arithmetic::mul::{lemma_mul_inequality, lemma_mul_is_commutative, lemma_mul_nonnegative};
use vstd::prelude::*;

use crate::Pubkey;

verus! {

/// The token kinds supported by the platform.
#[derive(Clone, Copy, PartialEq, Eq, Structural, Debug)]
pub enum TokenType {
    ProjectToken,
    GovernanceToken,
    ResourceToken,
    CollaborationToken,
    NFT,
}

/// Descriptive metadata of one token definition.
#[derive(Clone, Debug)]
pub struct TokenMetadata {
    pub name: String,
    pub symbol: String,
    pub uri: String,
    pub decimals: u8,
    pub token_type: TokenType,
    pub creator: Pubkey,
    pub is_frozen: bool,
    pub created_at: i64,
}

/// Supply policy of one token definition.
#[derive(Clone, Copy, Debug)]
pub struct TokenConfig {
    pub initial_supply: u64,
    pub max_supply: Option<u64>,
    pub is_mintable: bool,
    pub is_burnable: bool,
    pub is_transferable: bool,
    pub requires_auth: bool,
}

/// Time gates on distribution.  `transfer_lock` is an absolute timestamp
/// before which no transfer passes; `min_hold_period` is a duration counted
/// from the holder's last transfer.
#[derive(Clone, Copy, Debug)]
pub struct DistributionRules {
    pub vesting_period: Option<i64>,
    pub cliff_period: Option<i64>,
    pub transfer_lock: Option<i64>,
    pub min_hold_period: Option<i64>,
}

/// Capability flags of one token definition.
#[derive(Clone, Copy, Debug)]
pub struct TokenPermissions {
    pub can_mint: bool,
    pub can_burn: bool,
    pub can_freeze: bool,
    pub can_modify_metadata: bool,
}

/// One token definition: identity, policy, and aggregate supply.
#[derive(Clone, Debug)]
pub struct TokenInfo {
    pub mint: Pubkey,
    pub metadata: TokenMetadata,
    pub config: TokenConfig,
    pub distribution_rules: DistributionRules,
    pub permissions: TokenPermissions,
    pub total_supply: u64,
    pub holder_count: u64,
    pub authority: Pubkey,
}

/// One principal's balance record within one token definition.
#[derive(Clone, Copy, Debug)]
pub struct TokenHolder {
    pub owner: Pubkey,
    pub balance: u64,
    pub locked_balance: u64,
    pub vesting_schedule: Option<VestingSchedule>,
    pub last_transfer: i64,
}

/// A linear vesting schedule over a locked balance.
#[derive(Clone, Copy, PartialEq, Eq, Structural, Debug)]
pub struct VestingSchedule {
    pub total_amount: u64,
    pub released_amount: u64,
    pub start_time: i64,
    pub end_time: i64,
    pub cliff_time: i64,
    pub interval: i64,
}

/// The failures a ledger operation can report.  `OperationNotPermitted`
/// means a policy flag disallows the action; `UnauthorizedOperation` means
/// the caller failed the gateway's authority check — the two kinds are
/// distinct so a caller can tell policy from authorization.
#[derive(Clone, Copy, PartialEq, Eq, Structural, Debug)]
pub enum TokenError {
    InvalidTokenType,
    SupplyExceeded,
    TransferLocked,
    InsufficientBalance,
    InvalidVestingSchedule,
    UnauthorizedOperation,
    OperationNotPermitted,
}

/// The full holding of one record: spendable plus locked balance.
pub open spec fn holding(h: TokenHolder) -> int {
    h.balance + h.locked_balance
}

/// A holder record is well formed when any schedule it carries has a
/// positive vesting duration, which `update_vesting` enforces on assignment.
pub open spec fn holder_wf(h: TokenHolder) -> bool {
    h.vesting_schedule matches Some(s) ==> s.end_time > s.start_time
}

/// `b` keeps every field of `a` except possibly the aggregate supply.
pub open spec fn same_info_except_supply(a: TokenInfo, b: TokenInfo) -> bool {
    &&& b.mint == a.mint
    &&& b.metadata == a.metadata
    &&& b.config == a.config
    &&& b.distribution_rules == a.distribution_rules
    &&& b.permissions == a.permissions
    &&& b.holder_count == a.holder_count
    &&& b.authority == a.authority
}

/// `b` keeps every field of `a` except possibly the spendable balance.
pub open spec fn same_holder_except_balance(a: TokenHolder, b: TokenHolder) -> bool {
    &&& b.owner == a.owner
    &&& b.locked_balance == a.locked_balance
    &&& b.vesting_schedule == a.vesting_schedule
    &&& b.last_transfer == a.last_transfer
}

/// A mint of `amount` into `to` passes policy, cap and machine bounds.
pub open spec fn mint_allowed(info: TokenInfo, to: TokenHolder, amount: u64) -> bool {
    &&& info.config.is_mintable
    &&& (info.config.max_supply matches Some(cap) ==> info.total_supply + amount <= cap)
    &&& info.total_supply + amount <= u64::MAX
    &&& to.balance + amount <= u64::MAX
}

/// The failure a refused mint reports: the policy gate first, any supply or
/// balance bound after it.
pub open spec fn mint_error(info: TokenInfo) -> TokenError {
    if !info.config.is_mintable {
        TokenError::OperationNotPermitted
    } else {
        TokenError::SupplyExceeded
    }
}

/// The full contract of `TokenInfo::mint`: success exactly on
/// `mint_allowed`, both sums applied as a pair on success, and both records
/// left untouched on failure.
pub open spec fn mint_post(
    pre: TokenInfo,
    pre_to: TokenHolder,
    post: TokenInfo,
    post_to: TokenHolder,
    res: Result<(), TokenError>,
    amount: u64,
) -> bool {
    &&& (res is Ok <==> mint_allowed(pre, pre_to, amount))
    &&& (res is Ok ==> {
        &&& post.total_supply == pre.total_supply + amount
        &&& post_to.balance == pre_to.balance + amount
        &&& same_info_except_supply(pre, post)
        &&& same_holder_except_balance(pre_to, post_to)
    })
    &&& (res is Err ==> post == pre && post_to == pre_to && res == Err::<(), TokenError>(
        mint_error(pre),
    ))
}

/// Cap boundary: minting exactly up to the cap passes, and minting past the
/// cap is refused with `SupplyExceeded`, for every mintable ledger.
pub proof fn lemma_mint_cap_boundary(info: TokenInfo, to: TokenHolder, amount: u64, cap: u64)
    requires
        info.config.is_mintable,
        info.config.max_supply == Some(cap),
    ensures
        info.total_supply + amount == cap && to.balance + amount <= u64::MAX ==> mint_allowed(
            info,
            to,
            amount,
        ),
        info.total_supply + amount > cap ==> !mint_allowed(info, to, amount) && mint_error(info)
            == TokenError::SupplyExceeded,
{
}

/// A burn of `amount` out of `from` passes policy and both balances.
pub open spec fn burn_allowed(info: TokenInfo, from: TokenHolder, amount: u64) -> bool {
    &&& info.config.is_burnable
    &&& from.balance >= amount
    &&& info.total_supply >= amount
}

/// The failure a refused burn reports.
pub open spec fn burn_error(info: TokenInfo) -> TokenError {
    if !info.config.is_burnable {
        TokenError::OperationNotPermitted
    } else {
        TokenError::InsufficientBalance
    }
}

/// The full contract of `TokenInfo::burn`.
pub open spec fn burn_post(
    pre: TokenInfo,
    pre_from: TokenHolder,
    post: TokenInfo,
    post_from: TokenHolder,
    res: Result<(), TokenError>,
    amount: u64,
) -> bool {
    &&& (res is Ok <==> burn_allowed(pre, pre_from, amount))
    &&& (res is Ok ==> {
        &&& post.total_supply == pre.total_supply - amount
        &&& post_from.balance == pre_from.balance - amount
        &&& same_info_except_supply(pre, post)
        &&& same_holder_except_balance(pre_from, post_from)
    })
    &&& (res is Err ==> post == pre && post_from == pre_from && res == Err::<(), TokenError>(
        burn_error(pre),
    ))
}

/// Balance boundary: burning the whole balance passes and leaves zero, and
/// burning one unit more is refused with `InsufficientBalance`, for every
/// burnable ledger whose supply covers the balance.
pub proof fn lemma_burn_balance_boundary(info: TokenInfo, from: TokenHolder)
    requires
        info.config.is_burnable,
        info.total_supply >= from.balance,
    ensures
        burn_allowed(info, from, from.balance),
        from.balance < u64::MAX ==> !burn_allowed(info, from, (from.balance + 1) as u64)
            && burn_error(info) == TokenError::InsufficientBalance,
{
}

/// A transfer out of `from` at time `now` is blocked by a time gate: either
/// the absolute `transfer_lock` timestamp has not passed, or the holder has
/// not held long enough since its last transfer.
pub open spec fn transfer_locked(info: TokenInfo, from: TokenHolder, now: i64) -> bool {
    ||| (info.distribution_rules.transfer_lock matches Some(lock_time) && now < lock_time)
    ||| (info.distribution_rules.min_hold_period matches Some(min_hold) && now
        - from.last_transfer < min_hold)
}

/// A transfer of `amount` from `from` to `to` at time `now` passes policy,
/// time gates, the source balance and the destination bound.
pub open spec fn transfer_allowed(
    info: TokenInfo,
    from: TokenHolder,
    to: TokenHolder,
    amount: u64,
    now: i64,
) -> bool {
    &&& info.config.is_transferable
    &&& !transfer_locked(info, from, now)
    &&& from.balance >= amount
    &&& to.balance + amount <= u64::MAX
}

/// The failure a refused transfer reports, in the order the gates are
/// checked: policy, time gates, source balance, destination bound.
pub open spec fn transfer_error(
    info: TokenInfo,
    from: TokenHolder,
    amount: u64,
    now: i64,
) -> TokenError {
    if !info.config.is_transferable {
        TokenError::OperationNotPermitted
    } else if transfer_locked(info, from, now) {
        TokenError::TransferLocked
    } else if from.balance < amount {
        TokenError::InsufficientBalance
    } else {
        TokenError::SupplyExceeded
    }
}

/// The full contract of `TokenInfo::transfer`: the pair of balance moves and
/// the stamped transfer time on success, both holders untouched on failure.
pub open spec fn transfer_post(
    info: TokenInfo,
    pre_from: TokenHolder,
    pre_to: TokenHolder,
    post_from: TokenHolder,
    post_to: TokenHolder,
    res: Result<(), TokenError>,
    amount: u64,
    now: i64,
) -> bool {
    &&& (res is Ok <==> transfer_allowed(info, pre_from, pre_to, amount, now))
    &&& (res is Ok ==> {
        &&& post_from.balance == pre_from.balance - amount
        &&& post_to.balance == pre_to.balance + amount
        &&& post_from.last_transfer == now
        &&& post_from.owner == pre_from.owner
        &&& post_from.locked_balance == pre_from.locked_balance
        &&& post_from.vesting_schedule == pre_from.vesting_schedule
        &&& same_holder_except_balance(pre_to, post_to)
    })
    &&& (res is Err ==> post_from == pre_from && post_to == pre_to && res == Err::<
        (),
        TokenError,
    >(transfer_error(info, pre_from, amount, now)))
}

/// The amount vested under schedule `s` at time `now`: linear accrual from
/// `start_time` to `end_time`, floored to a whole token unit, with the
/// elapsed time clamped to the schedule's duration so the result never
/// exceeds `total_amount`.
pub open spec fn vested_amount(s: VestingSchedule, now: i64) -> int
    recommends
        s.end_time > s.start_time,
{
    let duration = s.end_time - s.start_time;
    let elapsed_raw = now - s.start_time;
    let elapsed = if elapsed_raw < 0 {
        0
    } else if elapsed_raw > duration {
        duration
    } else {
        elapsed_raw
    };
    (s.total_amount * elapsed) / duration
}

/// Clamped linear accrual stays between zero and the schedule's total.
pub proof fn lemma_vested_amount_bounds(s: VestingSchedule, now: i64)
    requires
        s.end_time > s.start_time,
    ensures
        0 <= vested_amount(s, now) <= s.total_amount,
{
    let duration = s.end_time - s.start_time;
    let elapsed_raw = now - s.start_time;
    let elapsed: int = if elapsed_raw < 0 {
        0
    } else if elapsed_raw > duration {
        duration
    } else {
        elapsed_raw
    };
    let total = s.total_amount as int;
    lemma_mul_nonnegative(total, elapsed);
    lemma_div_pos_is_pos(total * elapsed, duration);
    lemma_mul_inequality(elapsed, duration, total);
    lemma_mul_is_commutative(elapsed, total);
    lemma_mul_is_commutative(duration, total);
    lemma_div_is_ordered(total * elapsed, total * duration, duration);
    lemma_div_by_multiple(total, duration);
}

/// The full behaviour of `TokenInfo::release_vested` on one holder record at
/// time `now`: the result reported and the record afterwards.
pub open spec fn spec_release_vested(h: TokenHolder, now: i64) -> (Result<(), TokenError>, TokenHolder)
    recommends
        holder_wf(h),
{
    match h.vesting_schedule {
        None => (Ok(()), h),
        Some(s) => {
            if now < s.cliff_time {
                (Ok(()), h)
            } else {
                let vested = vested_amount(s, now);
                let releasable = vested - s.released_amount;
                if releasable < 0 {
                    (Err(TokenError::InvalidVestingSchedule), h)
                } else if releasable == 0 {
                    (Ok(()), h)
                } else if h.locked_balance < releasable {
                    (Err(TokenError::InsufficientBalance), h)
                } else if h.balance + releasable > u64::MAX {
                    (Err(TokenError::SupplyExceeded), h)
                } else {
                    (
                        Ok(()),
                        TokenHolder {
                            owner: h.owner,
                            balance: (h.balance + releasable) as u64,
                            locked_balance: (h.locked_balance - releasable) as u64,
                            vesting_schedule: Some(
                                VestingSchedule {
                                    total_amount: s.total_amount,
                                    released_amount: (s.released_amount + releasable) as u64,
                                    start_time: s.start_time,
                                    end_time: s.end_time,
                                    cliff_time: s.cliff_time,
                                    interval: s.interval,
                                },
                            ),
                            last_transfer: h.last_transfer,
                        },
                    )
                }
            }
        },
    }
}

impl TokenInfo {
    /// Sets policy, metadata and authority, and zeroes the aggregates.
    /// Called exactly once per token definition; it never fails.
    pub fn initialize(
        &mut self,
        metadata: TokenMetadata,
        config: TokenConfig,
        distribution_rules: DistributionRules,
        permissions: TokenPermissions,
        authority: Pubkey,
    ) -> (res: Result<(), TokenError>)
        ensures
            res is Ok,
            final(self).metadata == metadata,
            final(self).config == config,
            final(self).distribution_rules == distribution_rules,
            final(self).permissions == permissions,
            final(self).authority == authority,
            final(self).total_supply == 0,
            final(self).holder_count == 0,
            final(self).mint == old(self).mint,
    {
        self.metadata = metadata;
        self.config = config;
        self.distribution_rules = distribution_rules;
        self.permissions = permissions;
        self.authority = authority;
        self.total_supply = 0;
        self.holder_count = 0;
        Ok(())
    }

    /// Mints `amount` new units into `to`.  Succeeds exactly when the policy
    /// allows minting, the cap (when set) is kept, and neither sum
    /// overflows; on success the supply and the balance move as a pair.
    pub fn mint(&mut self, amount: u64, to: &mut TokenHolder) -> (res: Result<(), TokenError>)
        ensures
            mint_post(*old(self), *old(to), *final(self), *final(to), res, amount),
    {
        if !self.config.is_mintable {
            return Err(TokenError::OperationNotPermitted);
        }
        if self.total_supply > u64::MAX - amount {
            return Err(TokenError::SupplyExceeded);
        }
        let new_supply: u64 = self.total_supply + amount;
        match self.config.max_supply {
            Some(cap) => {
                if new_supply > cap {
                    return Err(TokenError::SupplyExceeded);
                }
            },
            None => {},
        }
        if to.balance > u64::MAX - amount {
            return Err(TokenError::SupplyExceeded);
        }
        self.total_supply = new_supply;
        to.balance = to.balance + amount;
        Ok(())
    }

    /// Burns `amount` units out of `from`.  Succeeds exactly when the policy
    /// allows burning and both the holder balance and the aggregate supply
    /// cover the amount; on success both are reduced as a pair.
    pub fn burn(&mut self, amount: u64, from: &mut TokenHolder) -> (res: Result<(), TokenError>)
        ensures
            burn_post(*old(self), *old(from), *final(self), *final(from), res, amount),
    {
        if !self.config.is_burnable {
            return Err(TokenError::OperationNotPermitted);
        }
        if from.balance < amount {
            return Err(TokenError::InsufficientBalance);
        }
        if self.total_supply < amount {
            return Err(TokenError::InsufficientBalance);
        }
        self.total_supply = self.total_supply - amount;
        from.balance = from.balance - amount;
        Ok(())
    }

    /// Moves `amount` spendable units from `from` to `to` at time `now`.
    /// Succeeds exactly when the policy allows transfers, no time gate
    /// blocks the source, the source balance covers the amount and the
    /// destination balance does not overflow; on success the source is
    /// stamped with `now` as its last transfer time.
    pub fn transfer(
        &self,
        amount: u64,
        from: &mut TokenHolder,
        to: &mut TokenHolder,
        now: i64,
    ) -> (res: Result<(), TokenError>)
        ensures
            transfer_post(
                *self,
                *old(from),
                *old(to),
                *final(from),
                *final(to),
                res,
                amount,
                now,
            ),
    {
        if !self.config.is_transferable {
            return Err(TokenError::OperationNotPermitted);
        }
        match self.distribution_rules.transfer_lock {
            Some(lock_time) => {
                if now < lock_time {
                    return Err(TokenError::TransferLocked);
                }
            },
            None => {},
        }
        match self.distribution_rules.min_hold_period {
            Some(min_hold) => {
                let held: i128 = now as i128 - from.last_transfer as i128;
                if held < min_hold as i128 {
                    return Err(TokenError::TransferLocked);
                }
            },
            None => {},
        }
        if from.balance < amount {
            return Err(TokenError::InsufficientBalance);
        }
        if to.balance > u64::MAX - amount {
            return Err(TokenError::SupplyExceeded);
        }
        from.balance = from.balance - amount;
        to.balance = to.balance + amount;
        from.last_transfer = now;
        Ok(())
    }

    /// Installs `schedule` on `holder`, overwriting any prior schedule.
    /// Succeeds exactly when the schedule's duration is positive.
    pub fn update_vesting(&self, holder: &mut TokenHolder, schedule: VestingSchedule) -> (res:
        Result<(), TokenError>)
        ensures
            res is Ok <==> schedule.end_time > schedule.start_time,
            res is Ok ==> {
                &&& final(holder).vesting_schedule == Some(schedule)
                &&& final(holder).owner == old(holder).owner
                &&& final(holder).balance == old(holder).balance
                &&& final(holder).locked_balance == old(holder).locked_balance
                &&& final(holder).last_transfer == old(holder).last_transfer
            },
            res is Err ==> *final(holder) == *old(holder) && res == Err::<(), TokenError>(
                TokenError::InvalidVestingSchedule,
            ),
            holder_wf(*old(holder)) ==> holder_wf(*final(holder)),
    {
        if schedule.end_time <= schedule.start_time {
            return Err(TokenError::InvalidVestingSchedule);
        }
        holder.vesting_schedule = Some(schedule);
        Ok(())
    }

    /// Releases whatever has vested by `now` from the holder's locked
    /// balance into its spendable balance, a pair of moves applied together
    /// with the schedule's released tally; a no-op before the cliff or when
    /// nothing new has vested.
    pub fn release_vested(&self, holder: &mut TokenHolder, now: i64) -> (res: Result<
        (),
        TokenError,
    >)
        requires
            holder_wf(*old(holder)),
        ensures
            res == spec_release_vested(*old(holder), now).0,
            *final(holder) == spec_release_vested(*old(holder), now).1,
            holder_wf(*final(holder)),
    {
        let schedule_opt = holder.vesting_schedule;
        let s = match schedule_opt {
            None => {
                return Ok(());
            },
            Some(s) => s,
        };
        if now < s.cliff_time {
            return Ok(());
        }
        let duration: i128 = s.end_time as i128 - s.start_time as i128;
        let elapsed_raw: i128 = now as i128 - s.start_time as i128;
        let elapsed: i128 = if elapsed_raw < 0 {
            0
        } else if elapsed_raw > duration {
            duration
        } else {
            elapsed_raw
        };
        proof {
            lemma_vested_amount_bounds(s, now);
            assert((s.total_amount as int) * (elapsed as int) <= 0xFFFF_FFFF_FFFF_FFFF
                * 0xFFFF_FFFF_FFFF_FFFF) by (nonlinear_arith)
                requires
                    0 <= s.total_amount as int <= 0xFFFF_FFFF_FFFF_FFFF,
                    0 <= elapsed as int <= 0xFFFF_FFFF_FFFF_FFFF,
            ;
        }
        let vested_wide: u128 = (s.total_amount as u128) * (elapsed as u128) / (duration as u128);
        assert(vested_wide == vested_amount(s, now));
        let vested: u64 = vested_wide as u64;
        if vested < s.released_amount {
            return Err(TokenError::InvalidVestingSchedule);
        }
        let releasable: u64 = vested - s.released_amount;
        if releasable == 0 {
            return Ok(());
        }
        if holder.locked_balance < releasable {
            return Err(TokenError::InsufficientBalance);
        }
        if holder.balance > u64::MAX - releasable {
            return Err(TokenError::SupplyExceeded);
        }
        holder.locked_balance = holder.locked_balance - releasable;
        holder.balance = holder.balance + releasable;
        holder.vesting_schedule = Some(
            VestingSchedule {
                total_amount: s.total_amount,
                released_amount: s.released_amount + releasable,
                start_time: s.start_time,
                end_time: s.end_time,
                cliff_time: s.cliff_time,
                interval: s.interval,
            },
        );
        Ok(())
    }
}

} // verus!
