use neplus::token_standards::{
    DistributionRules, TokenConfig, TokenError, TokenHolder, TokenInfo, TokenMetadata,
    TokenPermissions, TokenType, VestingSchedule,
};
use neplus::Pubkey;

fn key(id: u64) -> Pubkey {
    Pubkey { id }
}

fn ledger() -> TokenInfo {
    TokenInfo {
        mint: key(100),
        metadata: TokenMetadata {
            name: "Vested".to_string(),
            symbol: "VST".to_string(),
            uri: "ipfs://vested".to_string(),
            decimals: 0,
            token_type: TokenType::GovernanceToken,
            creator: key(9),
            is_frozen: false,
            created_at: 0,
        },
        config: TokenConfig {
            initial_supply: 0,
            max_supply: None,
            is_mintable: true,
            is_burnable: true,
            is_transferable: true,
            requires_auth: false,
        },
        distribution_rules: DistributionRules {
            vesting_period: Some(1200),
            cliff_period: Some(300),
            transfer_lock: None,
            min_hold_period: None,
        },
        permissions: TokenPermissions {
            can_mint: true,
            can_burn: true,
            can_freeze: false,
            can_modify_metadata: false,
        },
        total_supply: 1200,
        holder_count: 1,
        authority: key(50),
    }
}

fn schedule() -> VestingSchedule {
    VestingSchedule {
        total_amount: 1200,
        released_amount: 0,
        start_time: 0,
        end_time: 1200,
        cliff_time: 300,
        interval: 100,
    }
}

fn vested_holder() -> TokenHolder {
    TokenHolder {
        owner: key(1),
        balance: 0,
        locked_balance: 1200,
        vesting_schedule: Some(schedule()),
        last_transfer: 0,
    }
}

#[test]
fn update_vesting_installs_schedule() {
    let info = ledger();
    let mut h = TokenHolder {
        owner: key(1),
        balance: 0,
        locked_balance: 1200,
        vesting_schedule: None,
        last_transfer: 0,
    };
    assert_eq!(info.update_vesting(&mut h, schedule()), Ok(()));
    assert_eq!(h.vesting_schedule, Some(schedule()));
}

#[test]
fn update_vesting_rejects_empty_duration() {
    let info = ledger();
    let mut h = vested_holder();
    let mut bad = schedule();
    bad.start_time = 1200;
    bad.end_time = 1200;
    assert_eq!(info.update_vesting(&mut h, bad), Err(TokenError::InvalidVestingSchedule));
    assert_eq!(h.vesting_schedule, Some(schedule()));
    bad.end_time = 1100;
    assert_eq!(info.update_vesting(&mut h, bad), Err(TokenError::InvalidVestingSchedule));
}

#[test]
fn release_before_cliff_is_noop() {
    let info = ledger();
    let mut h = vested_holder();
    assert_eq!(info.release_vested(&mut h, 100), Ok(()));
    assert_eq!(h.balance, 0);
    assert_eq!(h.locked_balance, 1200);
    assert_eq!(h.vesting_schedule.unwrap().released_amount, 0);
}

#[test]
fn release_at_midpoint_moves_half() {
    let info = ledger();
    let mut h = vested_holder();
    assert_eq!(info.release_vested(&mut h, 600), Ok(()));
    assert_eq!(h.balance, 600);
    assert_eq!(h.locked_balance, 600);
    assert_eq!(h.vesting_schedule.unwrap().released_amount, 600);
}

#[test]
fn release_is_incremental_across_calls() {
    let info = ledger();
    let mut h = vested_holder();
    assert_eq!(info.release_vested(&mut h, 600), Ok(()));
    assert_eq!(info.release_vested(&mut h, 900), Ok(()));
    assert_eq!(h.balance, 900);
    assert_eq!(h.locked_balance, 300);
    assert_eq!(h.vesting_schedule.unwrap().released_amount, 900);
}

#[test]
fn release_after_end_clamps_to_total() {
    let info = ledger();
    let mut h = vested_holder();
    assert_eq!(info.release_vested(&mut h, 10_000), Ok(()));
    assert_eq!(h.balance, 1200);
    assert_eq!(h.locked_balance, 0);
    assert_eq!(h.vesting_schedule.unwrap().released_amount, 1200);
}

#[test]
fn release_with_no_schedule_is_noop() {
    let info = ledger();
    let mut h = TokenHolder {
        owner: key(1),
        balance: 5,
        locked_balance: 7,
        vesting_schedule: None,
        last_transfer: 0,
    };
    assert_eq!(info.release_vested(&mut h, 600), Ok(()));
    assert_eq!(h.balance, 5);
    assert_eq!(h.locked_balance, 7);
}

#[test]
fn release_with_nothing_new_vested_is_noop() {
    let info = ledger();
    let mut h = vested_holder();
    assert_eq!(info.release_vested(&mut h, 600), Ok(()));
    assert_eq!(info.release_vested(&mut h, 600), Ok(()));
    assert_eq!(h.balance, 600);
    assert_eq!(h.locked_balance, 600);
}

#[test]
fn release_with_overstated_released_amount_fails() {
    let info = ledger();
    let mut h = vested_holder();
    let mut s = schedule();
    s.released_amount = 700;
    h.vesting_schedule = Some(s);
    assert_eq!(info.release_vested(&mut h, 600), Err(TokenError::InvalidVestingSchedule));
    assert_eq!(h.balance, 0);
    assert_eq!(h.locked_balance, 1200);
}

#[test]
fn release_exceeding_locked_balance_fails() {
    let info = ledger();
    let mut h = vested_holder();
    h.locked_balance = 100;
    assert_eq!(info.release_vested(&mut h, 600), Err(TokenError::InsufficientBalance));
    assert_eq!(h.balance, 0);
    assert_eq!(h.locked_balance, 100);
}

#[test]
fn release_overflowing_spendable_balance_fails() {
    let info = ledger();
    let mut h = vested_holder();
    h.balance = u64::MAX;
    assert_eq!(info.release_vested(&mut h, 600), Err(TokenError::SupplyExceeded));
    assert_eq!(h.balance, u64::MAX);
    assert_eq!(h.locked_balance, 1200);
}

#[test]
fn release_floors_partial_units() {
    let info = ledger();
    let mut h = vested_holder();
    let s = VestingSchedule {
        total_amount: 10,
        released_amount: 0,
        start_time: 0,
        end_time: 1200,
        cliff_time: 0,
        interval: 100,
    };
    h.vesting_schedule = Some(s);
    h.locked_balance = 10;
    // 10 * 700 / 1200 floors to 5.
    assert_eq!(info.release_vested(&mut h, 700), Ok(()));
    assert_eq!(h.balance, 5);
    assert_eq!(h.locked_balance, 5);
}
