use staking_voting::bond::{MINIMUM_STAKE, UNSTAKE_COOLDOWN};
use staking_voting::{
    apply_claim, apply_stake, claim_unstake, derive_vault, initialize, stake, start_unstake, StakeStatus, StakingError,
    UserStake,
};

const PROGRAM: [u8; 32] = [7u8; 32];
const USER: [u8; 32] = [42u8; 32];

fn vault() -> [u8; 32] {
    derive_vault(&USER, &PROGRAM).expect("a vault address exists")
}

fn staked(amount: u64, now: i64) -> UserStake {
    let mut s = initialize();
    stake(&mut s, &USER, &vault(), &PROGRAM, amount, now).expect("stake succeeds");
    s
}

#[test]
fn new_bond_is_empty_and_unstaked() {
    let s = initialize();
    assert_eq!(s.amount, 0);
    assert_eq!(s.stake_time, 0);
    assert_eq!(s.cooldown_start, 0);
    assert_eq!(s.status, StakeStatus::Unstaked);
    assert_eq!(StakeStatus::default(), StakeStatus::Unstaked);
}

#[test]
fn stake_from_unstaked_sets_amount_and_status() {
    for a in [MINIMUM_STAKE, MINIMUM_STAKE + 1, 3 * MINIMUM_STAKE, u64::MAX] {
        let mut s = initialize();
        let t = stake(&mut s, &USER, &vault(), &PROGRAM, a, 1_000).unwrap();
        assert_eq!(s.amount, a);
        assert_eq!(s.status, StakeStatus::Staked);
        assert_eq!(s.stake_time, 1_000);
        assert_eq!(t.from, USER);
        assert_eq!(t.to, vault());
        assert_eq!(t.amount, a);
    }
}

#[test]
fn stake_below_minimum_fails_and_changes_nothing() {
    for a in [0, 1, MINIMUM_STAKE - 1] {
        let mut s = initialize();
        let before = s;
        let r = stake(&mut s, &USER, &vault(), &PROGRAM, a, 5);
        assert_eq!(r.unwrap_err(), StakingError::BelowMinimumStake);
        assert_eq!(s, before);
    }
}

#[test]
fn stake_twice_fails_with_already_staked() {
    let mut s = staked(MINIMUM_STAKE, 1);
    let before = s;
    let r = stake(&mut s, &USER, &vault(), &PROGRAM, MINIMUM_STAKE, 2);
    assert_eq!(r.unwrap_err(), StakingError::AlreadyStaked);
    assert_eq!(s, before);
}

#[test]
fn stake_into_wrong_vault_fails() {
    let mut s = initialize();
    let r = stake(&mut s, &USER, &[9u8; 32], &PROGRAM, MINIMUM_STAKE, 2);
    assert_eq!(r.unwrap_err(), StakingError::InvalidVault);
    assert_eq!(s, initialize());
}

#[test]
fn stake_overflow_fails_and_keeps_amount() {
    let mut s = UserStake {
        amount: u64::MAX - 1,
        stake_time: 0,
        cooldown_start: 0,
        status: StakeStatus::Unstaked,
    };
    let r = stake(&mut s, &USER, &vault(), &PROGRAM, MINIMUM_STAKE, 2);
    assert_eq!(r.unwrap_err(), StakingError::MathOverflow);
    assert_eq!(s.amount, u64::MAX - 1);
}

#[test]
fn start_unstake_requires_staked() {
    let mut s = initialize();
    assert_eq!(start_unstake(&mut s, 10).unwrap_err(), StakingError::NotStaked);
    let mut s = staked(MINIMUM_STAKE, 1);
    start_unstake(&mut s, 10).unwrap();
    assert_eq!(s.status, StakeStatus::Cooldown);
    assert_eq!(s.cooldown_start, 10);
    assert_eq!(s.amount, MINIMUM_STAKE);
    assert_eq!(start_unstake(&mut s, 11).unwrap_err(), StakingError::NotStaked);
}

#[test]
fn claim_without_request_fails() {
    let mut s = staked(MINIMUM_STAKE, 1);
    let r = claim_unstake(&mut s, &USER, &vault(), &PROGRAM, 1_000_000);
    assert_eq!(r.unwrap_err(), StakingError::NotInCooldown);
    assert_eq!(s.amount, MINIMUM_STAKE);
}

#[test]
fn claim_before_deadline_keeps_amount() {
    let mut s = staked(MINIMUM_STAKE, 1);
    start_unstake(&mut s, 100).unwrap();
    for now in [100, 101, 100 + UNSTAKE_COOLDOWN - 1] {
        let r = claim_unstake(&mut s, &USER, &vault(), &PROGRAM, now);
        assert_eq!(r.unwrap_err(), StakingError::CooldownNotElapsed);
        assert_eq!(s.amount, MINIMUM_STAKE);
        assert_eq!(s.status, StakeStatus::Cooldown);
    }
}

#[test]
fn claim_into_wrong_vault_fails() {
    let mut s = staked(MINIMUM_STAKE, 1);
    start_unstake(&mut s, 100).unwrap();
    let r = claim_unstake(&mut s, &USER, &[9u8; 32], &PROGRAM, 100 + UNSTAKE_COOLDOWN);
    assert_eq!(r.unwrap_err(), StakingError::InvalidVault);
    assert_eq!(s.amount, MINIMUM_STAKE);
}

#[test]
fn claim_after_deadline_succeeds_once() {
    let mut s = staked(4 * MINIMUM_STAKE, 1);
    start_unstake(&mut s, 100).unwrap();
    let t = claim_unstake(&mut s, &USER, &vault(), &PROGRAM, 100 + UNSTAKE_COOLDOWN + 50).unwrap();
    assert_eq!(t.amount, 4 * MINIMUM_STAKE);
    assert_eq!(t.from, vault());
    assert_eq!(t.to, USER);
    assert_eq!(s.amount, 0);
    assert_eq!(s.cooldown_start, 0);
    assert_eq!(s.status, StakeStatus::Unstaked);
    let again = claim_unstake(&mut s, &USER, &vault(), &PROGRAM, 100 + UNSTAKE_COOLDOWN + 60);
    assert_eq!(again.unwrap_err(), StakingError::NotInCooldown);
}

#[test]
fn claim_with_cooldown_start_near_max_time_is_not_elapsed() {
    let mut s = UserStake {
        amount: MINIMUM_STAKE,
        stake_time: 0,
        cooldown_start: i64::MAX - 10,
        status: StakeStatus::Cooldown,
    };
    let r = claim_unstake(&mut s, &USER, &vault(), &PROGRAM, i64::MAX);
    assert_eq!(r.unwrap_err(), StakingError::CooldownNotElapsed);
}

#[test]
fn stake_unstake_claim_end_to_end() {
    let t0: i64 = 1_700_000_000;
    let mut s = initialize();
    stake(&mut s, &USER, &vault(), &PROGRAM, 2 * MINIMUM_STAKE, t0 - 10).unwrap();
    start_unstake(&mut s, t0).unwrap();
    let early = claim_unstake(&mut s, &USER, &vault(), &PROGRAM, t0 + UNSTAKE_COOLDOWN - 1);
    assert_eq!(early.unwrap_err(), StakingError::CooldownNotElapsed);
    assert_eq!(s.amount, 2 * MINIMUM_STAKE);
    let t = claim_unstake(&mut s, &USER, &vault(), &PROGRAM, t0 + UNSTAKE_COOLDOWN).unwrap();
    assert_eq!(t.amount, 2 * MINIMUM_STAKE);
    assert_eq!(s.amount, 0);
    assert_eq!(s.status, StakeStatus::Unstaked);
    stake(&mut s, &USER, &vault(), &PROGRAM, MINIMUM_STAKE, t0 + 1_000).unwrap();
    assert_eq!(s.amount, MINIMUM_STAKE);
}

#[test]
fn apply_stake_checks_in_order() {
    let mut s = initialize();
    assert_eq!(apply_stake(&mut s, MINIMUM_STAKE - 1, 1, false).unwrap_err(), StakingError::BelowMinimumStake);
    assert_eq!(apply_stake(&mut s, MINIMUM_STAKE, 1, false).unwrap_err(), StakingError::InvalidVault);
    assert_eq!(s, initialize());
    apply_stake(&mut s, 2 * MINIMUM_STAKE, 9, true).unwrap();
    assert_eq!(s.amount, 2 * MINIMUM_STAKE);
    assert_eq!(s.stake_time, 9);
    assert_eq!(s.status, StakeStatus::Staked);
    assert_eq!(apply_stake(&mut s, MINIMUM_STAKE, 10, false).unwrap_err(), StakingError::AlreadyStaked);
}

#[test]
fn apply_claim_releases_whole_bond() {
    let mut s = UserStake {
        amount: 6 * MINIMUM_STAKE,
        stake_time: 3,
        cooldown_start: 1_000,
        status: StakeStatus::Cooldown,
    };
    assert_eq!(apply_claim(&mut s, 1_000 + UNSTAKE_COOLDOWN - 1, true).unwrap_err(), StakingError::CooldownNotElapsed);
    assert_eq!(apply_claim(&mut s, 1_000 + UNSTAKE_COOLDOWN, false).unwrap_err(), StakingError::InvalidVault);
    assert_eq!(s.amount, 6 * MINIMUM_STAKE);
    assert_eq!(apply_claim(&mut s, 1_000 + UNSTAKE_COOLDOWN, true).unwrap(), 6 * MINIMUM_STAKE);
    assert_eq!(s.amount, 0);
    assert_eq!(s.stake_time, 3);
    assert_eq!(s.status, StakeStatus::Unstaked);
    assert_eq!(apply_claim(&mut s, 1_000 + UNSTAKE_COOLDOWN, true).unwrap_err(), StakingError::NotInCooldown);
}
