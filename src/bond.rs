use vstd::prelude::*;
use crate::error::StakingError;
use crate::vault::{vault_of, verify_vault, Address};

verus! {

/// Smallest bond, in lamports (one unit of the native currency).
pub const MINIMUM_STAKE: u64 = 1_000_000_000;

/// Seconds that must pass between an unstake request and its claim.
pub const UNSTAKE_COOLDOWN: i64 = 300;

/// Where a bond stands in its lifecycle.
#[derive(Clone, Copy, Debug, PartialEq, Eq, Structural)]
pub enum StakeStatus {
    Unstaked,
    Staked,
    Cooldown,
}

impl Default for StakeStatus {
    fn default() -> (r: StakeStatus)
        ensures
            r == StakeStatus::Unstaked,
    {
        StakeStatus::Unstaked
    }
}

/// A participant's bond.
#[derive(Clone, Copy, Debug, PartialEq, Eq, Structural)]
pub struct UserStake {
    /// Lamports held in the vault; 0 when unstaked.
    pub amount: u64,
    /// Ledger time of the latest stake.
    pub stake_time: i64,
    /// Ledger time of the unstake request; 0 outside the cooldown.
    pub cooldown_start: i64,
    pub status: StakeStatus,
}

/// A movement of lamports that the host must carry out for an operation to
/// take effect.
#[derive(Clone, Copy, Debug)]
pub struct Transfer {
    pub from: Address,
    pub to: Address,
    pub amount: u64,
}

impl UserStake {
    /// A bond holds lamports exactly when it is staked or cooling down, and
    /// carries a cooldown start only while cooling down.
    pub open spec fn wf(self) -> bool {
        &&& (self.amount > 0 <==> self.status != StakeStatus::Unstaked)
        &&& (self.status != StakeStatus::Cooldown ==> self.cooldown_start == 0)
    }
}

/// The bond of a participant who never staked.
pub open spec fn empty_stake() -> UserStake {
    UserStake { amount: 0, stake_time: 0, cooldown_start: 0, status: StakeStatus::Unstaked }
}

/// The outcome of staking `amount` at `now`; `vault_ok` says whether the
/// vault given is the participant's own.
pub open spec fn stake_outcome(s: UserStake, amount: u64, now: i64, vault_ok: bool) -> Result<
    UserStake,
    StakingError,
> {
    if amount < MINIMUM_STAKE {
        Err(StakingError::BelowMinimumStake)
    } else if s.status != StakeStatus::Unstaked {
        Err(StakingError::AlreadyStaked)
    } else if !vault_ok {
        Err(StakingError::InvalidVault)
    } else if s.amount + amount > u64::MAX {
        Err(StakingError::MathOverflow)
    } else {
        Ok(
            UserStake {
                amount: (s.amount + amount) as u64,
                stake_time: now,
                cooldown_start: 0,
                status: StakeStatus::Staked,
            },
        )
    }
}

/// The outcome of asking at `now` to unstake.
pub open spec fn start_unstake_outcome(s: UserStake, now: i64) -> Result<UserStake, StakingError> {
    if s.status != StakeStatus::Staked {
        Err(StakingError::NotStaked)
    } else {
        Ok(UserStake { status: StakeStatus::Cooldown, cooldown_start: now, ..s })
    }
}

/// The first time at which a bond that began cooling down at `start` can be
/// claimed.
pub open spec fn cooldown_deadline(start: i64) -> int {
    start + UNSTAKE_COOLDOWN
}

/// The outcome of claiming the bond at `now`; `vault_ok` says whether the
/// vault given is the participant's own.
pub open spec fn claim_outcome(s: UserStake, now: i64, vault_ok: bool) -> Result<UserStake, StakingError> {
    if s.status != StakeStatus::Cooldown {
        Err(StakingError::NotInCooldown)
    } else if now < cooldown_deadline(s.cooldown_start) {
        Err(StakingError::CooldownNotElapsed)
    } else if !vault_ok {
        Err(StakingError::InvalidVault)
    } else {
        Ok(UserStake { amount: 0, cooldown_start: 0, status: StakeStatus::Unstaked, ..s })
    }
}

/// A new, empty bond: unstaked, with nothing in the vault.
pub fn initialize() -> (r: UserStake)
    ensures
        r == empty_stake(),
        r.wf(),
{
    UserStake { amount: 0, stake_time: 0, cooldown_start: 0, status: StakeStatus::Unstaked }
}

/// Opens the bond with `amount` lamports at time `now`, once the vault
/// given has been checked: `vault_ok` says whether it is the participant's
/// own.
pub fn apply_stake(user_stake: &mut UserStake, amount: u64, now: i64, vault_ok: bool) -> (r: Result<
    (),
    StakingError,
>)
    ensures
        match stake_outcome(*old(user_stake), amount, now, vault_ok) {
            Ok(n) => *final(user_stake) == n && r is Ok,
            Err(e) => *final(user_stake) == *old(user_stake) && r == Err::<(), _>(e),
        },
{
    if amount < MINIMUM_STAKE {
        return Err(StakingError::BelowMinimumStake);
    }
    if user_stake.status != StakeStatus::Unstaked {
        return Err(StakingError::AlreadyStaked);
    }
    if !vault_ok {
        return Err(StakingError::InvalidVault);
    }
    let total = match user_stake.amount.checked_add(amount) {
        Some(t) => t,
        None => {
            return Err(StakingError::MathOverflow);
        },
    };
    user_stake.amount = total;
    user_stake.stake_time = now;
    user_stake.cooldown_start = 0;
    user_stake.status = StakeStatus::Staked;
    Ok(())
}

/// Opens the bond of `user` with `amount` lamports at time `now`. On success
/// the host must move `amount` from `user` to `vault`.
pub fn stake(
    user_stake: &mut UserStake,
    user: &Address,
    vault: &Address,
    program_id: &Address,
    amount: u64,
    now: i64,
) -> (r: Result<Transfer, StakingError>)
    ensures
        match stake_outcome(
            *old(user_stake),
            amount,
            now,
            vault_of(user@, program_id@) == Some(vault@),
        ) {
            Ok(n) => *final(user_stake) == n && r == Ok::<Transfer, StakingError>(
                (Transfer { from: *user, to: *vault, amount }),
            ),
            Err(e) => *final(user_stake) == *old(user_stake) && r == Err::<Transfer, _>(e),
        },
{
    let vault_ok = verify_vault(user, vault, program_id);
    match apply_stake(user_stake, amount, now, vault_ok) {
        Ok(()) => Ok(Transfer { from: *user, to: *vault, amount }),
        Err(e) => Err(e),
    }
}

/// Asks at time `now` to withdraw the bond; the cooldown starts. No funds
/// move.
pub fn start_unstake(user_stake: &mut UserStake, now: i64) -> (r: Result<(), StakingError>)
    ensures
        match start_unstake_outcome(*old(user_stake), now) {
            Ok(n) => *final(user_stake) == n && r is Ok,
            Err(e) => *final(user_stake) == *old(user_stake) && r == Err::<(), _>(e),
        },
{
    if user_stake.status != StakeStatus::Staked {
        return Err(StakingError::NotStaked);
    }
    user_stake.status = StakeStatus::Cooldown;
    user_stake.cooldown_start = now;
    Ok(())
}

/// Claims the bond at time `now` once the cooldown has run out and the
/// vault given has been checked: `vault_ok` says whether it is the
/// participant's own. On success, returns the amount released.
pub fn apply_claim(user_stake: &mut UserStake, now: i64, vault_ok: bool) -> (r: Result<
    u64,
    StakingError,
>)
    ensures
        match claim_outcome(*old(user_stake), now, vault_ok) {
            Ok(n) => *final(user_stake) == n && r == Ok::<u64, StakingError>(old(user_stake).amount),
            Err(e) => *final(user_stake) == *old(user_stake) && r == Err::<u64, _>(e),
        },
{
    if user_stake.status != StakeStatus::Cooldown {
        return Err(StakingError::NotInCooldown);
    }
    if (now as i128) < (user_stake.cooldown_start as i128) + (UNSTAKE_COOLDOWN as i128) {
        return Err(StakingError::CooldownNotElapsed);
    }
    if !vault_ok {
        return Err(StakingError::InvalidVault);
    }
    let released = user_stake.amount;
    user_stake.amount = 0;
    user_stake.status = StakeStatus::Unstaked;
    user_stake.cooldown_start = 0;
    Ok(released)
}

/// Claims the bond of `user` at time `now` once the cooldown has run out. On
/// success the host must move the whole bond from `vault` back to `user`.
pub fn claim_unstake(
    user_stake: &mut UserStake,
    user: &Address,
    vault: &Address,
    program_id: &Address,
    now: i64,
) -> (r: Result<Transfer, StakingError>)
    ensures
        match claim_outcome(*old(user_stake), now, vault_of(user@, program_id@) == Some(vault@)) {
            Ok(n) => *final(user_stake) == n && r == Ok::<Transfer, StakingError>(
                (Transfer { from: *vault, to: *user, amount: old(user_stake).amount }),
            ),
            Err(e) => *final(user_stake) == *old(user_stake) && r == Err::<Transfer, _>(e),
        },
{
    let vault_ok = verify_vault(user, vault, program_id);
    match apply_claim(user_stake, now, vault_ok) {
        Ok(amount) => Ok(Transfer { from: *vault, to: *user, amount }),
        Err(e) => Err(e),
    }
}

/// Every successful transition of a well-formed bond yields a well-formed
/// bond.
pub proof fn lemma_transitions_keep_wf(s: UserStake, amount: u64, now: i64, vault_ok: bool)
    requires
        s.wf(),
    ensures
        stake_outcome(s, amount, now, vault_ok) matches Ok(n) ==> n.wf(),
        start_unstake_outcome(s, now) matches Ok(n) ==> n.wf(),
        claim_outcome(s, now, vault_ok) matches Ok(n) ==> n.wf(),
{
}

/// Staking at least the minimum into an unstaked bond, with the right vault,
/// makes the bond staked and holding exactly that amount.
pub proof fn lemma_stake_opens_bond(s: UserStake, amount: u64, now: i64)
    requires
        s.wf(),
        s.status == StakeStatus::Unstaked,
        amount >= MINIMUM_STAKE,
    ensures
        stake_outcome(s, amount, now, true) == Ok::<UserStake, StakingError>(
            (UserStake { amount, stake_time: now, cooldown_start: 0, status: StakeStatus::Staked }),
        ),
{
}

/// Staking less than the minimum always fails with `BelowMinimumStake`
/// (and `stake` then leaves the bond as it was).
pub proof fn lemma_stake_below_minimum(s: UserStake, amount: u64, now: i64, vault_ok: bool)
    requires
        amount < MINIMUM_STAKE,
    ensures
        stake_outcome(s, amount, now, vault_ok) == Err::<UserStake, StakingError>(
            StakingError::BelowMinimumStake,
        ),
{
}

/// A stake whose sum with the amount already held would not fit in a `u64`
/// fails with `MathOverflow` once the earlier checks pass (and `stake` then
/// leaves the bond as it was).
pub proof fn lemma_stake_overflow(s: UserStake, amount: u64, now: i64)
    requires
        amount >= MINIMUM_STAKE,
        s.status == StakeStatus::Unstaked,
        s.amount + amount > u64::MAX,
    ensures
        stake_outcome(s, amount, now, true) == Err::<UserStake, StakingError>(
            StakingError::MathOverflow,
        ),
{
}

/// A claim before the cooldown deadline always fails with
/// `CooldownNotElapsed` (and `claim_unstake` then leaves the bond, its amount
/// included, as it was).
pub proof fn lemma_claim_before_deadline(s: UserStake, now: i64, vault_ok: bool)
    requires
        s.status == StakeStatus::Cooldown,
        now < cooldown_deadline(s.cooldown_start),
    ensures
        claim_outcome(s, now, vault_ok) == Err::<UserStake, StakingError>(
            StakingError::CooldownNotElapsed,
        ),
{
}

/// A claim at or after the cooldown deadline, with the right vault,
/// succeeds: the bond is emptied and unstaked. Any further claim then fails
/// with `NotInCooldown`, so it succeeds only once.
pub proof fn lemma_claim_succeeds_once(s: UserStake, now: i64, later: i64, vault_ok: bool)
    requires
        s.wf(),
        s.status == StakeStatus::Cooldown,
        now >= cooldown_deadline(s.cooldown_start),
    ensures
        claim_outcome(s, now, true) matches Ok(n) && n.amount == 0 && n.status
            == StakeStatus::Unstaked && n.wf() && claim_outcome(n, later, vault_ok)
            == Err::<UserStake, StakingError>(StakingError::NotInCooldown),
{
}

} // verus!
