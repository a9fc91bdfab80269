use vstd::prelude::*;

verus! {

/// Why an operation was refused. A refused operation changes nothing.
#[derive(Clone, Copy, Debug, PartialEq, Eq, Structural)]
pub enum StakingError {
    /// The amount offered is below the minimum bond.
    BelowMinimumStake,
    /// The bond is not in the unstaked state, so it cannot be opened again.
    AlreadyStaked,
    /// The bond is not staked, so no unstake can be requested.
    NotStaked,
    /// No unstake was requested, so there is nothing to claim.
    NotInCooldown,
    /// The cooldown after the unstake request has not run out yet.
    CooldownNotElapsed,
    /// The vault given is not the one derived for the participant.
    InvalidVault,
    /// An accumulator or a timestamp would leave its integer range.
    MathOverflow,
    /// The creator's bond is too small to open a proposal.
    InsufficientStake,
    /// The voting window of the proposal has closed.
    VotingPeriodEnded,
    /// The voting window of the proposal is still open.
    VotingPeriodNotEnded,
    /// The voter already holds a vote record for this proposal.
    AlreadyVoted,
    /// The proposal was already finalized.
    ProposalNotActive,
}

} // verus!
