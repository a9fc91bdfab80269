use vstd::prelude::*;
use crate::bond::{UserStake, MINIMUM_STAKE};
use crate::error::StakingError;
use crate::vault::{same_address, Address};

verus! {

/// Seconds that a proposal stays open for votes: three days.
pub const VOTING_PERIOD: i64 = 259_200;

/// Whether a proposal still takes votes.
#[derive(Clone, Copy, Debug, PartialEq, Eq, Structural)]
pub enum ProposalStatus {
    Active,
    Finalized,
}

/// The side a vote is cast on.
#[derive(Clone, Copy, Debug, PartialEq, Eq, Structural)]
pub enum VoteChoice {
    Yes,
    No,
}

/// A governance proposal and its running tally.
#[derive(Clone, Debug)]
pub struct Proposal {
    pub creator: Address,
    /// Where the proposal's text lives; not read by the engine.
    pub metadata_uri: String,
    pub start_time: i64,
    pub end_time: i64,
    pub yes_votes: u64,
    pub no_votes: u64,
    pub status: ProposalStatus,
}

/// The receipt of one voter's vote on one proposal.
#[derive(Clone, Copy, Debug)]
pub struct VoteRecord {
    pub voter: Address,
    /// The address of the proposal voted on.
    pub proposal: Address,
    pub vote_choice: VoteChoice,
    /// The voter's bond at the time of the vote.
    pub vote_weight: u64,
}

/// A proposal, stored at `address`, with the vote records made on it.
#[derive(Clone, Debug)]
pub struct Ballot {
    pub address: Address,
    pub proposal: Proposal,
    pub records: Vec<VoteRecord>,
}

/// The weight of the records cast on `choice`.
pub open spec fn weight_for(records: Seq<VoteRecord>, choice: VoteChoice) -> int
    decreases records.len(),
{
    if records.len() == 0 {
        0
    } else {
        weight_for(records.drop_last(), choice) + if records.last().vote_choice == choice {
            records.last().vote_weight as int
        } else {
            0
        }
    }
}

/// The weight of all the records.
pub open spec fn total_weight(records: Seq<VoteRecord>) -> int
    decreases records.len(),
{
    if records.len() == 0 {
        0
    } else {
        total_weight(records.drop_last()) + records.last().vote_weight
    }
}

/// Whether `voter` holds a record among `records`.
pub open spec fn has_voted(records: Seq<VoteRecord>, voter: Seq<u8>) -> bool {
    exists|i: int| 0 <= i < records.len() && (#[trigger] records[i]).voter@ == voter
}

/// No voter holds two records.
pub open spec fn voters_unique(records: Seq<VoteRecord>) -> bool {
    forall|i: int, j: int|
        0 <= i < records.len() && 0 <= j < records.len() && i != j ==> (#[trigger] records[i]).voter@
            != (#[trigger] records[j]).voter@
}

impl Ballot {
    /// The window is not empty, every record refers to this proposal, no
    /// voter holds two, and the tallies are the sums of the records' weights.
    pub open spec fn wf(&self) -> bool {
        &&& self.proposal.start_time < self.proposal.end_time
        &&& forall|i: int|
            0 <= i < self.records@.len() ==> (#[trigger] self.records@[i]).proposal == self.address
        &&& voters_unique(self.records@)
        &&& self.proposal.yes_votes == weight_for(self.records@, VoteChoice::Yes)
        &&& self.proposal.no_votes == weight_for(self.records@, VoteChoice::No)
    }
}

/// The tally of `choice` in `p`.
pub open spec fn tally_of(p: Proposal, choice: VoteChoice) -> int {
    match choice {
        VoteChoice::Yes => p.yes_votes as int,
        VoteChoice::No => p.no_votes as int,
    }
}

/// Why a vote of `weight` by `voter` at `now` is refused, if it is.
pub open spec fn vote_error(
    p: Proposal,
    records: Seq<VoteRecord>,
    voter: Seq<u8>,
    choice: VoteChoice,
    weight: u64,
    now: i64,
) -> Option<StakingError> {
    if now > p.end_time {
        Some(StakingError::VotingPeriodEnded)
    } else if p.status != ProposalStatus::Active {
        Some(StakingError::ProposalNotActive)
    } else if has_voted(records, voter) {
        Some(StakingError::AlreadyVoted)
    } else if tally_of(p, choice) + weight > u64::MAX {
        Some(StakingError::MathOverflow)
    } else {
        None
    }
}

/// Why finalizing `p` at `now` is refused, if it is.
pub open spec fn finalize_error(p: Proposal, now: i64) -> Option<StakingError> {
    if now < p.end_time {
        Some(StakingError::VotingPeriodNotEnded)
    } else if p.status != ProposalStatus::Active {
        Some(StakingError::ProposalNotActive)
    } else {
        None
    }
}

proof fn lemma_weight_push(records: Seq<VoteRecord>, r: VoteRecord, choice: VoteChoice)
    ensures
        weight_for(records.push(r), choice) == weight_for(records, choice) + if r.vote_choice
            == choice {
            r.vote_weight as int
        } else {
            0
        },
        total_weight(records.push(r)) == total_weight(records) + r.vote_weight,
{
    assert(records.push(r).drop_last() =~= records);
}

/// Opens, at `now`, a proposal stored at `address` by `creator`, whose bond
/// is `creator_stake`. It takes votes until `now + VOTING_PERIOD`.
pub fn initialize_proposal(
    address: &Address,
    creator: &Address,
    creator_stake: &UserStake,
    metadata_uri: String,
    now: i64,
) -> (r: Result<Ballot, StakingError>)
    ensures
        match r {
            Ok(b) => creator_stake.amount >= MINIMUM_STAKE && now + VOTING_PERIOD <= i64::MAX
                && b.wf() && b.address == *address && b.proposal.creator == *creator
                && b.proposal.metadata_uri == metadata_uri && b.proposal.start_time == now
                && b.proposal.end_time == now + VOTING_PERIOD && b.proposal.yes_votes == 0
                && b.proposal.no_votes == 0 && b.proposal.status == ProposalStatus::Active
                && b.records@.len() == 0,
            Err(e) => if creator_stake.amount < MINIMUM_STAKE {
                e == StakingError::InsufficientStake
            } else {
                now + VOTING_PERIOD > i64::MAX && e == StakingError::MathOverflow
            },
        },
{
    if creator_stake.amount < MINIMUM_STAKE {
        return Err(StakingError::InsufficientStake);
    }
    let end_time = match now.checked_add(VOTING_PERIOD) {
        Some(t) => t,
        None => {
            return Err(StakingError::MathOverflow);
        },
    };
    let proposal = Proposal {
        creator: *creator,
        metadata_uri,
        start_time: now,
        end_time,
        yes_votes: 0,
        no_votes: 0,
        status: ProposalStatus::Active,
    };
    let ballot = Ballot { address: *address, proposal, records: Vec::new() };
    assert(ballot.records@ =~= Seq::<VoteRecord>::empty());
    Ok(ballot)
}

/// Whether `voter` already holds a record in `ballot`.
pub fn find_vote(ballot: &Ballot, voter: &Address) -> (r: bool)
    ensures
        r == has_voted(ballot.records@, voter@),
{
    let mut i: usize = 0;
    while i < ballot.records.len()
        invariant
            i <= ballot.records@.len(),
            forall|j: int| 0 <= j < i ==> (#[trigger] ballot.records@[j]).voter@ != voter@,
        decreases ballot.records@.len() - i,
    {
        if same_address(&ballot.records[i].voter, voter) {
            assert(ballot.records@[i as int].voter@ == voter@);
            return true;
        }
        i = i + 1;
    }
    false
}

/// Casts, at `now`, the vote of `voter`, whose bond is `voter_stake`: its
/// weight is the amount staked at this moment. A voter votes once on a
/// proposal.
pub fn cast_vote(
    ballot: &mut Ballot,
    voter: &Address,
    voter_stake: &UserStake,
    vote_choice: VoteChoice,
    now: i64,
) -> (r: Result<(), StakingError>)
    requires
        old(ballot).wf(),
    ensures
        final(ballot).wf(),
        match vote_error(
            old(ballot).proposal,
            old(ballot).records@,
            voter@,
            vote_choice,
            voter_stake.amount,
            now,
        ) {
            Some(e) => r == Err::<(), StakingError>(e) && *final(ballot) == *old(ballot),
            None => r is Ok && final(ballot).records@ == old(ballot).records@.push(
                (VoteRecord {
                    voter: *voter,
                    proposal: old(ballot).address,
                    vote_choice,
                    vote_weight: voter_stake.amount,
                }),
            ) && tally_of(final(ballot).proposal, vote_choice) == tally_of(
                old(ballot).proposal,
                vote_choice,
            ) + voter_stake.amount && final(ballot).address == old(ballot).address
                && final(ballot).proposal == (Proposal {
                yes_votes: final(ballot).proposal.yes_votes,
                no_votes: final(ballot).proposal.no_votes,
                ..old(ballot).proposal
            }),
        },
{
    if now > ballot.proposal.end_time {
        return Err(StakingError::VotingPeriodEnded);
    }
    if ballot.proposal.status != ProposalStatus::Active {
        return Err(StakingError::ProposalNotActive);
    }
    if find_vote(ballot, voter) {
        return Err(StakingError::AlreadyVoted);
    }
    let weight = voter_stake.amount;
    let record = VoteRecord {
        voter: *voter,
        proposal: ballot.address,
        vote_choice,
        vote_weight: weight,
    };
    proof {
        lemma_weight_push(ballot.records@, record, VoteChoice::Yes);
        lemma_weight_push(ballot.records@, record, VoteChoice::No);
    }
    match vote_choice {
        VoteChoice::Yes => {
            match ballot.proposal.yes_votes.checked_add(weight) {
                Some(t) => {
                    ballot.proposal.yes_votes = t;
                },
                None => {
                    return Err(StakingError::MathOverflow);
                },
            }
        },
        VoteChoice::No => {
            match ballot.proposal.no_votes.checked_add(weight) {
                Some(t) => {
                    ballot.proposal.no_votes = t;
                },
                None => {
                    return Err(StakingError::MathOverflow);
                },
            }
        },
    }
    ballot.records.push(record);
    Ok(())
}

/// Closes the proposal at `now`, once its window has ended. The tallies are
/// left as they are.
pub fn finalize_proposal(ballot: &mut Ballot, now: i64) -> (r: Result<(), StakingError>)
    requires
        old(ballot).wf(),
    ensures
        final(ballot).wf(),
        match finalize_error(old(ballot).proposal, now) {
            Some(e) => r == Err::<(), StakingError>(e) && *final(ballot) == *old(ballot),
            None => r is Ok && final(ballot).address == old(ballot).address
                && final(ballot).records@ == old(ballot).records@ && final(ballot).proposal
                == (Proposal { status: ProposalStatus::Finalized, ..old(ballot).proposal }),
        },
{
    if now < ballot.proposal.end_time {
        return Err(StakingError::VotingPeriodNotEnded);
    }
    if ballot.proposal.status != ProposalStatus::Active {
        return Err(StakingError::ProposalNotActive);
    }
    ballot.proposal.status = ProposalStatus::Finalized;
    Ok(())
}

proof fn lemma_weights_split(records: Seq<VoteRecord>)
    ensures
        weight_for(records, VoteChoice::Yes) + weight_for(records, VoteChoice::No) == total_weight(
            records,
        ),
    decreases records.len(),
{
    if records.len() > 0 {
        lemma_weights_split(records.drop_last());
    }
}

/// The yes and no tallies of a ballot add up to the weight of all its vote
/// records, whether or not the proposal was finalized.
pub proof fn lemma_tally_matches_records(b: Ballot)
    requires
        b.wf(),
    ensures
        b.proposal.yes_votes + b.proposal.no_votes == total_weight(b.records@),
{
    lemma_weights_split(b.records@);
}

/// A vote adds the voter's record. Once a voter holds a record, records
/// added later, by anyone, keep it, and every further vote of theirs is
/// refused: with `AlreadyVoted` while the proposal is open.
pub proof fn lemma_vote_once(
    p: Proposal,
    records: Seq<VoteRecord>,
    voter: Address,
    added: VoteRecord,
    choice: VoteChoice,
    weight: u64,
    now: i64,
)
    ensures
        has_voted(records.push((VoteRecord { voter, ..added })), voter@),
        has_voted(records, voter@) ==> has_voted(records.push(added), voter@),
        has_voted(records, voter@) ==> vote_error(p, records, voter@, choice, weight, now) is Some,
        has_voted(records, voter@) && now <= p.end_time && p.status == ProposalStatus::Active
            ==> vote_error(p, records, voter@, choice, weight, now) == Some(
            StakingError::AlreadyVoted,
        ),
{
    let v = VoteRecord { voter, ..added };
    assert(records.push(v)[records.len() as int] == v);
    if has_voted(records, voter@) {
        let i = choose|i: int| 0 <= i < records.len() && (#[trigger] records[i]).voter@ == voter@;
        assert(records.push(added)[i] == records[i]);
    }
}

/// A vote after the end of the window is refused with `VotingPeriodEnded`;
/// finalizing before it is refused with `VotingPeriodNotEnded`; finalizing an
/// open proposal exactly at its end succeeds.
pub proof fn lemma_voting_window(
    p: Proposal,
    records: Seq<VoteRecord>,
    voter: Seq<u8>,
    choice: VoteChoice,
    weight: u64,
    now: i64,
)
    ensures
        now > p.end_time ==> vote_error(p, records, voter, choice, weight, now) == Some(
            StakingError::VotingPeriodEnded,
        ),
        now < p.end_time ==> finalize_error(p, now) == Some(StakingError::VotingPeriodNotEnded),
        p.status == ProposalStatus::Active ==> finalize_error(p, p.end_time) is None,
{
}

/// A vote that would carry its side's tally past `u64::MAX` is refused with
/// `MathOverflow` (and `cast_vote` then leaves the ballot as it was).
pub proof fn lemma_vote_overflow(
    p: Proposal,
    records: Seq<VoteRecord>,
    voter: Seq<u8>,
    choice: VoteChoice,
    weight: u64,
    now: i64,
)
    requires
        now <= p.end_time,
        p.status == ProposalStatus::Active,
        !has_voted(records, voter),
        tally_of(p, choice) + weight > u64::MAX,
    ensures
        vote_error(p, records, voter, choice, weight, now) == Some(StakingError::MathOverflow),
{
}

} // verus!
