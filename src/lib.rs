//! A stake-weighted governance engine: participants lock a bond in a vault
//! whose address is derived from their own key, and the size of that bond is
//! their weight in time-boxed proposals.
//!
//! Every operation is a function of the current records, its inputs and the
//! ledger time; it yields the new records and, where funds move, the transfer
//! that the host must carry out.

pub mod bond;
pub mod error;
pub mod governance;
pub mod vault;

pub use error::StakingError;
pub use vault::{derive_vault, same_address, verify_vault, Address};
pub use bond::{
    apply_claim, apply_stake, claim_unstake, initialize, stake, start_unstake, StakeStatus, Transfer, UserStake,
};
pub use governance::{
    cast_vote, finalize_proposal, initialize_proposal, Ballot, Proposal, ProposalStatus,
    VoteChoice, VoteRecord,
};
