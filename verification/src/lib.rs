//! Validated state transitions of an on-ledger voting program.
//!
//! Every operation takes the records that it touches, the caller's identity
//! and the current time, and either commits all of its effects or rejects the
//! request and leaves every record as it was.

pub mod address;
pub mod ballot;
pub mod error;
pub mod laws;
pub mod profile;
pub mod proposal;
pub mod registry;
pub mod state;

pub use address::{
    global_state_address, proposal_address, user_profile_address, vote_address, Address, Derived,
};
pub use ballot::{cast_vote, cast_vote_at, CastVote};
pub use error::{ErrorCode, Rejection, VotingError};
pub use profile::{initialize_user_profile, initialize_user_profile_at, InitializeUserProfile};
pub use proposal::{
    create_proposal, create_proposal_at, finalize_proposal, CreateProposal, FinalizeProposal,
};
pub use registry::{
    emergency_stop, initialize, initialize_at, resume_operations, EmergencyStop, Initialize,
    ResumeOperations,
};
pub use state::{GlobalState, Proposal, UserProfile, Vote};
