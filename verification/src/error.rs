//! The named errors with which an operation is rejected.

use vstd::prelude::*;

verus! {

/// Errors of the registry and of a proposal's life cycle.
#[derive(Clone, Copy, Debug, PartialEq, Eq, Structural)]
pub enum ErrorCode {
    /// Title must be 100 characters or less.
    TitleTooLong,
    /// Description must be 1000 characters or less.
    DescriptionTooLong,
    /// Must have between 2 and 10 options.
    InvalidOptionsCount,
    /// Start time lies too far in the past.
    InvalidStartTime,
    /// End time must be after start time.
    InvalidEndTime,
    /// Voting has not started yet.
    VotingNotStarted,
    /// Voting period has ended.
    VotingEnded,
    /// Proposal is not active.
    ProposalInactive,
    /// Invalid option index.
    InvalidOptionIndex,
    /// Vote weight must be greater than 0.
    InvalidVoteWeight,
    /// Proposal has already been finalized.
    ProposalAlreadyFinalized,
    /// Voting period is still active.
    VotingStillActive,
    /// Unauthorized access.
    UnauthorizedAccess,
    /// Emergency stop is active.
    EmergencyStopActive,
    /// Proposal not active.
    ProposalNotActive,
    /// A counter or a tally would overflow.
    VoteCountOverflow,
}

/// Errors of casting a vote.
#[derive(Clone, Copy, Debug, PartialEq, Eq, Structural)]
pub enum VotingError {
    /// The proposal is finalized, or the time is outside its voting window.
    ProposalNotActive,
    /// The option index names no option of the proposal.
    InvalidOptionIndex,
    /// The vote weight is zero.
    InvalidVoteWeight,
    /// The voter has already voted on this proposal.
    AlreadyVoted,
}

/// Why an operation was rejected.
#[derive(Clone, Copy, Debug, PartialEq, Eq, Structural)]
pub enum Rejection {
    /// A rule of the registry or of a proposal's life cycle was broken.
    Program(ErrorCode),
    /// A rule of voting was broken.
    Voting(VotingError),
    /// A record already exists at the address where one was to be created.
    AccountInUse,
    /// No address can be derived for the record that was to be created.
    NoAddress,
    /// The username is longer than a profile can store.
    UsernameTooLong,
}

impl ErrorCode {
    /// The message that accompanies the error.
    pub fn message(&self) -> (s: String)
        ensures
            s@ == self.message_text(),
    {
        match self {
            ErrorCode::TitleTooLong => "Title must be 100 characters or less".to_string(),
            ErrorCode::DescriptionTooLong => "Description must be 1000 characters or less".to_string(),
            ErrorCode::InvalidOptionsCount => "Must have between 2 and 10 options".to_string(),
            ErrorCode::InvalidStartTime => "Start time must be in the future".to_string(),
            ErrorCode::InvalidEndTime => "End time must be after start time".to_string(),
            ErrorCode::VotingNotStarted => "Voting has not started yet".to_string(),
            ErrorCode::VotingEnded => "Voting period has ended".to_string(),
            ErrorCode::ProposalInactive => "Proposal is not active".to_string(),
            ErrorCode::InvalidOptionIndex => "Invalid option index".to_string(),
            ErrorCode::InvalidVoteWeight => "Vote weight must be greater than 0".to_string(),
            ErrorCode::ProposalAlreadyFinalized => "Proposal has already been finalized".to_string(),
            ErrorCode::VotingStillActive => "Voting period is still active".to_string(),
            ErrorCode::UnauthorizedAccess => "Unauthorized access".to_string(),
            ErrorCode::EmergencyStopActive => "Emergency stop is active".to_string(),
            ErrorCode::ProposalNotActive => "Proposal not active".to_string(),
            ErrorCode::VoteCountOverflow => "Vote count overflow".to_string(),
        }
    }

    pub open spec fn message_text(&self) -> Seq<char> {
        match self {
            ErrorCode::TitleTooLong => "Title must be 100 characters or less"@,
            ErrorCode::DescriptionTooLong => "Description must be 1000 characters or less"@,
            ErrorCode::InvalidOptionsCount => "Must have between 2 and 10 options"@,
            ErrorCode::InvalidStartTime => "Start time must be in the future"@,
            ErrorCode::InvalidEndTime => "End time must be after start time"@,
            ErrorCode::VotingNotStarted => "Voting has not started yet"@,
            ErrorCode::VotingEnded => "Voting period has ended"@,
            ErrorCode::ProposalInactive => "Proposal is not active"@,
            ErrorCode::InvalidOptionIndex => "Invalid option index"@,
            ErrorCode::InvalidVoteWeight => "Vote weight must be greater than 0"@,
            ErrorCode::ProposalAlreadyFinalized => "Proposal has already been finalized"@,
            ErrorCode::VotingStillActive => "Voting period is still active"@,
            ErrorCode::UnauthorizedAccess => "Unauthorized access"@,
            ErrorCode::EmergencyStopActive => "Emergency stop is active"@,
            ErrorCode::ProposalNotActive => "Proposal not active"@,
            ErrorCode::VoteCountOverflow => "Vote count overflow"@,
        }
    }
}

impl VotingError {
    /// The message that accompanies the error.
    pub fn message(&self) -> (s: String)
        ensures
            s@ == self.message_text(),
    {
        match self {
            VotingError::ProposalNotActive => "Proposal is not active".to_string(),
            VotingError::InvalidOptionIndex => "Invalid option index".to_string(),
            VotingError::InvalidVoteWeight => "Invalid vote weight".to_string(),
            VotingError::AlreadyVoted => "You have already voted on this proposal".to_string(),
        }
    }

    pub open spec fn message_text(&self) -> Seq<char> {
        match self {
            VotingError::ProposalNotActive => "Proposal is not active"@,
            VotingError::InvalidOptionIndex => "Invalid option index"@,
            VotingError::InvalidVoteWeight => "Invalid vote weight"@,
            VotingError::AlreadyVoted => "You have already voted on this proposal"@,
        }
    }
}

} // verus!
