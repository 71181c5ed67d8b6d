//! Ballots: one vote for each voter on each proposal, counted with the
//! proposal's tallies as one step.

use crate::address::{
    bump_of, derived_view, program_address, vote_address, vote_seeds, Address, Derived,
};
use crate::error::{ErrorCode, Rejection, VotingError};
use crate::state::{lemma_tally_update, GlobalState, Proposal, ProposalView, UserProfile, Vote};
use vstd::prelude::*;

verus! {

/// What `cast_vote` works on: the voter, the proposal with its address, the
/// place of the voter's ballot on it, the voter's profile and the registry.
#[derive(Clone, Debug, PartialEq, Eq)]
pub struct CastVote {
    pub program_id: Address,
    pub voter: Address,
    pub proposal_key: Address,
    pub proposal: Proposal,
    pub vote: Option<Vote>,
    pub user_profile: UserProfile,
    pub global_state: GlobalState,
}

/// Whether a proposal takes votes at `now`: it is active and `now` lies in
/// its voting window, both ends included.
pub open spec fn voting_open(proposal: ProposalView, now: i64) -> bool {
    proposal.is_active && proposal.start_time <= now <= proposal.end_time
}

/// Whether counting the vote would take a tally or a counter past its
/// maximum.
pub open spec fn vote_overflows(pre: CastVote, option_index: u8, vote_weight: u64) -> bool
    recommends
        option_index < pre.proposal.vote_counts@.len(),
{
    ||| pre.proposal.total_votes + vote_weight > u64::MAX
    ||| pre.proposal.vote_counts@[option_index as int] + vote_weight > u64::MAX
    ||| pre.user_profile.votes_cast == u64::MAX
    ||| pre.global_state.total_votes == u64::MAX
}

/// Why a vote cannot be cast, if it cannot. The first rule that is broken
/// decides, in this order: the emergency gate is closed; the proposal takes
/// no votes at `now`; the index names no option with a tally; the weight is
/// zero; the voter's ballot on the proposal has voted; a record that has not
/// voted exists at the ballot's place; no address was derived; a tally or a
/// counter would overflow.
pub open spec fn cast_vote_rejection(
    pre: CastVote,
    derived: Option<(Seq<u8>, u8)>,
    option_index: u8,
    vote_weight: u64,
    now: i64,
) -> Option<Rejection> {
    if pre.global_state.is_emergency_stopped {
        Some(Rejection::Program(ErrorCode::EmergencyStopActive))
    } else if !voting_open(pre.proposal@, now) {
        Some(Rejection::Voting(VotingError::ProposalNotActive))
    } else if option_index >= pre.proposal.options@.len() || option_index
        >= pre.proposal.vote_counts@.len() {
        Some(Rejection::Voting(VotingError::InvalidOptionIndex))
    } else if vote_weight == 0 {
        Some(Rejection::Voting(VotingError::InvalidVoteWeight))
    } else if pre.vote matches Some(ballot) && ballot.has_voted {
        Some(Rejection::Voting(VotingError::AlreadyVoted))
    } else if pre.vote is Some {
        Some(Rejection::AccountInUse)
    } else if derived is None {
        Some(Rejection::NoAddress)
    } else if vote_overflows(pre, option_index, vote_weight) {
        Some(Rejection::Program(ErrorCode::VoteCountOverflow))
    } else {
        None
    }
}

/// The ballot that a vote leaves.
pub open spec fn new_ballot(
    voter: Address,
    proposal: Address,
    option_index: u8,
    vote_weight: u64,
    now: i64,
    bump: u8,
) -> Vote {
    Vote { voter, proposal, option_index, vote_weight, timestamp: now, bump, has_voted: true }
}

/// A proposal after a vote of the given weight for the given option: the
/// total and that option's tally are raised by the weight.
pub open spec fn proposal_with_vote(proposal: ProposalView, option_index: u8, vote_weight: u64)
    -> ProposalView
    recommends
        option_index < proposal.vote_counts.len(),
{
    ProposalView {
        total_votes: (proposal.total_votes + vote_weight) as u64,
        vote_counts: proposal.vote_counts.update(
            option_index as int,
            (proposal.vote_counts[option_index as int] + vote_weight) as u64,
        ),
        ..proposal
    }
}

/// The effect of a vote: the ballot is written, the proposal counts the
/// weight, and the voter's profile and the registry each count one vote more.
pub open spec fn cast_vote_effect(
    pre: CastVote,
    post: CastVote,
    derived: Option<(Seq<u8>, u8)>,
    option_index: u8,
    vote_weight: u64,
    now: i64,
) -> bool {
    &&& post.program_id == pre.program_id
    &&& post.voter == pre.voter
    &&& post.proposal_key == pre.proposal_key
    &&& post.vote == Some(
        new_ballot(pre.voter, pre.proposal_key, option_index, vote_weight, now, bump_of(derived)),
    )
    &&& post.proposal@ == proposal_with_vote(pre.proposal@, option_index, vote_weight)
    &&& post.user_profile == (UserProfile {
        votes_cast: (pre.user_profile.votes_cast + 1) as u64,
        ..pre.user_profile
    })
    &&& post.global_state == (GlobalState {
        total_votes: (pre.global_state.total_votes + 1) as u64,
        ..pre.global_state
    })
}

/// Casts a vote, given the address that was derived for the ballot.
pub fn cast_vote_at(
    ctx: &mut CastVote,
    derived: Option<Derived>,
    option_index: u8,
    vote_weight: u64,
    now: i64,
) -> (r: Result<(), Rejection>)
    ensures
        r is Ok <==> cast_vote_rejection(
            *old(ctx),
            derived_view(derived),
            option_index,
            vote_weight,
            now,
        ) is None,
        r matches Err(e) ==> cast_vote_rejection(
            *old(ctx),
            derived_view(derived),
            option_index,
            vote_weight,
            now,
        ) == Some(e) && *final(ctx) == *old(ctx),
        r is Ok ==> cast_vote_effect(
            *old(ctx),
            *final(ctx),
            derived_view(derived),
            option_index,
            vote_weight,
            now,
        ),
        r is Ok && old(ctx).proposal@.wf() ==> final(ctx).proposal@.wf(),
        r is Ok && old(ctx).user_profile@.wf() ==> final(ctx).user_profile@.wf(),
{
    if ctx.global_state.is_emergency_stopped {
        return Err(Rejection::Program(ErrorCode::EmergencyStopActive));
    }
    if !ctx.proposal.is_active || now < ctx.proposal.start_time || now > ctx.proposal.end_time {
        return Err(Rejection::Voting(VotingError::ProposalNotActive));
    }
    let index: usize = option_index as usize;
    if index >= ctx.proposal.options.len() || index >= ctx.proposal.vote_counts.len() {
        return Err(Rejection::Voting(VotingError::InvalidOptionIndex));
    }
    if vote_weight == 0 {
        return Err(Rejection::Voting(VotingError::InvalidVoteWeight));
    }
    match ctx.vote {
        Some(ballot) => {
            if ballot.has_voted {
                return Err(Rejection::Voting(VotingError::AlreadyVoted));
            }
            return Err(Rejection::AccountInUse);
        },
        None => {},
    }
    let found = match derived {
        Some(found) => found,
        None => {
            return Err(Rejection::NoAddress);
        },
    };
    let total = match ctx.proposal.total_votes.checked_add(vote_weight) {
        Some(total) => total,
        None => {
            return Err(Rejection::Program(ErrorCode::VoteCountOverflow));
        },
    };
    let tally = match ctx.proposal.vote_counts[index].checked_add(vote_weight) {
        Some(tally) => tally,
        None => {
            return Err(Rejection::Program(ErrorCode::VoteCountOverflow));
        },
    };
    if ctx.user_profile.votes_cast == u64::MAX || ctx.global_state.total_votes == u64::MAX {
        return Err(Rejection::Program(ErrorCode::VoteCountOverflow));
    }
    proof {
        lemma_tally_update(ctx.proposal.vote_counts@, index as int, tally);
    }
    ctx.vote = Some(
        Vote {
            voter: ctx.voter,
            proposal: ctx.proposal_key,
            option_index,
            vote_weight,
            timestamp: now,
            bump: found.bump,
            has_voted: true,
        },
    );
    ctx.proposal.total_votes = total;
    ctx.proposal.vote_counts.set(index, tally);
    ctx.user_profile.votes_cast = ctx.user_profile.votes_cast + 1;
    ctx.global_state.total_votes = ctx.global_state.total_votes + 1;
    proof {
        assert(final(ctx).proposal@ =~= proposal_with_vote(
            old(ctx).proposal@,
            option_index,
            vote_weight,
        ));
    }
    Ok(())
}

/// Casts the voter's vote on the proposal: writes the ballot, adds the weight
/// to the proposal's total and to the option's tally, and counts the vote in
/// the voter's profile and in the registry. A voter votes once on a proposal.
pub fn cast_vote(ctx: &mut CastVote, option_index: u8, vote_weight: u64, now: i64) -> (r: Result<
    (),
    Rejection,
>)
    ensures
        r is Ok <==> cast_vote_rejection(
            *old(ctx),
            program_address(
                vote_seeds(old(ctx).voter@, old(ctx).proposal_key@),
                old(ctx).program_id@,
            ),
            option_index,
            vote_weight,
            now,
        ) is None,
        r matches Err(e) ==> cast_vote_rejection(
            *old(ctx),
            program_address(
                vote_seeds(old(ctx).voter@, old(ctx).proposal_key@),
                old(ctx).program_id@,
            ),
            option_index,
            vote_weight,
            now,
        ) == Some(e) && *final(ctx) == *old(ctx),
        r is Ok ==> cast_vote_effect(
            *old(ctx),
            *final(ctx),
            program_address(
                vote_seeds(old(ctx).voter@, old(ctx).proposal_key@),
                old(ctx).program_id@,
            ),
            option_index,
            vote_weight,
            now,
        ),
        r is Ok && old(ctx).proposal@.wf() ==> final(ctx).proposal@.wf(),
        r is Ok && old(ctx).user_profile@.wf() ==> final(ctx).user_profile@.wf(),
{
    let derived = vote_address(&ctx.program_id, &ctx.voter, &ctx.proposal_key);
    cast_vote_at(ctx, derived, option_index, vote_weight, now)
}

} // verus!
