//! What holds of the operations taken together, proved from the rules that
//! the operations' contracts state.

use crate::address::Address;
use crate::ballot::{cast_vote_effect, cast_vote_rejection, proposal_with_vote, CastVote};
use crate::error::{ErrorCode, Rejection, VotingError};
use crate::proposal::{
    create_proposal_effect, create_proposal_rejection, finalize_rejection, CreateProposal,
    FinalizeProposal,
};
use crate::registry::gate_rejection;
use crate::state::{
    lemma_tally_update, lemma_tally_zero, stored_len, tally_sum, GlobalState, Proposal,
    ProposalView, Vote, MAX_DESCRIPTION_LEN, MAX_OPTIONS, MAX_TITLE_LEN, MIN_OPTIONS,
    START_GRACE_SECONDS,
};
use vstd::prelude::*;

verus! {

/// Every proposal that is created is valid: it has between two and ten
/// options and one tally, at zero, for each of them.
pub proof fn created_proposal_is_valid(
    pre: CreateProposal,
    post: CreateProposal,
    derived: Option<(Seq<u8>, u8)>,
    title: Seq<char>,
    description: Seq<char>,
    options: Seq<Seq<char>>,
    start_time: i64,
    end_time: i64,
    now: i64,
)
    requires
        create_proposal_rejection(
            pre,
            derived,
            title,
            description,
            options,
            start_time,
            end_time,
            now,
        ) is None,
        create_proposal_effect(
            pre,
            post,
            derived,
            title,
            description,
            options,
            start_time,
            end_time,
            now,
        ),
    ensures
        post.proposal is Some,
        MIN_OPTIONS <= post.proposal->0@.options.len() <= MAX_OPTIONS,
        post.proposal->0@.vote_counts.len() == post.proposal->0@.options.len(),
        forall|i: int|
            0 <= i < post.proposal->0@.vote_counts.len() ==> post.proposal->0@.vote_counts[i] == 0,
        post.proposal->0@.wf(),
{
    lemma_tally_zero(post.proposal->0@.vote_counts);
}

/// Whether a request to create a proposal passes every rule that is tested
/// before its times are.
pub open spec fn creation_reaches_times(
    pre: CreateProposal,
    derived: Option<(Seq<u8>, u8)>,
    title: Seq<char>,
    description: Seq<char>,
    options: Seq<Seq<char>>,
) -> bool {
    &&& !pre.global_state.is_emergency_stopped
    &&& pre.proposal is None
    &&& derived is Some
    &&& stored_len(title) <= MAX_TITLE_LEN
    &&& stored_len(description) <= MAX_DESCRIPTION_LEN
    &&& MIN_OPTIONS <= options.len() <= MAX_OPTIONS
}

/// A proposal whose start lies more than the grace period before the current
/// time is never created; where the rules tested earlier hold, the error is
/// `InvalidStartTime`.
pub proof fn late_start_is_rejected(
    pre: CreateProposal,
    derived: Option<(Seq<u8>, u8)>,
    title: Seq<char>,
    description: Seq<char>,
    options: Seq<Seq<char>>,
    start_time: i64,
    end_time: i64,
    now: i64,
)
    requires
        start_time < now - START_GRACE_SECONDS,
    ensures
        create_proposal_rejection(
            pre,
            derived,
            title,
            description,
            options,
            start_time,
            end_time,
            now,
        ) is Some,
        creation_reaches_times(pre, derived, title, description, options)
            ==> create_proposal_rejection(
            pre,
            derived,
            title,
            description,
            options,
            start_time,
            end_time,
            now,
        ) == Some(Rejection::Program(ErrorCode::InvalidStartTime)),
{
}

/// A proposal whose end is not after its start is never created; where the
/// rules tested earlier hold and the start is in time, the error is
/// `InvalidEndTime`.
pub proof fn empty_window_is_rejected(
    pre: CreateProposal,
    derived: Option<(Seq<u8>, u8)>,
    title: Seq<char>,
    description: Seq<char>,
    options: Seq<Seq<char>>,
    start_time: i64,
    end_time: i64,
    now: i64,
)
    requires
        end_time <= start_time,
    ensures
        create_proposal_rejection(
            pre,
            derived,
            title,
            description,
            options,
            start_time,
            end_time,
            now,
        ) is Some,
        creation_reaches_times(pre, derived, title, description, options) && start_time >= now
            - START_GRACE_SECONDS ==> create_proposal_rejection(
            pre,
            derived,
            title,
            description,
            options,
            start_time,
            end_time,
            now,
        ) == Some(Rejection::Program(ErrorCode::InvalidEndTime)),
{
}

/// After a vote was cast, every further vote at the same ballot is rejected,
/// whatever option, weight and time it names; where the rules tested earlier
/// hold, the error is `AlreadyVoted`.
pub proof fn second_vote_is_rejected(
    pre: CastVote,
    post: CastVote,
    derived: Option<(Seq<u8>, u8)>,
    option_index: u8,
    vote_weight: u64,
    now: i64,
    again: CastVote,
    derived_again: Option<(Seq<u8>, u8)>,
    option_again: u8,
    weight_again: u64,
    now_again: i64,
)
    requires
        cast_vote_rejection(pre, derived, option_index, vote_weight, now) is None,
        cast_vote_effect(pre, post, derived, option_index, vote_weight, now),
        again.vote == post.vote,
    ensures
        cast_vote_rejection(again, derived_again, option_again, weight_again, now_again) is Some,
        cast_vote_rejection(again, derived_again, option_again, weight_again, now_again) matches Some(
            e,
        ) ==> e != Rejection::AccountInUse && e != Rejection::NoAddress && e != Rejection::Program(
            ErrorCode::VoteCountOverflow,
        ),
{
}

/// Whether `after` is `before` with the ballot counted: the ballot names an
/// option with a tally, its weight fits, and the total and that tally are
/// raised by it.
pub open spec fn vote_counted(before: ProposalView, after: ProposalView, ballot: Vote) -> bool {
    &&& ballot.has_voted
    &&& ballot.vote_weight > 0
    &&& ballot.option_index < before.vote_counts.len()
    &&& before.total_votes + ballot.vote_weight <= u64::MAX
    &&& before.vote_counts[ballot.option_index as int] + ballot.vote_weight <= u64::MAX
    &&& after == proposal_with_vote(before, ballot.option_index, ballot.vote_weight)
}

/// A vote that is cast leaves a ballot that has voted, with a weight above
/// zero for an option of the proposal, and the proposal counts that ballot.
pub proof fn cast_vote_counts_its_ballot(
    pre: CastVote,
    post: CastVote,
    derived: Option<(Seq<u8>, u8)>,
    option_index: u8,
    vote_weight: u64,
    now: i64,
)
    requires
        cast_vote_rejection(pre, derived, option_index, vote_weight, now) is None,
        cast_vote_effect(pre, post, derived, option_index, vote_weight, now),
    ensures
        post.vote is Some,
        post.vote->0.option_index < pre.proposal@.options.len(),
        vote_counted(pre.proposal@, post.proposal@, post.vote->0),
        post.proposal@.total_votes == pre.proposal@.total_votes + vote_weight,
{
}

/// The weights of a list of ballots, added up.
pub open spec fn recorded_weight(ballots: Seq<Vote>) -> int
    decreases ballots.len(),
{
    if ballots.len() == 0 {
        0
    } else {
        recorded_weight(ballots.drop_last()) + ballots.last().vote_weight
    }
}

/// Whether `states` are the states of one proposal as `ballots` are counted
/// one after another: one state more than ballots, each following from the
/// one before by its ballot.
pub open spec fn ballots_counted(states: Seq<ProposalView>, ballots: Seq<Vote>) -> bool {
    &&& states.len() == ballots.len() + 1
    &&& forall|k: int|
        0 <= k < ballots.len() ==> vote_counted(#[trigger] states[k], states[k + 1], ballots[k])
}

/// A proposal's total grows by exactly the weights of the ballots that were
/// counted: from a new proposal on, the total is the sum of all recorded
/// weights, never more; and a valid proposal stays valid, so that its
/// tallies add up to the same sum.
pub proof fn total_is_recorded_weight(states: Seq<ProposalView>, ballots: Seq<Vote>)
    requires
        ballots_counted(states, ballots),
    ensures
        states.last().total_votes == states[0].total_votes + recorded_weight(ballots),
        states[0].total_votes == 0 ==> states.last().total_votes == recorded_weight(ballots),
        states[0].wf() ==> states.last().wf() && tally_sum(states.last().vote_counts)
            == states[0].total_votes + recorded_weight(ballots),
    decreases ballots.len(),
{
    if ballots.len() > 0 {
        let n = ballots.len() - 1;
        let earlier_states = states.drop_last();
        let earlier = ballots.drop_last();
        assert(ballots_counted(earlier_states, earlier)) by {
            assert forall|k: int| 0 <= k < earlier.len() implies vote_counted(
                #[trigger] earlier_states[k],
                earlier_states[k + 1],
                earlier[k],
            ) by {
                assert(vote_counted(states[k], states[k + 1], ballots[k]));
            }
        }
        total_is_recorded_weight(earlier_states, earlier);
        assert(earlier_states.last() == states[n]);
        assert(earlier_states[0] == states[0]);
        assert(vote_counted(states[n], states[n + 1], ballots[n]));
        assert(states.last() == states[n + 1]);
        lemma_tally_update(
            states[n].vote_counts,
            ballots[n].option_index as int,
            (states[n].vote_counts[ballots[n].option_index as int] + ballots[n].vote_weight) as u64,
        );
    }
}

/// No vote is cast outside the proposal's voting window, whatever option and
/// weight it names.
pub proof fn vote_outside_window_is_rejected(
    pre: CastVote,
    derived: Option<(Seq<u8>, u8)>,
    option_index: u8,
    vote_weight: u64,
    now: i64,
)
    requires
        now < pre.proposal.start_time || now > pre.proposal.end_time,
    ensures
        cast_vote_rejection(pre, derived, option_index, vote_weight, now) is Some,
        !pre.global_state.is_emergency_stopped ==> cast_vote_rejection(
            pre,
            derived,
            option_index,
            vote_weight,
            now,
        ) == Some(Rejection::Voting(VotingError::ProposalNotActive)),
{
}

/// A proposal is not finalized before the end of its voting window nor at
/// it; its creator, while it is active, is told `VotingStillActive`.
pub proof fn finalize_before_end_is_rejected(pre: FinalizeProposal, now: i64)
    requires
        now <= pre.proposal.end_time,
    ensures
        finalize_rejection(pre, now) is Some,
        pre.authority@ == pre.proposal.authority@ && pre.proposal.is_active ==> finalize_rejection(
            pre,
            now,
        ) == Some(Rejection::Program(ErrorCode::VotingStillActive)),
{
}

/// A proposal is finalized once: after it was, its creator is told
/// `ProposalAlreadyFinalized` at any time.
pub proof fn finalize_twice_is_rejected(
    pre: FinalizeProposal,
    post: FinalizeProposal,
    now: i64,
    later: i64,
)
    requires
        finalize_rejection(pre, now) is None,
        post.authority == pre.authority,
        post.proposal == (Proposal {
            is_active: false,
            finalized_at: Some(now),
            ..pre.proposal
        }),
    ensures
        finalize_rejection(post, later) == Some(
            Rejection::Program(ErrorCode::ProposalAlreadyFinalized),
        ),
{
}

/// While the emergency gate is closed no proposal is created, whatever the
/// request.
pub proof fn closed_gate_blocks_creation(
    pre: CreateProposal,
    derived: Option<(Seq<u8>, u8)>,
    title: Seq<char>,
    description: Seq<char>,
    options: Seq<Seq<char>>,
    start_time: i64,
    end_time: i64,
    now: i64,
)
    requires
        pre.global_state.is_emergency_stopped,
    ensures
        create_proposal_rejection(
            pre,
            derived,
            title,
            description,
            options,
            start_time,
            end_time,
            now,
        ) == Some(Rejection::Program(ErrorCode::EmergencyStopActive)),
{
}

/// While the emergency gate is closed no vote is cast, whatever the request.
pub proof fn closed_gate_blocks_voting(
    pre: CastVote,
    derived: Option<(Seq<u8>, u8)>,
    option_index: u8,
    vote_weight: u64,
    now: i64,
)
    requires
        pre.global_state.is_emergency_stopped,
    ensures
        cast_vote_rejection(pre, derived, option_index, vote_weight, now) == Some(
            Rejection::Program(ErrorCode::EmergencyStopActive),
        ),
{
}

/// Only the registry's authority operates the emergency gate: every other
/// caller is told `UnauthorizedAccess`, and the authority is not.
pub proof fn gate_needs_authority(caller: Address, registry: GlobalState)
    ensures
        caller@ != registry.authority@ ==> gate_rejection(caller, registry) == Some(
            Rejection::Program(ErrorCode::UnauthorizedAccess),
        ),
        caller@ == registry.authority@ ==> gate_rejection(caller, registry) is None,
{
}

} // verus!
