//! A proposal's life: created active, finalized once.

use crate::address::{
    bump_of, derived_view, program_address, proposal_address, proposal_seeds, Address, Derived,
};
use crate::error::{ErrorCode, Rejection};
use crate::state::{
    lemma_tally_zero, options_view, stored_len, GlobalState, Proposal, ProposalView, UserProfile,
    MAX_DESCRIPTION_LEN, MAX_OPTIONS, MAX_TITLE_LEN, MIN_OPTIONS, START_GRACE_SECONDS,
};
use vstd::prelude::*;

verus! {

/// What `create_proposal` works on: the creator, the place of the new
/// proposal, the registry and the creator's profile.
#[derive(Clone, Debug, PartialEq, Eq)]
pub struct CreateProposal {
    pub program_id: Address,
    pub authority: Address,
    pub proposal: Option<Proposal>,
    pub global_state: GlobalState,
    pub user_profile: UserProfile,
}

/// What `finalize_proposal` works on: the caller and the proposal.
#[derive(Clone, Debug, PartialEq, Eq)]
pub struct FinalizeProposal {
    pub authority: Address,
    pub proposal: Proposal,
}

/// The proposal as it is created: active, not finalized, no vote counted,
/// one zero tally for each option.
pub open spec fn new_proposal(
    authority: Seq<u8>,
    title: Seq<char>,
    description: Seq<char>,
    options: Seq<Seq<char>>,
    start_time: i64,
    end_time: i64,
    now: i64,
    bump: u8,
) -> ProposalView {
    ProposalView {
        authority,
        title,
        description,
        options,
        start_time,
        end_time,
        total_votes: 0,
        is_active: true,
        created_at: now,
        finalized_at: None,
        bump,
        vote_counts: Seq::new(options.len(), |i: int| 0u64),
    }
}

/// Why a proposal cannot be created, if it cannot. The first rule that is
/// broken decides, in this order: the emergency gate is closed; a record
/// exists at the proposal's place; no address was derived; the title, the
/// description or the number of options is out of bounds; the start lies
/// more than the grace period before `now`; the end is not after the start;
/// a counter is at its maximum.
pub open spec fn create_proposal_rejection(
    pre: CreateProposal,
    derived: Option<(Seq<u8>, u8)>,
    title: Seq<char>,
    description: Seq<char>,
    options: Seq<Seq<char>>,
    start_time: i64,
    end_time: i64,
    now: i64,
) -> Option<Rejection> {
    if pre.global_state.is_emergency_stopped {
        Some(Rejection::Program(ErrorCode::EmergencyStopActive))
    } else if pre.proposal is Some {
        Some(Rejection::AccountInUse)
    } else if derived is None {
        Some(Rejection::NoAddress)
    } else if stored_len(title) > MAX_TITLE_LEN {
        Some(Rejection::Program(ErrorCode::TitleTooLong))
    } else if stored_len(description) > MAX_DESCRIPTION_LEN {
        Some(Rejection::Program(ErrorCode::DescriptionTooLong))
    } else if options.len() < MIN_OPTIONS || options.len() > MAX_OPTIONS {
        Some(Rejection::Program(ErrorCode::InvalidOptionsCount))
    } else if start_time < now - START_GRACE_SECONDS {
        Some(Rejection::Program(ErrorCode::InvalidStartTime))
    } else if end_time <= start_time {
        Some(Rejection::Program(ErrorCode::InvalidEndTime))
    } else if pre.global_state.total_proposals == u64::MAX || pre.user_profile.proposals_created
        == u64::MAX {
        Some(Rejection::Program(ErrorCode::VoteCountOverflow))
    } else {
        None
    }
}

/// The effect of creating a proposal: the place holds the new proposal, and
/// the registry and the creator's profile each count one proposal more.
pub open spec fn create_proposal_effect(
    pre: CreateProposal,
    post: CreateProposal,
    derived: Option<(Seq<u8>, u8)>,
    title: Seq<char>,
    description: Seq<char>,
    options: Seq<Seq<char>>,
    start_time: i64,
    end_time: i64,
    now: i64,
) -> bool {
    &&& post.program_id == pre.program_id
    &&& post.authority == pre.authority
    &&& post.proposal matches Some(created) && created@ == new_proposal(
        pre.authority@,
        title,
        description,
        options,
        start_time,
        end_time,
        now,
        bump_of(derived),
    )
    &&& post.global_state == (GlobalState {
        total_proposals: (pre.global_state.total_proposals + 1) as u64,
        ..pre.global_state
    })
    &&& post.user_profile == (UserProfile {
        proposals_created: (pre.user_profile.proposals_created + 1) as u64,
        ..pre.user_profile
    })
}

/// Creates a proposal, given the address that was derived for it.
pub fn create_proposal_at(
    ctx: &mut CreateProposal,
    derived: Option<Derived>,
    title: String,
    description: String,
    options: Vec<String>,
    start_time: i64,
    end_time: i64,
    now: i64,
) -> (r: Result<(), Rejection>)
    ensures
        r is Ok <==> create_proposal_rejection(
            *old(ctx),
            derived_view(derived),
            title@,
            description@,
            options_view(&options),
            start_time,
            end_time,
            now,
        ) is None,
        r matches Err(e) ==> create_proposal_rejection(
            *old(ctx),
            derived_view(derived),
            title@,
            description@,
            options_view(&options),
            start_time,
            end_time,
            now,
        ) == Some(e) && *final(ctx) == *old(ctx),
        r is Ok ==> create_proposal_effect(
            *old(ctx),
            *final(ctx),
            derived_view(derived),
            title@,
            description@,
            options_view(&options),
            start_time,
            end_time,
            now,
        ),
        r is Ok ==> (final(ctx).proposal matches Some(created) && created@.wf()),
        r is Ok && old(ctx).user_profile@.wf() ==> final(ctx).user_profile@.wf(),
{
    if ctx.global_state.is_emergency_stopped {
        return Err(Rejection::Program(ErrorCode::EmergencyStopActive));
    }
    if ctx.proposal.is_some() {
        return Err(Rejection::AccountInUse);
    }
    let found = match derived {
        Some(found) => found,
        None => {
            return Err(Rejection::NoAddress);
        },
    };
    if title.as_str().as_bytes().len() > MAX_TITLE_LEN {
        return Err(Rejection::Program(ErrorCode::TitleTooLong));
    }
    if description.as_str().as_bytes().len() > MAX_DESCRIPTION_LEN {
        return Err(Rejection::Program(ErrorCode::DescriptionTooLong));
    }
    let count: usize = options.len();
    if count < MIN_OPTIONS || count > MAX_OPTIONS {
        return Err(Rejection::Program(ErrorCode::InvalidOptionsCount));
    }
    if now >= i64::MIN + START_GRACE_SECONDS && start_time < now - START_GRACE_SECONDS {
        return Err(Rejection::Program(ErrorCode::InvalidStartTime));
    }
    if end_time <= start_time {
        return Err(Rejection::Program(ErrorCode::InvalidEndTime));
    }
    if ctx.global_state.total_proposals == u64::MAX || ctx.user_profile.proposals_created
        == u64::MAX {
        return Err(Rejection::Program(ErrorCode::VoteCountOverflow));
    }
    let mut vote_counts: Vec<u64> = Vec::new();
    let mut i: usize = 0;
    while i < count
        invariant
            i <= count,
            vote_counts@.len() == i,
            forall|j: int| 0 <= j < i ==> vote_counts@[j] == 0,
        decreases count - i,
    {
        vote_counts.push(0);
        i += 1;
    }
    let ghost texts = options_view(&options);
    let created = Proposal {
        authority: ctx.authority,
        title,
        description,
        options,
        start_time,
        end_time,
        total_votes: 0,
        is_active: true,
        created_at: now,
        finalized_at: None,
        bump: found.bump,
        vote_counts,
    };
    proof {
        lemma_tally_zero(created.vote_counts@);
        assert(created@.vote_counts =~= Seq::new(texts.len(), |i: int| 0u64));
        assert(created@ =~= new_proposal(
            ctx.authority@,
            created.title@,
            created.description@,
            texts,
            start_time,
            end_time,
            now,
            found.bump,
        ));
    }
    ctx.proposal = Some(created);
    ctx.global_state.total_proposals = ctx.global_state.total_proposals + 1;
    ctx.user_profile.proposals_created = ctx.user_profile.proposals_created + 1;
    Ok(())
}

/// Creates a proposal of the caller, active at once, and counts it in the
/// registry and in the caller's profile. Its address is derived from the
/// caller and the number of proposals that the registry has counted.
pub fn create_proposal(
    ctx: &mut CreateProposal,
    title: String,
    description: String,
    options: Vec<String>,
    start_time: i64,
    end_time: i64,
    now: i64,
) -> (r: Result<(), Rejection>)
    ensures
        r is Ok <==> create_proposal_rejection(
            *old(ctx),
            program_address(
                proposal_seeds(old(ctx).authority@, old(ctx).global_state.total_proposals),
                old(ctx).program_id@,
            ),
            title@,
            description@,
            options_view(&options),
            start_time,
            end_time,
            now,
        ) is None,
        r matches Err(e) ==> create_proposal_rejection(
            *old(ctx),
            program_address(
                proposal_seeds(old(ctx).authority@, old(ctx).global_state.total_proposals),
                old(ctx).program_id@,
            ),
            title@,
            description@,
            options_view(&options),
            start_time,
            end_time,
            now,
        ) == Some(e) && *final(ctx) == *old(ctx),
        r is Ok ==> create_proposal_effect(
            *old(ctx),
            *final(ctx),
            program_address(
                proposal_seeds(old(ctx).authority@, old(ctx).global_state.total_proposals),
                old(ctx).program_id@,
            ),
            title@,
            description@,
            options_view(&options),
            start_time,
            end_time,
            now,
        ),
        r is Ok ==> (final(ctx).proposal matches Some(created) && created@.wf()),
        r is Ok && old(ctx).user_profile@.wf() ==> final(ctx).user_profile@.wf(),
{
    let derived = proposal_address(
        &ctx.program_id,
        &ctx.authority,
        ctx.global_state.total_proposals,
    );
    create_proposal_at(ctx, derived, title, description, options, start_time, end_time, now)
}

/// Why a proposal cannot be finalized, if it cannot. In this order: the
/// caller is not its creator; it is finalized already; its voting window has
/// not passed.
pub open spec fn finalize_rejection(pre: FinalizeProposal, now: i64) -> Option<Rejection> {
    if pre.authority@ != pre.proposal.authority@ {
        Some(Rejection::Program(ErrorCode::UnauthorizedAccess))
    } else if !pre.proposal.is_active {
        Some(Rejection::Program(ErrorCode::ProposalAlreadyFinalized))
    } else if now <= pre.proposal.end_time {
        Some(Rejection::Program(ErrorCode::VotingStillActive))
    } else {
        None
    }
}

/// Finalizes a proposal after its voting window: it stops being active and
/// records the time. The tallies stay as the votes left them.
pub fn finalize_proposal(ctx: &mut FinalizeProposal, now: i64) -> (r: Result<(), Rejection>)
    ensures
        r is Ok <==> finalize_rejection(*old(ctx), now) is None,
        r matches Err(e) ==> finalize_rejection(*old(ctx), now) == Some(e) && *final(ctx) == *old(
            ctx,
        ),
        r is Ok ==> final(ctx).authority == old(ctx).authority && final(ctx).proposal == (Proposal {
            is_active: false,
            finalized_at: Some(now),
            ..old(ctx).proposal
        }),
        r is Ok && old(ctx).proposal@.wf() ==> final(ctx).proposal@.wf(),
{
    if !ctx.authority.same(&ctx.proposal.authority) {
        return Err(Rejection::Program(ErrorCode::UnauthorizedAccess));
    }
    if !ctx.proposal.is_active {
        return Err(Rejection::Program(ErrorCode::ProposalAlreadyFinalized));
    }
    if now <= ctx.proposal.end_time {
        return Err(Rejection::Program(ErrorCode::VotingStillActive));
    }
    ctx.proposal.is_active = false;
    ctx.proposal.finalized_at = Some(now);
    Ok(())
}

} // verus!
