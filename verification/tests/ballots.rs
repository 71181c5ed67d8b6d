use voting_d_app::{
    cast_vote, cast_vote_at, vote_address, Address, CastVote, Derived, ErrorCode, GlobalState,
    Proposal, Rejection, UserProfile, Vote, VotingError,
};

const NOW: i64 = 1_700_000_000;

fn id() -> Address {
    Address::new([11u8; 32])
}

fn voter() -> Address {
    Address::new([3u8; 32])
}

fn proposal_key() -> Address {
    Address::new([90u8; 32])
}

fn context() -> CastVote {
    CastVote {
        program_id: id(),
        voter: voter(),
        proposal_key: proposal_key(),
        proposal: Proposal {
            authority: Address::new([2u8; 32]),
            title: String::from("Budget"),
            description: String::from("Spend it?"),
            options: vec![String::from("Yes"), String::from("No"), String::from("Later")],
            start_time: NOW,
            end_time: NOW + 3600,
            total_votes: 10,
            is_active: true,
            created_at: NOW - 30,
            finalized_at: None,
            bump: 250,
            vote_counts: vec![4, 6, 0],
        },
        vote: None,
        user_profile: UserProfile {
            authority: voter(),
            username: String::from("cy"),
            proposals_created: 0,
            votes_cast: 8,
            reputation: 0,
            created_at: NOW - 100,
            bump: 251,
        },
        global_state: GlobalState {
            authority: Address::new([1u8; 32]),
            total_proposals: 1,
            total_votes: 20,
            total_users: 3,
            minimum_voting_period: 3600,
            maximum_voting_period: 604800,
            is_emergency_stopped: false,
            emergency_stop_time: None,
            bump: 255,
        },
    }
}

fn some_address() -> Option<Derived> {
    Some(Derived { address: Address::new([77u8; 32]), bump: 249 })
}

#[test]
fn cast_vote_records_ballot_and_counts() {
    let mut ctx = context();
    assert_eq!(cast_vote(&mut ctx, 1, 5, NOW + 10), Ok(()));
    let bump = vote_address(&id(), &voter(), &proposal_key()).unwrap().bump;
    assert_eq!(
        ctx.vote,
        Some(Vote {
            voter: voter(),
            proposal: proposal_key(),
            option_index: 1,
            vote_weight: 5,
            timestamp: NOW + 10,
            bump,
            has_voted: true,
        })
    );
    let mut expected = context();
    expected.vote = ctx.vote;
    expected.proposal.total_votes = 15;
    expected.proposal.vote_counts = vec![4, 11, 0];
    expected.user_profile.votes_cast = 9;
    expected.global_state.total_votes = 21;
    assert_eq!(ctx, expected);
    assert!(ctx.proposal.is_valid());
}

#[test]
fn cast_vote_window_is_inclusive() {
    for now in [NOW, NOW + 3600] {
        let mut ctx = context();
        assert_eq!(cast_vote(&mut ctx, 0, 1, now), Ok(()));
        assert_eq!(ctx.vote.unwrap().timestamp, now);
    }
}

#[test]
fn cast_vote_outside_the_window_is_rejected() {
    for now in [i64::MIN, NOW - 1, NOW + 3601, i64::MAX] {
        for option in [0u8, 2, 3, 200] {
            let mut ctx = context();
            assert_eq!(
                cast_vote(&mut ctx, option, 1, now),
                Err(Rejection::Voting(VotingError::ProposalNotActive))
            );
            assert_eq!(ctx, context());
        }
    }
}

#[test]
fn cast_vote_on_a_finalized_proposal_is_rejected() {
    let mut ctx = context();
    ctx.proposal.is_active = false;
    ctx.proposal.finalized_at = Some(NOW + 1);
    let before = ctx.clone();
    assert_eq!(
        cast_vote(&mut ctx, 0, 1, NOW + 2),
        Err(Rejection::Voting(VotingError::ProposalNotActive))
    );
    assert_eq!(ctx, before);
}

#[test]
fn cast_vote_rejects_an_index_past_the_options() {
    let mut ctx = context();
    assert_eq!(cast_vote(&mut ctx, 2, 1, NOW), Ok(()));
    for option in [3u8, 4, 255] {
        let mut ctx = context();
        assert_eq!(
            cast_vote(&mut ctx, option, 1, NOW),
            Err(Rejection::Voting(VotingError::InvalidOptionIndex))
        );
        assert_eq!(ctx, context());
    }
}

#[test]
fn cast_vote_rejects_an_index_without_a_tally() {
    let mut ctx = context();
    ctx.proposal.vote_counts = vec![4, 6];
    let before = ctx.clone();
    assert_eq!(
        cast_vote(&mut ctx, 2, 1, NOW),
        Err(Rejection::Voting(VotingError::InvalidOptionIndex))
    );
    assert_eq!(ctx, before);
}

#[test]
fn cast_vote_rejects_zero_weight() {
    let mut ctx = context();
    assert_eq!(
        cast_vote(&mut ctx, 0, 0, NOW),
        Err(Rejection::Voting(VotingError::InvalidVoteWeight))
    );
    assert_eq!(ctx, context());
}

#[test]
fn cast_vote_twice_is_rejected() {
    let mut ctx = context();
    assert_eq!(cast_vote(&mut ctx, 0, 5, NOW), Ok(()));
    let before = ctx.clone();
    assert_eq!(cast_vote(&mut ctx, 0, 5, NOW), Err(Rejection::Voting(VotingError::AlreadyVoted)));
    assert_eq!(
        cast_vote(&mut ctx, 1, 9, NOW + 100),
        Err(Rejection::Voting(VotingError::AlreadyVoted))
    );
    assert_eq!(ctx, before);
    assert_eq!(ctx.proposal.total_votes, 15);
}

#[test]
fn cast_vote_at_an_occupied_place_is_rejected() {
    let mut ctx = context();
    ctx.vote = Some(Vote {
        voter: voter(),
        proposal: proposal_key(),
        option_index: 0,
        vote_weight: 0,
        timestamp: 0,
        bump: 0,
        has_voted: false,
    });
    let before = ctx.clone();
    assert_eq!(cast_vote(&mut ctx, 0, 5, NOW), Err(Rejection::AccountInUse));
    assert_eq!(ctx, before);
}

#[test]
fn cast_vote_at_without_address_is_rejected() {
    let mut ctx = context();
    assert_eq!(cast_vote_at(&mut ctx, None, 0, 5, NOW), Err(Rejection::NoAddress));
    assert_eq!(ctx, context());
    assert_eq!(cast_vote_at(&mut ctx, some_address(), 0, 5, NOW), Ok(()));
    assert_eq!(ctx.vote.unwrap().bump, 249);
}

#[test]
fn cast_vote_is_blocked_by_the_emergency_gate() {
    let mut ctx = context();
    ctx.global_state.is_emergency_stopped = true;
    let before = ctx.clone();
    for (option, weight, now) in [(0u8, 5u64, NOW), (9, 0, NOW - 50), (1, 1, NOW + 3600)] {
        assert_eq!(
            cast_vote(&mut ctx, option, weight, now),
            Err(Rejection::Program(ErrorCode::EmergencyStopActive))
        );
        assert_eq!(ctx, before);
    }
}

#[test]
fn cast_vote_traps_tally_overflow() {
    let mut ctx = context();
    assert_eq!(
        cast_vote(&mut ctx, 0, u64::MAX - 9, NOW),
        Err(Rejection::Program(ErrorCode::VoteCountOverflow))
    );
    assert_eq!(ctx, context());
    assert_eq!(cast_vote(&mut ctx, 0, u64::MAX - 10, NOW), Ok(()));
    assert_eq!(ctx.proposal.total_votes, u64::MAX);
    assert_eq!(ctx.proposal.vote_counts, vec![u64::MAX - 6, 6, 0]);
}

#[test]
fn cast_vote_traps_a_single_tally_overflow() {
    let mut ctx = context();
    ctx.proposal.total_votes = 0;
    ctx.proposal.vote_counts = vec![u64::MAX, 0, 0];
    let before = ctx.clone();
    assert_eq!(
        cast_vote(&mut ctx, 0, 1, NOW),
        Err(Rejection::Program(ErrorCode::VoteCountOverflow))
    );
    assert_eq!(ctx, before);
}

#[test]
fn cast_vote_traps_counter_overflow() {
    let mut ctx = context();
    ctx.user_profile.votes_cast = u64::MAX;
    let before = ctx.clone();
    assert_eq!(
        cast_vote(&mut ctx, 0, 1, NOW),
        Err(Rejection::Program(ErrorCode::VoteCountOverflow))
    );
    assert_eq!(ctx, before);
    let mut ctx = context();
    ctx.global_state.total_votes = u64::MAX;
    let before = ctx.clone();
    assert_eq!(
        cast_vote(&mut ctx, 0, 1, NOW),
        Err(Rejection::Program(ErrorCode::VoteCountOverflow))
    );
    assert_eq!(ctx, before);
}

#[test]
fn cast_vote_reports_the_first_broken_rule() {
    let mut ctx = context();
    ctx.vote = Some(Vote {
        voter: voter(),
        proposal: proposal_key(),
        option_index: 0,
        vote_weight: 1,
        timestamp: NOW,
        bump: 0,
        has_voted: true,
    });
    assert_eq!(
        cast_vote(&mut ctx, 9, 0, NOW - 1),
        Err(Rejection::Voting(VotingError::ProposalNotActive))
    );
    assert_eq!(
        cast_vote(&mut ctx, 9, 0, NOW),
        Err(Rejection::Voting(VotingError::InvalidOptionIndex))
    );
    assert_eq!(
        cast_vote(&mut ctx, 0, 0, NOW),
        Err(Rejection::Voting(VotingError::InvalidVoteWeight))
    );
    assert_eq!(cast_vote(&mut ctx, 0, 1, NOW), Err(Rejection::Voting(VotingError::AlreadyVoted)));
}

#[test]
fn total_votes_is_the_sum_of_recorded_weights() {
    let mut ctx = context();
    ctx.proposal.total_votes = 0;
    ctx.proposal.vote_counts = vec![0, 0, 0];
    let ballots: [(u8, u8, u64); 5] = [(21, 0, 5), (22, 2, 7), (23, 0, 1), (24, 1, 30), (25, 2, 2)];
    let mut recorded: u64 = 0;
    for (who, option, weight) in ballots {
        ctx.voter = Address::new([who; 32]);
        ctx.vote = None;
        assert_eq!(cast_vote(&mut ctx, option, weight, NOW + 1), Ok(()));
        recorded += weight;
        assert_eq!(ctx.proposal.total_votes, recorded);
        assert_eq!(
            cast_vote(&mut ctx, option, weight, NOW + 1),
            Err(Rejection::Voting(VotingError::AlreadyVoted))
        );
        assert_eq!(ctx.proposal.total_votes, recorded);
    }
    assert_eq!(ctx.proposal.total_votes, 45);
    assert_eq!(ctx.proposal.vote_counts, vec![6, 30, 9]);
    assert_eq!(ctx.user_profile.votes_cast, 13);
    assert_eq!(ctx.global_state.total_votes, 25);
}
