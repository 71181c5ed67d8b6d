use voting_d_app::{
    cast_vote, create_proposal, emergency_stop, finalize_proposal, initialize,
    initialize_user_profile, proposal_address, resume_operations, Address, CastVote,
    CreateProposal, EmergencyStop, ErrorCode, FinalizeProposal, Initialize,
    InitializeUserProfile, Rejection, ResumeOperations, VotingError,
};

const NOW: i64 = 1_700_000_000;

fn id() -> Address {
    Address::new([11u8; 32])
}

#[test]
fn a_proposal_from_creation_to_finalization() {
    let a = Address::new([65u8; 32]);
    let b = Address::new([66u8; 32]);
    let c = Address::new([67u8; 32]);

    let mut init = Initialize { program_id: id(), authority: a, global_state: None };
    assert_eq!(initialize(&mut init), Ok(()));
    let mut registry = init.global_state.unwrap();

    let mut join_b = InitializeUserProfile {
        program_id: id(),
        authority: b,
        user_profile: None,
        global_state: registry,
    };
    assert_eq!(initialize_user_profile(&mut join_b, String::from("b"), NOW), Ok(()));
    registry = join_b.global_state;
    let profile_b = join_b.user_profile.unwrap();

    let mut join_c = InitializeUserProfile {
        program_id: id(),
        authority: c,
        user_profile: None,
        global_state: registry,
    };
    assert_eq!(initialize_user_profile(&mut join_c, String::from("c"), NOW), Ok(()));
    registry = join_c.global_state;
    let profile_c = join_c.user_profile.unwrap();
    assert_eq!(registry.total_users, 2);

    let key = proposal_address(&id(), &b, registry.total_proposals).unwrap().address;
    let mut create = CreateProposal {
        program_id: id(),
        authority: b,
        proposal: None,
        global_state: registry,
        user_profile: profile_b,
    };
    let r = create_proposal(
        &mut create,
        String::from("Question"),
        String::from("Shall we?"),
        vec![String::from("Yes"), String::from("No")],
        NOW,
        NOW + 3600,
        NOW,
    );
    assert_eq!(r, Ok(()));
    registry = create.global_state;
    assert_eq!(registry.total_proposals, 1);
    assert_eq!(create.user_profile.proposals_created, 1);
    let proposal = create.proposal.unwrap();
    assert_eq!(proposal.vote_counts, vec![0, 0]);

    let mut vote = CastVote {
        program_id: id(),
        voter: c,
        proposal_key: key,
        proposal,
        vote: None,
        user_profile: profile_c,
        global_state: registry,
    };
    assert_eq!(cast_vote(&mut vote, 0, 5, NOW + 1), Ok(()));
    assert_eq!(
        cast_vote(&mut vote, 0, 5, NOW + 2),
        Err(Rejection::Voting(VotingError::AlreadyVoted))
    );
    assert_eq!(
        cast_vote(&mut vote, 1, 3, NOW + 2),
        Err(Rejection::Voting(VotingError::AlreadyVoted))
    );
    assert_eq!(vote.global_state.total_votes, 1);
    assert_eq!(vote.user_profile.votes_cast, 1);
    assert_eq!(vote.vote.unwrap().proposal, key);
    assert_eq!(vote.vote.unwrap().voter, c);

    let mut finish = FinalizeProposal { authority: b, proposal: vote.proposal };
    assert_eq!(
        finalize_proposal(&mut finish, NOW + 3600),
        Err(Rejection::Program(ErrorCode::VotingStillActive))
    );
    assert_eq!(finalize_proposal(&mut finish, NOW + 3601), Ok(()));
    assert_eq!(finish.proposal.vote_counts, vec![5, 0]);
    assert_eq!(finish.proposal.total_votes, 5);
    assert!(!finish.proposal.is_active);
    assert_eq!(finish.proposal.finalized_at, Some(NOW + 3601));
    assert_eq!(
        finalize_proposal(&mut finish, NOW + 3602),
        Err(Rejection::Program(ErrorCode::ProposalAlreadyFinalized))
    );
}

#[test]
fn the_gate_stops_and_resumes_creation() {
    let a = Address::new([65u8; 32]);
    let b = Address::new([66u8; 32]);
    let mut init = Initialize { program_id: id(), authority: a, global_state: None };
    assert_eq!(initialize(&mut init), Ok(()));
    let mut join = InitializeUserProfile {
        program_id: id(),
        authority: b,
        user_profile: None,
        global_state: init.global_state.unwrap(),
    };
    assert_eq!(initialize_user_profile(&mut join, String::from("b"), NOW), Ok(()));

    let mut stop = EmergencyStop { authority: b, global_state: join.global_state };
    assert_eq!(
        emergency_stop(&mut stop, NOW),
        Err(Rejection::Program(ErrorCode::UnauthorizedAccess))
    );
    stop.authority = a;
    assert_eq!(emergency_stop(&mut stop, NOW), Ok(()));

    let mut create = CreateProposal {
        program_id: id(),
        authority: b,
        proposal: None,
        global_state: stop.global_state,
        user_profile: join.user_profile.unwrap(),
    };
    let ask = |ctx: &mut CreateProposal| {
        create_proposal(
            ctx,
            String::from("Question"),
            String::from("Shall we?"),
            vec![String::from("Yes"), String::from("No")],
            NOW,
            NOW + 3600,
            NOW,
        )
    };
    assert_eq!(ask(&mut create), Err(Rejection::Program(ErrorCode::EmergencyStopActive)));
    assert!(create.proposal.is_none());

    let mut resume = ResumeOperations { authority: b, global_state: create.global_state };
    assert_eq!(
        resume_operations(&mut resume),
        Err(Rejection::Program(ErrorCode::UnauthorizedAccess))
    );
    resume.authority = a;
    assert_eq!(resume_operations(&mut resume), Ok(()));
    assert_eq!(resume.global_state.emergency_stop_time, None);

    create.global_state = resume.global_state;
    assert_eq!(ask(&mut create), Ok(()));
    assert!(create.proposal.is_some());
}
