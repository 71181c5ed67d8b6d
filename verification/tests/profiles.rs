use voting_d_app::{
    initialize_user_profile, initialize_user_profile_at, user_profile_address, Address, Derived,
    ErrorCode, GlobalState, InitializeUserProfile, Rejection, UserProfile,
};

const NOW: i64 = 1_700_000_000;

fn id() -> Address {
    Address::new([11u8; 32])
}

fn user() -> Address {
    Address::new([4u8; 32])
}

fn context() -> InitializeUserProfile {
    InitializeUserProfile {
        program_id: id(),
        authority: user(),
        user_profile: None,
        global_state: GlobalState {
            authority: Address::new([1u8; 32]),
            total_proposals: 1,
            total_votes: 20,
            total_users: 3,
            minimum_voting_period: 3600,
            maximum_voting_period: 604800,
            is_emergency_stopped: false,
            emergency_stop_time: None,
            bump: 255,
        },
    }
}

#[test]
fn initialize_user_profile_creates_the_profile() {
    let mut ctx = context();
    assert_eq!(initialize_user_profile(&mut ctx, String::from("dana"), NOW), Ok(()));
    let bump = user_profile_address(&id(), &user()).unwrap().bump;
    let mut expected = context();
    expected.user_profile = Some(UserProfile {
        authority: user(),
        username: String::from("dana"),
        proposals_created: 0,
        votes_cast: 0,
        reputation: 0,
        created_at: NOW,
        bump,
    });
    expected.global_state.total_users = 4;
    assert_eq!(ctx, expected);
}

#[test]
fn initialize_user_profile_twice_is_rejected() {
    let mut ctx = context();
    assert_eq!(initialize_user_profile(&mut ctx, String::from("dana"), NOW), Ok(()));
    let before = ctx.clone();
    assert_eq!(
        initialize_user_profile(&mut ctx, String::from("other"), NOW + 1),
        Err(Rejection::AccountInUse)
    );
    assert_eq!(ctx, before);
}

#[test]
fn initialize_user_profile_username_limit_is_50_bytes() {
    let mut ctx = context();
    assert_eq!(initialize_user_profile(&mut ctx, "u".repeat(50), NOW), Ok(()));
    let mut ctx = context();
    assert_eq!(
        initialize_user_profile(&mut ctx, "u".repeat(51), NOW),
        Err(Rejection::UsernameTooLong)
    );
    assert_eq!(ctx, context());
    let mut ctx = context();
    assert_eq!(initialize_user_profile(&mut ctx, String::new(), NOW), Ok(()));
}

#[test]
fn initialize_user_profile_traps_counter_overflow() {
    let mut ctx = context();
    ctx.global_state.total_users = u64::MAX;
    let before = ctx.clone();
    assert_eq!(
        initialize_user_profile(&mut ctx, String::from("dana"), NOW),
        Err(Rejection::Program(ErrorCode::VoteCountOverflow))
    );
    assert_eq!(ctx, before);
}

#[test]
fn initialize_user_profile_at_without_address_is_rejected() {
    let mut ctx = context();
    assert_eq!(
        initialize_user_profile_at(&mut ctx, None, String::from("dana"), NOW),
        Err(Rejection::NoAddress)
    );
    assert_eq!(ctx, context());
    let derived = Derived { address: Address::new([6u8; 32]), bump: 199 };
    assert_eq!(
        initialize_user_profile_at(&mut ctx, Some(derived), String::from("dana"), NOW),
        Ok(())
    );
    assert_eq!(ctx.user_profile.unwrap().bump, 199);
}

#[test]
fn initialize_user_profile_ignores_the_emergency_gate() {
    let mut ctx = context();
    ctx.global_state.is_emergency_stopped = true;
    assert_eq!(initialize_user_profile(&mut ctx, String::from("dana"), NOW), Ok(()));
    assert_eq!(ctx.global_state.total_users, 4);
    assert!(ctx.global_state.is_emergency_stopped);
}
