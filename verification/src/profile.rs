//! User profiles: one for each identity.

use crate::address::{
    bump_of, derived_view, program_address, user_profile_address, user_profile_seeds, Address,
    Derived,
};
use crate::error::{ErrorCode, Rejection};
use crate::state::{stored_len, GlobalState, UserProfile, UserProfileView, MAX_USERNAME_LEN};
use vstd::prelude::*;

verus! {

/// What `initialize_user_profile` works on: the caller, the place of their
/// profile, and the registry.
#[derive(Clone, Debug, PartialEq, Eq)]
pub struct InitializeUserProfile {
    pub program_id: Address,
    pub authority: Address,
    pub user_profile: Option<UserProfile>,
    pub global_state: GlobalState,
}

/// The profile as it is created: nothing counted, no reputation.
pub open spec fn new_profile(authority: Seq<u8>, username: Seq<char>, now: i64, bump: u8)
    -> UserProfileView {
    UserProfileView {
        authority,
        username,
        proposals_created: 0,
        votes_cast: 0,
        reputation: 0,
        created_at: now,
        bump,
    }
}

/// Why a profile cannot be created, if it cannot. In this order: the
/// identity has a profile already; no address was derived; the username is
/// too long; the registry's count of users is at its maximum.
pub open spec fn initialize_user_profile_rejection(
    pre: InitializeUserProfile,
    derived: Option<(Seq<u8>, u8)>,
    username: Seq<char>,
) -> Option<Rejection> {
    if pre.user_profile is Some {
        Some(Rejection::AccountInUse)
    } else if derived is None {
        Some(Rejection::NoAddress)
    } else if stored_len(username) > MAX_USERNAME_LEN {
        Some(Rejection::UsernameTooLong)
    } else if pre.global_state.total_users == u64::MAX {
        Some(Rejection::Program(ErrorCode::VoteCountOverflow))
    } else {
        None
    }
}

/// The effect of creating a profile: the place holds the new profile, and
/// the registry counts one user more.
pub open spec fn initialize_user_profile_effect(
    pre: InitializeUserProfile,
    post: InitializeUserProfile,
    derived: Option<(Seq<u8>, u8)>,
    username: Seq<char>,
    now: i64,
) -> bool {
    &&& post.program_id == pre.program_id
    &&& post.authority == pre.authority
    &&& post.user_profile matches Some(created) && created@ == new_profile(
        pre.authority@,
        username,
        now,
        bump_of(derived),
    )
    &&& post.global_state == (GlobalState {
        total_users: (pre.global_state.total_users + 1) as u64,
        ..pre.global_state
    })
}

/// Creates the caller's profile, given the address that was derived for it.
pub fn initialize_user_profile_at(
    ctx: &mut InitializeUserProfile,
    derived: Option<Derived>,
    username: String,
    now: i64,
) -> (r: Result<(), Rejection>)
    ensures
        r is Ok <==> initialize_user_profile_rejection(
            *old(ctx),
            derived_view(derived),
            username@,
        ) is None,
        r matches Err(e) ==> initialize_user_profile_rejection(
            *old(ctx),
            derived_view(derived),
            username@,
        ) == Some(e) && *final(ctx) == *old(ctx),
        r is Ok ==> initialize_user_profile_effect(
            *old(ctx),
            *final(ctx),
            derived_view(derived),
            username@,
            now,
        ),
        r is Ok ==> (final(ctx).user_profile matches Some(created) && created@.wf()),
{
    if ctx.user_profile.is_some() {
        return Err(Rejection::AccountInUse);
    }
    let found = match derived {
        Some(found) => found,
        None => {
            return Err(Rejection::NoAddress);
        },
    };
    if username.as_str().as_bytes().len() > MAX_USERNAME_LEN {
        return Err(Rejection::UsernameTooLong);
    }
    if ctx.global_state.total_users == u64::MAX {
        return Err(Rejection::Program(ErrorCode::VoteCountOverflow));
    }
    let created = UserProfile {
        authority: ctx.authority,
        username,
        proposals_created: 0,
        votes_cast: 0,
        reputation: 0,
        created_at: now,
        bump: found.bump,
    };
    ctx.user_profile = Some(created);
    ctx.global_state.total_users = ctx.global_state.total_users + 1;
    Ok(())
}

/// Creates the caller's profile and counts the user in the registry. Fails
/// where the caller has a profile already.
pub fn initialize_user_profile(ctx: &mut InitializeUserProfile, username: String, now: i64) -> (r:
    Result<(), Rejection>)
    ensures
        r is Ok <==> initialize_user_profile_rejection(
            *old(ctx),
            program_address(user_profile_seeds(old(ctx).authority@), old(ctx).program_id@),
            username@,
        ) is None,
        r matches Err(e) ==> initialize_user_profile_rejection(
            *old(ctx),
            program_address(user_profile_seeds(old(ctx).authority@), old(ctx).program_id@),
            username@,
        ) == Some(e) && *final(ctx) == *old(ctx),
        r is Ok ==> initialize_user_profile_effect(
            *old(ctx),
            *final(ctx),
            program_address(user_profile_seeds(old(ctx).authority@), old(ctx).program_id@),
            username@,
            now,
        ),
        r is Ok ==> (final(ctx).user_profile matches Some(created) && created@.wf()),
{
    let derived = user_profile_address(&ctx.program_id, &ctx.authority);
    initialize_user_profile_at(ctx, derived, username, now)
}

} // verus!
