//! The global registry: its creation and the emergency gate.

use crate::address::{
    bump_of, derived_view, global_state_address, global_state_seeds, program_address, Address, Derived,
};
use crate::error::{ErrorCode, Rejection};
use crate::state::{GlobalState, MAXIMUM_VOTING_PERIOD, MINIMUM_VOTING_PERIOD};
use vstd::prelude::*;

verus! {

/// What `initialize` works on: the caller and the place of the registry,
/// which holds a record where one exists already.
#[derive(Clone, Copy, Debug, PartialEq, Eq)]
pub struct Initialize {
    pub program_id: Address,
    pub authority: Address,
    pub global_state: Option<GlobalState>,
}

/// What `emergency_stop` works on: the caller and the registry.
#[derive(Clone, Copy, Debug, PartialEq, Eq)]
pub struct EmergencyStop {
    pub authority: Address,
    pub global_state: GlobalState,
}

/// What `resume_operations` works on: the caller and the registry.
#[derive(Clone, Copy, Debug, PartialEq, Eq)]
pub struct ResumeOperations {
    pub authority: Address,
    pub global_state: GlobalState,
}

/// The registry as it is created: no proposal, vote or user counted, the
/// gate open, the declared voting periods of one hour and one week.
pub open spec fn new_registry(authority: Address, bump: u8) -> GlobalState {
    GlobalState {
        authority,
        total_proposals: 0,
        total_votes: 0,
        total_users: 0,
        minimum_voting_period: MINIMUM_VOTING_PERIOD,
        maximum_voting_period: MAXIMUM_VOTING_PERIOD,
        is_emergency_stopped: false,
        emergency_stop_time: None,
        bump,
    }
}

/// Why the registry cannot be created, if it cannot: one exists already, or
/// no address was derived for it.
pub open spec fn initialize_rejection(pre: Initialize, derived: Option<(Seq<u8>, u8)>) -> Option<
    Rejection,
> {
    if pre.global_state is Some {
        Some(Rejection::AccountInUse)
    } else if derived is None {
        Some(Rejection::NoAddress)
    } else {
        None
    }
}

/// The effect of creating the registry: the place holds the new registry,
/// owned by the caller, with the derived bump.
pub open spec fn initialize_effect(
    pre: Initialize,
    post: Initialize,
    derived: Option<(Seq<u8>, u8)>,
) -> bool {
    &&& derived is Some
    &&& post.program_id == pre.program_id
    &&& post.authority == pre.authority
    &&& post.global_state == Some(new_registry(pre.authority, bump_of(derived)))
}

/// Creates the registry, given the address that was derived for it.
pub fn initialize_at(ctx: &mut Initialize, derived: Option<Derived>) -> (r: Result<(), Rejection>)
    ensures
        r is Ok <==> initialize_rejection(*old(ctx), derived_view(derived)) is None,
        r matches Err(e) ==> initialize_rejection(*old(ctx), derived_view(derived)) == Some(e)
            && *final(ctx) == *old(ctx),
        r is Ok ==> initialize_effect(*old(ctx), *final(ctx), derived_view(derived)),
{
    if ctx.global_state.is_some() {
        return Err(Rejection::AccountInUse);
    }
    match derived {
        None => Err(Rejection::NoAddress),
        Some(found) => {
            ctx.global_state = Some(
                GlobalState {
                    authority: ctx.authority,
                    total_proposals: 0,
                    total_votes: 0,
                    total_users: 0,
                    minimum_voting_period: MINIMUM_VOTING_PERIOD,
                    maximum_voting_period: MAXIMUM_VOTING_PERIOD,
                    is_emergency_stopped: false,
                    emergency_stop_time: None,
                    bump: found.bump,
                },
            );
            Ok(())
        },
    }
}

/// Creates the registry with the caller as its authority. Fails where the
/// registry exists already.
pub fn initialize(ctx: &mut Initialize) -> (r: Result<(), Rejection>)
    ensures
        r is Ok <==> initialize_rejection(
            *old(ctx),
            program_address(global_state_seeds(), old(ctx).program_id@),
        ) is None,
        r matches Err(e) ==> initialize_rejection(
            *old(ctx),
            program_address(global_state_seeds(), old(ctx).program_id@),
        ) == Some(e) && *final(ctx) == *old(ctx),
        r is Ok ==> initialize_effect(
            *old(ctx),
            *final(ctx),
            program_address(global_state_seeds(), old(ctx).program_id@),
        ),
{
    let derived = global_state_address(&ctx.program_id);
    initialize_at(ctx, derived)
}

/// The rejection of a caller who is not the registry's authority; none for
/// the authority.
pub open spec fn gate_rejection(caller: Address, registry: GlobalState) -> Option<Rejection> {
    if caller@ == registry.authority@ {
        None
    } else {
        Some(Rejection::Program(ErrorCode::UnauthorizedAccess))
    }
}

/// Closes the emergency gate and records the time. Only the registry's
/// authority may do so.
pub fn emergency_stop(ctx: &mut EmergencyStop, now: i64) -> (r: Result<(), Rejection>)
    ensures
        r is Ok <==> gate_rejection(old(ctx).authority, old(ctx).global_state) is None,
        r matches Err(e) ==> gate_rejection(old(ctx).authority, old(ctx).global_state) == Some(e)
            && *final(ctx) == *old(ctx),
        r is Ok ==> final(ctx).authority == old(ctx).authority && final(ctx).global_state == (
        GlobalState {
            is_emergency_stopped: true,
            emergency_stop_time: Some(now),
            ..old(ctx).global_state
        }),
{
    if !ctx.authority.same(&ctx.global_state.authority) {
        return Err(Rejection::Program(ErrorCode::UnauthorizedAccess));
    }
    ctx.global_state.is_emergency_stopped = true;
    ctx.global_state.emergency_stop_time = Some(now);
    Ok(())
}

/// Opens the emergency gate and clears the recorded time. Only the
/// registry's authority may do so.
pub fn resume_operations(ctx: &mut ResumeOperations) -> (r: Result<(), Rejection>)
    ensures
        r is Ok <==> gate_rejection(old(ctx).authority, old(ctx).global_state) is None,
        r matches Err(e) ==> gate_rejection(old(ctx).authority, old(ctx).global_state) == Some(e)
            && *final(ctx) == *old(ctx),
        r is Ok ==> final(ctx).authority == old(ctx).authority && final(ctx).global_state == (
        GlobalState {
            is_emergency_stopped: false,
            emergency_stop_time: None,
            ..old(ctx).global_state
        }),
{
    if !ctx.authority.same(&ctx.global_state.authority) {
        return Err(Rejection::Program(ErrorCode::UnauthorizedAccess));
    }
    ctx.global_state.is_emergency_stopped = false;
    ctx.global_state.emergency_stop_time = None;
    Ok(())
}

} // verus!
