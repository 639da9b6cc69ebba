pub mod address;
pub mod errors;
pub mod instructions;
pub mod laws;
pub mod pool;
pub mod program;
pub mod state;

use vstd::prelude::*;

use crate::address::Address;
use crate::errors::ErrorCode;
use crate::instructions::accept_admin_authority::{
    accept_admin_authority_outcome, AcceptAdminAuthority,
};
use crate::instructions::initialize::{initialize_outcome, Initialize};
use crate::instructions::initialize_lbp::{initialize_lbp_outcome, InitializeLbp};
use crate::instructions::move_to_refund_phase::{move_to_refund_phase_outcome, MoveToRefundPhase};
use crate::instructions::move_to_vesting_phase::{
    move_to_vesting_phase_outcome, MoveToVestingPhase,
};
use crate::instructions::nominate_new_admin_authority::{
    nominate_new_admin_authority_outcome, NominateNewAdminAuthority,
};
use crate::instructions::project_deposit::{project_deposit_outcome, ProjectDeposit};
use crate::instructions::project_refund::{project_refund_outcome, ProjectRefund};
use crate::instructions::set_whitelist_authority::{
    set_whitelist_authority_outcome, SetWhitelistAuthority,
};
use crate::instructions::user_deposit::{user_deposit_outcome, UserDeposit};
use crate::instructions::user_refund::{user_refund_outcome, UserRefund};
use crate::pool::PoolInitRequest;
use crate::program::Borgpad;
use crate::state::lbp::LbpInitializeData;

verus! {

/// Creates the registry; only the deployer may, and only once.
pub fn initialize(
    program: &mut Borgpad,
    ctx: &Initialize,
    admin_authority: Address,
    whitelist_authority: Address,
) -> (r: Result<(), ErrorCode>)
    requires
        old(program).wf(),
    ensures
        final(program).wf(),
        old(program).evolves_to(*final(program)),
        initialize_outcome(*old(program), *final(program), *ctx, admin_authority, whitelist_authority, r),
{
    instructions::initialize::handler(program, ctx, admin_authority, whitelist_authority)
}

/// Creates a campaign in FundCollection; admin only.
pub fn initialize_lbp(program: &mut Borgpad, ctx: &InitializeLbp, lbp_initialize: LbpInitializeData) -> (r:
    Result<(), ErrorCode>)
    requires
        old(program).wf(),
    ensures
        final(program).wf(),
        old(program).evolves_to(*final(program)),
        initialize_lbp_outcome(*old(program), *final(program), *ctx, lbp_initialize, r),
{
    instructions::initialize_lbp::handler(program, ctx, lbp_initialize)
}

/// Nominates the next admin, who takes over once it accepts; admin only.
pub fn nominate_new_admin_authority(
    program: &mut Borgpad,
    ctx: &NominateNewAdminAuthority,
    new_admin_authority: Address,
) -> (r: Result<(), ErrorCode>)
    requires
        old(program).wf(),
    ensures
        final(program).wf(),
        old(program).evolves_to(*final(program)),
        nominate_new_admin_authority_outcome(
            *old(program),
            *final(program),
            *ctx,
            new_admin_authority,
            r,
        ),
{
    instructions::nominate_new_admin_authority::handler(program, ctx, new_admin_authority)
}

/// The pending admin takes over.
pub fn accept_admin_authority(program: &mut Borgpad, ctx: &AcceptAdminAuthority) -> (r: Result<
    (),
    ErrorCode,
>)
    requires
        old(program).wf(),
    ensures
        final(program).wf(),
        old(program).evolves_to(*final(program)),
        accept_admin_authority_outcome(*old(program), *final(program), *ctx, r),
{
    instructions::accept_admin_authority::handler(program, ctx)
}

/// Replaces the whitelist authority; admin only.
pub fn set_whitelist_authority(
    program: &mut Borgpad,
    ctx: &SetWhitelistAuthority,
    new_whitelist_authority: Address,
) -> (r: Result<(), ErrorCode>)
    requires
        old(program).wf(),
    ensures
        final(program).wf(),
        old(program).evolves_to(*final(program)),
        set_whitelist_authority_outcome(
            *old(program),
            *final(program),
            *ctx,
            new_whitelist_authority,
            r,
        ),
{
    instructions::set_whitelist_authority::handler(program, ctx, new_whitelist_authority)
}

/// Moves a campaign that fell short of its minimum to Refund; admin only.
pub fn move_to_refund_phase(program: &mut Borgpad, ctx: &MoveToRefundPhase) -> (r: Result<
    (),
    ErrorCode,
>)
    requires
        old(program).wf(),
    ensures
        final(program).wf(),
        old(program).evolves_to(*final(program)),
        move_to_refund_phase_outcome(*old(program), *final(program), *ctx, r),
{
    instructions::move_to_refund_phase::handler(program, ctx)
}

/// Moves a funded campaign that reached its minimum to Vesting at time `now`, and returns the
/// call that creates its pool; admin only.
pub fn move_to_vesting_phase(program: &mut Borgpad, ctx: &MoveToVestingPhase, now: u64) -> (r:
    Result<PoolInitRequest, ErrorCode>)
    requires
        old(program).wf(),
    ensures
        final(program).wf(),
        old(program).evolves_to(*final(program)),
        move_to_vesting_phase_outcome(*old(program), *final(program), *ctx, now, r),
{
    instructions::move_to_vesting_phase::handler(program, ctx, now)
}

/// A whitelisted user deposits `amount` of the raised asset at time `now`; returns the identity
/// of the position's credential.
pub fn user_deposit(program: &mut Borgpad, ctx: &UserDeposit, amount: u64, now: u64) -> (r: Result<
    u64,
    ErrorCode,
>)
    requires
        old(program).wf(),
        old(program).next_position_mint < u64::MAX,
    ensures
        final(program).wf(),
        old(program).evolves_to(*final(program)),
        user_deposit_outcome(*old(program), *final(program), *ctx, amount, now, r),
{
    instructions::user_deposit::handler(program, ctx, amount, now)
}

/// A user redeems a position of a campaign in Refund; returns the amount paid back.
pub fn user_refund(program: &mut Borgpad, ctx: &UserRefund) -> (r: Result<u64, ErrorCode>)
    requires
        old(program).wf(),
    ensures
        final(program).wf(),
        old(program).evolves_to(*final(program)),
        user_refund_outcome(*old(program), *final(program), *ctx, r),
{
    instructions::user_refund::handler(program, ctx)
}

/// The project supplies the whole launched amount at time `now`; returns the identity of its
/// position's credential.
pub fn project_deposit(program: &mut Borgpad, ctx: &ProjectDeposit, amount: u64, now: u64) -> (r:
    Result<u64, ErrorCode>)
    requires
        old(program).wf(),
        old(program).next_position_mint < u64::MAX,
    ensures
        final(program).wf(),
        old(program).evolves_to(*final(program)),
        project_deposit_outcome(*old(program), *final(program), *ctx, amount, now, r),
{
    instructions::project_deposit::handler(program, ctx, amount, now)
}

/// The project takes back its launched asset from a campaign in Refund; returns the amount.
pub fn project_refund(program: &mut Borgpad, ctx: &ProjectRefund) -> (r: Result<u64, ErrorCode>)
    requires
        old(program).wf(),
    ensures
        final(program).wf(),
        old(program).evolves_to(*final(program)),
        project_refund_outcome(*old(program), *final(program), *ctx, r),
{
    instructions::project_refund::handler(program, ctx)
}

} // verus!
