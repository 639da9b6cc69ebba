use vstd::prelude::*;

use crate::address::Address;
use crate::errors::ErrorCode;
use crate::pool::{initialize_pool_cpi, PoolInitRequest};
use crate::program::{Borgpad, Campaign};
use crate::state::lbp::{Lbp, Phase};

verus! {

broadcast use vstd::std_specs::hash::group_hash_axioms;

/// The admin asking for a phase change, the campaign and its two assets.
#[derive(Clone, Copy, Debug)]
pub struct MoveToVestingPhase {
    pub admin_authority: Address,
    pub lbp: u64,
    pub launched_token_mint: Address,
    pub raised_token_mint: Address,
}

pub open spec fn move_to_vesting_phase_error(p: Borgpad, ctx: MoveToVestingPhase) -> Option<
    ErrorCode,
> {
    let c = p.campaign(ctx.lbp);
    if p.admin_error(ctx.admin_authority) is Some {
        p.admin_error(ctx.admin_authority)
    } else if !p.has_lbp(ctx.lbp) {
        Some(ErrorCode::AccountNotInitialized)
    } else if c.lbp.launched_token_mint != ctx.launched_token_mint {
        Some(ErrorCode::InvalidMint)
    } else if c.lbp.raised_token_mint != ctx.raised_token_mint {
        Some(ErrorCode::InvalidMint)
    } else if c.lbp.phase != Phase::FundCollection || c.raised_token_amount
        < c.lbp.raised_token_min_cap || c.launched_token_amount != c.lbp.launched_token_cap {
        Some(ErrorCode::InvalidPhaseChange)
    } else {
        None
    }
}

/// The campaign, still collecting, at or above its minimum and fully funded by the project,
/// moves to Vesting: the raised custody balance of this moment is frozen as the raised amount,
/// the vesting clock starts now, and the call that creates the pool is returned.
pub open spec fn move_to_vesting_phase_outcome(
    p: Borgpad,
    q: Borgpad,
    ctx: MoveToVestingPhase,
    now: u64,
    r: Result<PoolInitRequest, ErrorCode>,
) -> bool {
    match r {
        Ok(request) => {
            let c = p.campaign(ctx.lbp);
            let vested = Lbp {
                phase: Phase::Vesting,
                raised_token_cap: c.raised_token_amount,
                vesting_start_time: now,
                ..c.lbp
            };
            &&& move_to_vesting_phase_error(p, ctx) is None
            &&& q.lbps@ == p.lbps@.insert(ctx.lbp, Campaign { lbp: vested, ..c })
            &&& request.describes(vested)
            &&& p.same_but_lbps(q)
        },
        Err(e) => move_to_vesting_phase_error(p, ctx) == Some(e) && q == p,
    }
}

/// On `Ok` the returned call must be dispatched within the same transaction; if the pool
/// protocol refuses it, the whole transaction, this phase change included, is discarded.
pub fn handler(program: &mut Borgpad, ctx: &MoveToVestingPhase, now: u64) -> (r: Result<
    PoolInitRequest,
    ErrorCode,
>)
    requires
        old(program).wf(),
    ensures
        final(program).wf(),
        old(program).evolves_to(*final(program)),
        move_to_vesting_phase_outcome(*old(program), *final(program), *ctx, now, r),
{
    let config = match program.config {
        Some(c) => c,
        None => {
            return Err(ErrorCode::AccountNotInitialized);
        },
    };
    if ctx.admin_authority != config.admin_authority {
        return Err(ErrorCode::NotAdminAuthority);
    }
    let campaign = match program.lbps.get(&ctx.lbp) {
        Some(c) => *c,
        None => {
            return Err(ErrorCode::AccountNotInitialized);
        },
    };
    if campaign.lbp.launched_token_mint != ctx.launched_token_mint {
        return Err(ErrorCode::InvalidMint);
    }
    if campaign.lbp.raised_token_mint != ctx.raised_token_mint {
        return Err(ErrorCode::InvalidMint);
    }
    if campaign.lbp.phase != Phase::FundCollection || campaign.raised_token_amount
        < campaign.lbp.raised_token_min_cap || campaign.launched_token_amount
        != campaign.lbp.launched_token_cap {
        return Err(ErrorCode::InvalidPhaseChange);
    }
    let vested = Lbp {
        phase: Phase::Vesting,
        raised_token_cap: campaign.raised_token_amount,
        vesting_start_time: now,
        ..campaign.lbp
    };
    program.lbps.insert(ctx.lbp, Campaign { lbp: vested, ..campaign });
    proof {
        let p = *old(program);
        let q = *program;
        assert forall|i: int| 0 <= i < q.positions@.len() implies {
            &&& #[trigger] q.positions@[i].position.mint < q.next_position_mint
            &&& q.lbps@.contains_key(q.positions@[i].position.lbp)
        } by {
            assert(p.positions@[i].position.mint < p.next_position_mint);
            assert(p.lbps@.contains_key(p.positions@[i].position.lbp));
        }
    }
    Ok(initialize_pool_cpi(&vested))
}

} // verus!
