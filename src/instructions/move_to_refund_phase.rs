use vstd::prelude::*;

use crate::address::Address;
use crate::errors::ErrorCode;
use crate::program::{Borgpad, Campaign};
use crate::state::lbp::{Lbp, Phase};

verus! {

broadcast use vstd::std_specs::hash::group_hash_axioms;

/// The admin asking for a phase change, the campaign and its two assets.
#[derive(Clone, Copy, Debug)]
pub struct MoveToRefundPhase {
    pub admin_authority: Address,
    pub lbp: u64,
    pub launched_token_mint: Address,
    pub raised_token_mint: Address,
}

pub open spec fn move_to_refund_phase_error(p: Borgpad, ctx: MoveToRefundPhase) -> Option<
    ErrorCode,
> {
    let c = p.campaign(ctx.lbp);
    if p.admin_error(ctx.admin_authority) is Some {
        p.admin_error(ctx.admin_authority)
    } else if !p.has_lbp(ctx.lbp) {
        Some(ErrorCode::AccountNotInitialized)
    } else if c.lbp.launched_token_mint != ctx.launched_token_mint {
        Some(ErrorCode::InvalidMint)
    } else if c.lbp.raised_token_mint != ctx.raised_token_mint {
        Some(ErrorCode::InvalidMint)
    } else if c.lbp.phase != Phase::FundCollection || c.raised_token_amount
        >= c.lbp.raised_token_min_cap {
        Some(ErrorCode::InvalidPhaseChange)
    } else {
        None
    }
}

/// The campaign, still collecting and short of its minimum, moves to Refund; nothing else
/// changes.
pub open spec fn move_to_refund_phase_outcome(
    p: Borgpad,
    q: Borgpad,
    ctx: MoveToRefundPhase,
    r: Result<(), ErrorCode>,
) -> bool {
    match r {
        Ok(()) => {
            let c = p.campaign(ctx.lbp);
            &&& move_to_refund_phase_error(p, ctx) is None
            &&& q.lbps@ == p.lbps@.insert(
                ctx.lbp,
                Campaign { lbp: Lbp { phase: Phase::Refund, ..c.lbp }, ..c },
            )
            &&& p.same_but_lbps(q)
        },
        Err(e) => move_to_refund_phase_error(p, ctx) == Some(e) && q == p,
    }
}

pub fn handler(program: &mut Borgpad, ctx: &MoveToRefundPhase) -> (r: Result<(), ErrorCode>)
    requires
        old(program).wf(),
    ensures
        final(program).wf(),
        old(program).evolves_to(*final(program)),
        move_to_refund_phase_outcome(*old(program), *final(program), *ctx, r),
{
    let config = match program.config {
        Some(c) => c,
        None => {
            return Err(ErrorCode::AccountNotInitialized);
        },
    };
    if ctx.admin_authority != config.admin_authority {
        return Err(ErrorCode::NotAdminAuthority);
    }
    let campaign = match program.lbps.get(&ctx.lbp) {
        Some(c) => *c,
        None => {
            return Err(ErrorCode::AccountNotInitialized);
        },
    };
    if campaign.lbp.launched_token_mint != ctx.launched_token_mint {
        return Err(ErrorCode::InvalidMint);
    }
    if campaign.lbp.raised_token_mint != ctx.raised_token_mint {
        return Err(ErrorCode::InvalidMint);
    }
    if campaign.lbp.phase != Phase::FundCollection || campaign.raised_token_amount
        >= campaign.lbp.raised_token_min_cap {
        return Err(ErrorCode::InvalidPhaseChange);
    }
    let updated = Campaign { lbp: Lbp { phase: Phase::Refund, ..campaign.lbp }, ..campaign };
    program.lbps.insert(ctx.lbp, updated);
    proof {
        let p = *old(program);
        let q = *program;
        assert forall|i: int| 0 <= i < q.positions@.len() implies {
            &&& #[trigger] q.positions@[i].position.mint < q.next_position_mint
            &&& q.lbps@.contains_key(q.positions@[i].position.lbp)
        } by {
            assert(p.positions@[i].position.mint < p.next_position_mint);
            assert(p.lbps@.contains_key(p.positions@[i].position.lbp));
        }
    }
    Ok(())
}

} // verus!
