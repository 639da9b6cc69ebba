use vstd::prelude::*;

use crate::address::Address;
use crate::errors::ErrorCode;
use crate::program::{has_position, Borgpad, Campaign};
use crate::state::lbp::Phase;

verus! {

broadcast use vstd::std_specs::hash::group_hash_axioms;

/// The project asking for its refund, the campaign, its position's credential and the
/// launched asset.
#[derive(Clone, Copy, Debug)]
pub struct ProjectRefund {
    pub project: Address,
    pub lbp: u64,
    pub position_mint: u64,
    pub launched_token_mint: Address,
}

pub open spec fn project_refund_error(p: Borgpad, ctx: ProjectRefund) -> Option<ErrorCode> {
    let c = p.campaign(ctx.lbp);
    if p.config is None {
        Some(ErrorCode::AccountNotInitialized)
    } else if !p.has_lbp(ctx.lbp) {
        Some(ErrorCode::AccountNotInitialized)
    } else if ctx.project != c.lbp.project {
        Some(ErrorCode::NotProject)
    } else if c.lbp.launched_token_mint != ctx.launched_token_mint {
        Some(ErrorCode::InvalidMint)
    } else if c.lbp.phase != Phase::Refund {
        Some(ErrorCode::UnauthorisedOperationInCurrentPhase)
    } else if !c.has_project_position(ctx.position_mint) || c.project_position->0.holder
        != ctx.project {
        Some(ErrorCode::DoesNotHoldPosition)
    } else {
        None
    }
}

/// The project's position is closed, its credential burnt, and the launched custody goes back
/// to the project; the amount returned is the one the position recorded.
pub open spec fn project_refund_outcome(
    p: Borgpad,
    q: Borgpad,
    ctx: ProjectRefund,
    r: Result<u64, ErrorCode>,
) -> bool {
    match r {
        Ok(amount) => {
            let c = p.campaign(ctx.lbp);
            &&& project_refund_error(p, ctx) is None
            &&& amount == c.project_position->0.position.amount
            &&& q.lbps@ == p.lbps@.insert(
                ctx.lbp,
                Campaign { launched_token_amount: 0, project_position: None, ..c },
            )
            &&& p.position_open(ctx.lbp, ctx.position_mint)
            &&& !q.position_open(ctx.lbp, ctx.position_mint)
            &&& p.same_but_lbps(q)
        },
        Err(e) => project_refund_error(p, ctx) == Some(e) && q == p,
    }
}

pub fn handler(program: &mut Borgpad, ctx: &ProjectRefund) -> (r: Result<u64, ErrorCode>)
    requires
        old(program).wf(),
    ensures
        final(program).wf(),
        old(program).evolves_to(*final(program)),
        project_refund_outcome(*old(program), *final(program), *ctx, r),
{
    if program.config.is_none() {
        return Err(ErrorCode::AccountNotInitialized);
    }
    let campaign = match program.lbps.get(&ctx.lbp) {
        Some(c) => *c,
        None => {
            return Err(ErrorCode::AccountNotInitialized);
        },
    };
    if ctx.project != campaign.lbp.project {
        return Err(ErrorCode::NotProject);
    }
    if campaign.lbp.launched_token_mint != ctx.launched_token_mint {
        return Err(ErrorCode::InvalidMint);
    }
    if campaign.lbp.phase != Phase::Refund {
        return Err(ErrorCode::UnauthorisedOperationInCurrentPhase);
    }
    let record = match campaign.project_position {
        Some(r) => r,
        None => {
            return Err(ErrorCode::DoesNotHoldPosition);
        },
    };
    if record.position.mint != ctx.position_mint || record.holder != ctx.project {
        return Err(ErrorCode::DoesNotHoldPosition);
    }
    let amount = record.position.amount;
    let updated = Campaign { launched_token_amount: 0, project_position: None, ..campaign };
    program.lbps.insert(ctx.lbp, updated);
    proof {
        let p = *old(program);
        let q = *program;
        assert(!has_position(p.positions@, ctx.position_mint));
        assert forall|i: int| 0 <= i < q.positions@.len() implies {
            &&& #[trigger] q.positions@[i].position.mint < q.next_position_mint
            &&& q.lbps@.contains_key(q.positions@[i].position.lbp)
        } by {
            assert(p.positions@[i].position.mint < p.next_position_mint);
            assert(p.lbps@.contains_key(p.positions@[i].position.lbp));
        }
        if q.position_open(ctx.lbp, ctx.position_mint) {
            if exists|a: int|
                0 <= a < q.positions@.len() && #[trigger] q.positions@[a].position.mint
                    == ctx.position_mint && q.positions@[a].position.lbp == ctx.lbp {
                let a = choose|a: int|
                    0 <= a < q.positions@.len() && #[trigger] q.positions@[a].position.mint
                        == ctx.position_mint && q.positions@[a].position.lbp == ctx.lbp;
                assert(has_position(p.positions@, ctx.position_mint));
            }
        }
    }
    Ok(amount)
}

} // verus!
