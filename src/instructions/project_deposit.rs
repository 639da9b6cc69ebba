use vstd::prelude::*;

use crate::address::Address;
use crate::errors::ErrorCode;
use crate::program::{has_position, Borgpad, Campaign};
use crate::state::lbp::Phase;
use crate::state::position::{Position, PositionRecord};

verus! {

broadcast use vstd::std_specs::hash::group_hash_axioms;

/// The project funding its campaign, the campaign and the launched asset.
#[derive(Clone, Copy, Debug)]
pub struct ProjectDeposit {
    pub project: Address,
    pub lbp: u64,
    pub launched_token_mint: Address,
}

pub open spec fn project_deposit_error(
    p: Borgpad,
    ctx: ProjectDeposit,
    amount: u64,
    now: u64,
) -> Option<ErrorCode> {
    let c = p.campaign(ctx.lbp);
    if p.config is None {
        Some(ErrorCode::AccountNotInitialized)
    } else if !p.has_lbp(ctx.lbp) {
        Some(ErrorCode::AccountNotInitialized)
    } else if ctx.project != c.lbp.project {
        Some(ErrorCode::NotProject)
    } else if c.lbp.launched_token_mint != ctx.launched_token_mint {
        Some(ErrorCode::InvalidMint)
    } else if c.lbp.phase != Phase::FundCollection {
        Some(ErrorCode::UnauthorisedOperationInCurrentPhase)
    } else if now < c.lbp.fund_collection_start_time {
        Some(ErrorCode::FundCollectionPhaseNotStarted)
    } else if now > c.lbp.fund_collection_end_time {
        Some(ErrorCode::FundCollectionPhaseCompleted)
    } else if amount != c.lbp.launched_token_cap {
        Some(ErrorCode::InvalidAmount)
    } else if c.launched_token_amount == c.lbp.launched_token_cap {
        Some(ErrorCode::MaxCapReached)
    } else {
        None
    }
}

/// The whole launched amount enters custody at once, and the project gets a position with a
/// fresh, non-transferable credential, whose identity is returned.
pub open spec fn project_deposit_outcome(
    p: Borgpad,
    q: Borgpad,
    ctx: ProjectDeposit,
    amount: u64,
    now: u64,
    r: Result<u64, ErrorCode>,
) -> bool {
    match r {
        Ok(mint) => {
            let c = p.campaign(ctx.lbp);
            &&& project_deposit_error(p, ctx, amount, now) is None
            &&& amount == c.lbp.launched_token_cap
            &&& mint == p.next_position_mint
            &&& q.next_position_mint == p.next_position_mint + 1
            &&& q.lbps@ == p.lbps@.insert(
                ctx.lbp,
                Campaign {
                    launched_token_amount: amount,
                    project_position: Some(
                        PositionRecord {
                            position: Position { mint, lbp: ctx.lbp, amount },
                            holder: ctx.project,
                            transferable: false,
                        },
                    ),
                    ..c
                },
            )
            &&& q.positions == p.positions
            &&& q.config == p.config
            &&& q.upgrade_authority == p.upgrade_authority
        },
        Err(e) => project_deposit_error(p, ctx, amount, now) == Some(e) && q == p,
    }
}

pub fn handler(program: &mut Borgpad, ctx: &ProjectDeposit, amount: u64, now: u64) -> (r: Result<
    u64,
    ErrorCode,
>)
    requires
        old(program).wf(),
        old(program).next_position_mint < u64::MAX,
    ensures
        final(program).wf(),
        old(program).evolves_to(*final(program)),
        project_deposit_outcome(*old(program), *final(program), *ctx, amount, now, r),
{
    if program.config.is_none() {
        return Err(ErrorCode::AccountNotInitialized);
    }
    let campaign = match program.lbps.get(&ctx.lbp) {
        Some(c) => *c,
        None => {
            return Err(ErrorCode::AccountNotInitialized);
        },
    };
    if ctx.project != campaign.lbp.project {
        return Err(ErrorCode::NotProject);
    }
    if campaign.lbp.launched_token_mint != ctx.launched_token_mint {
        return Err(ErrorCode::InvalidMint);
    }
    if campaign.lbp.phase != Phase::FundCollection {
        return Err(ErrorCode::UnauthorisedOperationInCurrentPhase);
    }
    if now < campaign.lbp.fund_collection_start_time {
        return Err(ErrorCode::FundCollectionPhaseNotStarted);
    }
    if now > campaign.lbp.fund_collection_end_time {
        return Err(ErrorCode::FundCollectionPhaseCompleted);
    }
    if amount != campaign.lbp.launched_token_cap {
        return Err(ErrorCode::InvalidAmount);
    }
    if campaign.launched_token_amount == campaign.lbp.launched_token_cap {
        return Err(ErrorCode::MaxCapReached);
    }
    let mint = program.next_position_mint;
    let record = PositionRecord {
        position: Position::initialize(mint, ctx.lbp, amount),
        holder: ctx.project,
        transferable: false,
    };
    let updated = Campaign {
        launched_token_amount: amount,
        project_position: Some(record),
        ..campaign
    };
    program.lbps.insert(ctx.lbp, updated);
    program.next_position_mint = mint + 1;
    proof {
        let p = *old(program);
        let q = *program;
        assert forall|m: u64| #[trigger] has_position(p.positions@, m) implies m < mint by {
            let a = choose|a: int| 0 <= a < p.positions@.len() && #[trigger] p.positions@[a].position.mint == m;
            assert(p.positions@[a].position.mint < p.next_position_mint);
        }
        assert forall|i: int| 0 <= i < q.positions@.len() implies {
            &&& #[trigger] q.positions@[i].position.mint < q.next_position_mint
            &&& q.lbps@.contains_key(q.positions@[i].position.lbp)
        } by {
            assert(p.positions@[i].position.mint < p.next_position_mint);
            assert(p.lbps@.contains_key(p.positions@[i].position.lbp));
        }
    }
    Ok(mint)
}

} // verus!
