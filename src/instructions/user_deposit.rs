use vstd::prelude::*;

use crate::address::Address;
use crate::errors::ErrorCode;
use crate::program::{deposited, lemma_deposited_push, Borgpad, Campaign};
use crate::state::lbp::Phase;
use crate::state::position::{Position, PositionRecord};

verus! {

broadcast use vstd::std_specs::hash::group_hash_axioms;

/// The signers of a user deposit, the campaign and the asset deposited.
#[derive(Clone, Copy, Debug)]
pub struct UserDeposit {
    pub whitelist_authority: Address,
    pub user: Address,
    pub lbp: u64,
    pub raised_token_mint: Address,
}

pub open spec fn user_deposit_error(p: Borgpad, ctx: UserDeposit, amount: u64, now: u64) -> Option<
    ErrorCode,
> {
    let c = p.campaign(ctx.lbp);
    if p.config is None {
        Some(ErrorCode::AccountNotInitialized)
    } else if ctx.whitelist_authority != p.config->0.whitelist_authority {
        Some(ErrorCode::NotWhitelistAuthority)
    } else if !p.has_lbp(ctx.lbp) {
        Some(ErrorCode::AccountNotInitialized)
    } else if c.lbp.raised_token_mint != ctx.raised_token_mint {
        Some(ErrorCode::InvalidMint)
    } else if c.lbp.phase != Phase::FundCollection {
        Some(ErrorCode::UnauthorisedOperationInCurrentPhase)
    } else if now < c.lbp.fund_collection_start_time {
        Some(ErrorCode::FundCollectionPhaseNotStarted)
    } else if now > c.lbp.fund_collection_end_time {
        Some(ErrorCode::FundCollectionPhaseCompleted)
    } else if c.raised_token_amount + amount > c.lbp.raised_token_max_cap {
        Some(ErrorCode::MaxCapReached)
    } else {
        None
    }
}

/// The amount enters the campaign's raised custody, and a position for it, with a fresh
/// credential held by the user, is opened; the credential's identity is returned.
pub open spec fn user_deposit_outcome(
    p: Borgpad,
    q: Borgpad,
    ctx: UserDeposit,
    amount: u64,
    now: u64,
    r: Result<u64, ErrorCode>,
) -> bool {
    match r {
        Ok(mint) => {
            let c = p.campaign(ctx.lbp);
            &&& user_deposit_error(p, ctx, amount, now) is None
            &&& mint == p.next_position_mint
            &&& q.next_position_mint == p.next_position_mint + 1
            &&& q.positions@ == p.positions@.push(
                PositionRecord {
                    position: Position { mint, lbp: ctx.lbp, amount },
                    holder: ctx.user,
                    transferable: true,
                },
            )
            &&& q.lbps@ == p.lbps@.insert(
                ctx.lbp,
                Campaign { raised_token_amount: (c.raised_token_amount + amount) as u64, ..c },
            )
            &&& q.config == p.config
            &&& q.upgrade_authority == p.upgrade_authority
        },
        Err(e) => user_deposit_error(p, ctx, amount, now) == Some(e) && q == p,
    }
}

pub fn handler(program: &mut Borgpad, ctx: &UserDeposit, amount: u64, now: u64) -> (r: Result<
    u64,
    ErrorCode,
>)
    requires
        old(program).wf(),
        old(program).next_position_mint < u64::MAX,
    ensures
        final(program).wf(),
        old(program).evolves_to(*final(program)),
        user_deposit_outcome(*old(program), *final(program), *ctx, amount, now, r),
{
    let config = match program.config {
        Some(c) => c,
        None => {
            return Err(ErrorCode::AccountNotInitialized);
        },
    };
    if ctx.whitelist_authority != config.whitelist_authority {
        return Err(ErrorCode::NotWhitelistAuthority);
    }
    let campaign = match program.lbps.get(&ctx.lbp) {
        Some(c) => *c,
        None => {
            return Err(ErrorCode::AccountNotInitialized);
        },
    };
    if campaign.lbp.raised_token_mint != ctx.raised_token_mint {
        return Err(ErrorCode::InvalidMint);
    }
    if campaign.lbp.phase != Phase::FundCollection {
        return Err(ErrorCode::UnauthorisedOperationInCurrentPhase);
    }
    if now < campaign.lbp.fund_collection_start_time {
        return Err(ErrorCode::FundCollectionPhaseNotStarted);
    }
    if now > campaign.lbp.fund_collection_end_time {
        return Err(ErrorCode::FundCollectionPhaseCompleted);
    }
    if amount > campaign.lbp.raised_token_max_cap - campaign.raised_token_amount {
        return Err(ErrorCode::MaxCapReached);
    }
    let mint = program.next_position_mint;
    let record = PositionRecord {
        position: Position::initialize(mint, ctx.lbp, amount),
        holder: ctx.user,
        transferable: true,
    };
    let updated = Campaign { raised_token_amount: campaign.raised_token_amount + amount, ..campaign };
    proof {
        assert forall|uid: u64| #[trigger] program.lbps@.contains_key(uid) implies deposited(
            program.positions@.push(record),
            uid,
        ) == deposited(program.positions@, uid) + if uid == ctx.lbp {
            amount as int
        } else {
            0
        } by {
            lemma_deposited_push(program.positions@, record, uid);
        }
    }
    program.positions.push(record);
    program.lbps.insert(ctx.lbp, updated);
    program.next_position_mint = mint + 1;
    proof {
        let q = *program;
        let p = *old(program);
        assert forall|i: int, j: int|
            0 <= i < j < q.positions@.len() implies #[trigger] q.positions@[i].position.mint
            != #[trigger] q.positions@[j].position.mint by {
            if j == q.positions@.len() - 1 {
                assert(p.positions@[i].position.mint < mint);
            } else {
                assert(p.positions@[i] == q.positions@[i] && p.positions@[j] == q.positions@[j]);
            }
        }
        assert forall|i: int| 0 <= i < q.positions@.len() implies {
            &&& #[trigger] q.positions@[i].position.mint < q.next_position_mint
            &&& q.lbps@.contains_key(q.positions@[i].position.lbp)
        } by {
            if i < p.positions@.len() {
                assert(p.positions@[i] == q.positions@[i]);
                assert(p.positions@[i].position.mint < p.next_position_mint);
                assert(p.lbps@.contains_key(p.positions@[i].position.lbp));
            }
        }
        assert forall|uid: u64, m: u64|
            m < p.next_position_mint && !#[trigger] p.position_open(uid, m) implies !q.position_open(
            uid,
            m,
        ) by {
            if q.position_open(uid, m) {
                if exists|i: int|
                    0 <= i < q.positions@.len() && #[trigger] q.positions@[i].position.mint == m
                        && q.positions@[i].position.lbp == uid {
                    let i = choose|i: int|
                        0 <= i < q.positions@.len() && #[trigger] q.positions@[i].position.mint
                            == m && q.positions@[i].position.lbp == uid;
                    assert(i < p.positions@.len());
                    assert(p.positions@[i] == q.positions@[i]);
                }
            }
        }
    }
    Ok(mint)
}

} // verus!
