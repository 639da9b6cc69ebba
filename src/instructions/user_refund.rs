use vstd::prelude::*;

use crate::address::Address;
use crate::errors::ErrorCode;
use crate::program::{
    deposited, has_position, lemma_deposited_nonnegative, lemma_deposited_remove, position_index,
    Borgpad, Campaign,
};
use crate::state::lbp::Phase;

verus! {

broadcast use vstd::std_specs::hash::group_hash_axioms;

/// The user asking for a refund, the campaign, the position's credential and the raised asset.
#[derive(Clone, Copy, Debug)]
pub struct UserRefund {
    pub user: Address,
    pub lbp: u64,
    pub position_mint: u64,
    pub raised_token_mint: Address,
}

pub open spec fn user_refund_error(p: Borgpad, ctx: UserRefund) -> Option<ErrorCode> {
    let c = p.campaign(ctx.lbp);
    let rec = p.positions@[position_index(p.positions@, ctx.position_mint)];
    if p.config is None {
        Some(ErrorCode::AccountNotInitialized)
    } else if !p.has_lbp(ctx.lbp) {
        Some(ErrorCode::AccountNotInitialized)
    } else if !has_position(p.positions@, ctx.position_mint) {
        Some(ErrorCode::DoesNotHoldPosition)
    } else if rec.position.lbp != ctx.lbp {
        Some(ErrorCode::InvalidPosition)
    } else if c.lbp.raised_token_mint != ctx.raised_token_mint {
        Some(ErrorCode::InvalidMint)
    } else if c.lbp.phase != Phase::Refund {
        Some(ErrorCode::UnauthorisedOperationInCurrentPhase)
    } else if rec.holder != ctx.user {
        Some(ErrorCode::DoesNotHoldPosition)
    } else {
        None
    }
}

/// The position is closed, its credential burnt, and the amount it recorded leaves the raised
/// custody for the user; that amount is returned.
pub open spec fn user_refund_outcome(
    p: Borgpad,
    q: Borgpad,
    ctx: UserRefund,
    r: Result<u64, ErrorCode>,
) -> bool {
    match r {
        Ok(amount) => {
            let i = position_index(p.positions@, ctx.position_mint);
            let c = p.campaign(ctx.lbp);
            &&& user_refund_error(p, ctx) is None
            &&& amount == p.positions@[i].position.amount
            &&& q.positions@ == p.positions@.remove(i)
            &&& q.lbps@ == p.lbps@.insert(
                ctx.lbp,
                Campaign { raised_token_amount: (c.raised_token_amount - amount) as u64, ..c },
            )
            &&& p.position_open(ctx.lbp, ctx.position_mint)
            &&& !q.position_open(ctx.lbp, ctx.position_mint)
            &&& q.config == p.config
            &&& q.upgrade_authority == p.upgrade_authority
            &&& q.next_position_mint == p.next_position_mint
        },
        Err(e) => user_refund_error(p, ctx) == Some(e) && q == p,
    }
}

pub fn handler(program: &mut Borgpad, ctx: &UserRefund) -> (r: Result<u64, ErrorCode>)
    requires
        old(program).wf(),
    ensures
        final(program).wf(),
        old(program).evolves_to(*final(program)),
        user_refund_outcome(*old(program), *final(program), *ctx, r),
{
    if program.config.is_none() {
        return Err(ErrorCode::AccountNotInitialized);
    }
    let campaign = match program.lbps.get(&ctx.lbp) {
        Some(c) => *c,
        None => {
            return Err(ErrorCode::AccountNotInitialized);
        },
    };
    let i = match program.find_position(ctx.position_mint) {
        Some(i) => i,
        None => {
            return Err(ErrorCode::DoesNotHoldPosition);
        },
    };
    let ghost p = *old(program);
    proof {
        // credentials are unique, so the position found is the one the contract names
        let k = position_index(p.positions@, ctx.position_mint);
        assert(0 <= k < p.positions@.len() && p.positions@[k].position.mint == ctx.position_mint);
        if k != i as int {
            if k < i {
                assert(p.positions@[k].position.mint != p.positions@[i as int].position.mint);
            } else {
                assert(p.positions@[i as int].position.mint != p.positions@[k].position.mint);
            }
        }
    }
    let record = program.positions[i];
    if record.position.lbp != ctx.lbp {
        return Err(ErrorCode::InvalidPosition);
    }
    if campaign.lbp.raised_token_mint != ctx.raised_token_mint {
        return Err(ErrorCode::InvalidMint);
    }
    if campaign.lbp.phase != Phase::Refund {
        return Err(ErrorCode::UnauthorisedOperationInCurrentPhase);
    }
    if record.holder != ctx.user {
        return Err(ErrorCode::DoesNotHoldPosition);
    }
    let amount = record.position.amount;
    proof {
        lemma_deposited_remove(p.positions@, i as int, ctx.lbp);
        lemma_deposited_nonnegative(p.positions@.remove(i as int), ctx.lbp);
        assert forall|uid: u64| #[trigger] p.lbps@.contains_key(uid) implies deposited(
            p.positions@.remove(i as int),
            uid,
        ) == deposited(p.positions@, uid) - if uid == ctx.lbp {
            amount as int
        } else {
            0
        } by {
            lemma_deposited_remove(p.positions@, i as int, uid);
        }
    }
    let updated = Campaign { raised_token_amount: campaign.raised_token_amount - amount, ..campaign };
    program.positions.remove(i);
    program.lbps.insert(ctx.lbp, updated);
    proof {
        let q = *program;
        let s = p.positions@;
        assert(q.positions@ == s.remove(i as int));
        assert forall|a: int| 0 <= a < q.positions@.len() implies #[trigger] q.positions@[a] == if a
            < i {
            s[a]
        } else {
            s[a + 1]
        } by {}
        assert forall|a: int, b: int|
            0 <= a < b < q.positions@.len() implies #[trigger] q.positions@[a].position.mint
            != #[trigger] q.positions@[b].position.mint by {
            let a1 = if a < i { a } else { a + 1 };
            let b1 = if b < i { b } else { b + 1 };
            assert(q.positions@[a] == s[a1] && q.positions@[b] == s[b1]);
            assert(s[a1].position.mint != s[b1].position.mint);
        }
        assert forall|a: int| 0 <= a < q.positions@.len() implies {
            &&& #[trigger] q.positions@[a].position.mint < q.next_position_mint
            &&& q.lbps@.contains_key(q.positions@[a].position.lbp)
        } by {
            let a1 = if a < i { a } else { a + 1 };
            assert(q.positions@[a] == s[a1]);
            assert(s[a1].position.mint < p.next_position_mint);
            assert(p.lbps@.contains_key(s[a1].position.lbp));
        }
        assert forall|m: u64| #[trigger] has_position(q.positions@, m) implies has_position(s, m)
            && m != ctx.position_mint by {
            let a = choose|a: int| 0 <= a < q.positions@.len() && #[trigger] q.positions@[a].position.mint == m;
            let a1 = if a < i { a } else { a + 1 };
            assert(q.positions@[a] == s[a1]);
            if m == ctx.position_mint {
                if a1 < i {
                    assert(s[a1].position.mint != s[i as int].position.mint);
                } else {
                    assert(s[i as int].position.mint != s[a1].position.mint);
                }
            }
        }
        assert(p.position_open(ctx.lbp, ctx.position_mint));
        assert forall|uid: u64, m: u64|
            m < p.next_position_mint && !#[trigger] p.position_open(uid, m) implies !q.position_open(
            uid,
            m,
        ) by {
            if exists|a: int|
                0 <= a < q.positions@.len() && #[trigger] q.positions@[a].position.mint == m
                    && q.positions@[a].position.lbp == uid {
                let a = choose|a: int|
                    0 <= a < q.positions@.len() && #[trigger] q.positions@[a].position.mint == m
                        && q.positions@[a].position.lbp == uid;
                let a1 = if a < i { a } else { a + 1 };
                assert(q.positions@[a] == s[a1]);
            }
        }
        if q.position_open(ctx.lbp, ctx.position_mint) {
            if exists|a: int|
                0 <= a < q.positions@.len() && #[trigger] q.positions@[a].position.mint
                    == ctx.position_mint && q.positions@[a].position.lbp == ctx.lbp {
                let a = choose|a: int|
                    0 <= a < q.positions@.len() && #[trigger] q.positions@[a].position.mint
                        == ctx.position_mint && q.positions@[a].position.lbp == ctx.lbp;
                assert(has_position(q.positions@, ctx.position_mint));
            } else {
                assert(p.lbps@.contains_key(ctx.lbp));
                assert(has_position(s, ctx.position_mint));
            }
        }
    }
    Ok(amount)
}

} // verus!
