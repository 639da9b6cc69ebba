use vstd::prelude::*;

use crate::address::Address;
use crate::errors::ErrorCode;
use crate::program::{lemma_deposited_none, Borgpad, Campaign};
use crate::state::lbp::{Lbp, LbpInitializeData};

verus! {

broadcast use vstd::std_specs::hash::group_hash_axioms;

/// Who asks to create a campaign, and the two assets whose custody is provisioned for it.
#[derive(Clone, Copy, Debug)]
pub struct InitializeLbp {
    pub admin_authority: Address,
    pub raised_token_mint: Address,
    pub launched_token_mint: Address,
}

pub open spec fn initialize_lbp_error(p: Borgpad, ctx: InitializeLbp, data: LbpInitializeData) -> Option<
    ErrorCode,
> {
    if p.admin_error(ctx.admin_authority) is Some {
        p.admin_error(ctx.admin_authority)
    } else if p.has_lbp(data.uid) {
        Some(ErrorCode::AccountAlreadyInitialized)
    } else if data.raised_token_mint != ctx.raised_token_mint {
        Some(ErrorCode::InvalidMint)
    } else if data.launched_token_mint != ctx.launched_token_mint {
        Some(ErrorCode::InvalidMint)
    } else {
        None
    }
}

/// A campaign with the given terms is created under its id, in FundCollection, with empty
/// custody and no frozen amount; nothing else changes.
pub open spec fn initialize_lbp_outcome(
    p: Borgpad,
    q: Borgpad,
    ctx: InitializeLbp,
    data: LbpInitializeData,
    r: Result<(), ErrorCode>,
) -> bool {
    match r {
        Ok(()) => {
            &&& initialize_lbp_error(p, ctx, data) is None
            &&& q.lbps@.dom() == p.lbps@.dom().insert(data.uid)
            &&& forall|uid: u64| #[trigger]
                p.lbps@.contains_key(uid) ==> q.lbps@[uid] == p.lbps@[uid]
            &&& q.campaign(data.uid).lbp.created_from(data)
            &&& q.campaign(data.uid).raised_token_amount == 0
            &&& q.campaign(data.uid).launched_token_amount == 0
            &&& q.campaign(data.uid).project_position is None
            &&& p.same_but_lbps(q)
        },
        Err(e) => initialize_lbp_error(p, ctx, data) == Some(e) && q == p,
    }
}

pub fn handler(program: &mut Borgpad, ctx: &InitializeLbp, data: LbpInitializeData) -> (r: Result<
    (),
    ErrorCode,
>)
    requires
        old(program).wf(),
    ensures
        final(program).wf(),
        old(program).evolves_to(*final(program)),
        initialize_lbp_outcome(*old(program), *final(program), *ctx, data, r),
{
    let config = match program.config {
        Some(c) => c,
        None => {
            return Err(ErrorCode::AccountNotInitialized);
        },
    };
    if ctx.admin_authority != config.admin_authority {
        return Err(ErrorCode::NotAdminAuthority);
    }
    if program.lbps.contains_key(&data.uid) {
        return Err(ErrorCode::AccountAlreadyInitialized);
    }
    if data.raised_token_mint != ctx.raised_token_mint {
        return Err(ErrorCode::InvalidMint);
    }
    if data.launched_token_mint != ctx.launched_token_mint {
        return Err(ErrorCode::InvalidMint);
    }
    let campaign = Campaign {
        lbp: Lbp::initialize(data),
        raised_token_amount: 0,
        launched_token_amount: 0,
        project_position: None,
    };
    proof {
        assert forall|i: int| 0 <= i < program.positions@.len() implies #[trigger] program.positions@[i].position.lbp
            != data.uid by {
            assert(program.positions@[i].position.mint < program.next_position_mint);
        }
        lemma_deposited_none(program.positions@, data.uid);
    }
    program.lbps.insert(data.uid, campaign);
    proof {
        assert(program.lbps@.dom() =~= old(program).lbps@.dom().insert(data.uid));
    }
    Ok(())
}

} // verus!
