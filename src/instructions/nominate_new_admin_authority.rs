use vstd::prelude::*;

use crate::address::Address;
use crate::errors::ErrorCode;
use crate::program::Borgpad;
use crate::state::config::Config;

verus! {

/// Who asks to nominate a new admin.
#[derive(Clone, Copy, Debug)]
pub struct NominateNewAdminAuthority {
    pub admin_authority: Address,
}

pub open spec fn nominate_new_admin_authority_error(
    p: Borgpad,
    ctx: NominateNewAdminAuthority,
) -> Option<ErrorCode> {
    if p.config is None {
        Some(ErrorCode::AccountNotInitialized)
    } else if ctx.admin_authority != p.config->0.admin_authority {
        Some(ErrorCode::NotAdminAuthority)
    } else {
        None
    }
}

/// The nominee becomes the pending admin, replacing any earlier nominee; the admin and the
/// whitelist authority stay.
pub open spec fn nominate_new_admin_authority_outcome(
    p: Borgpad,
    q: Borgpad,
    ctx: NominateNewAdminAuthority,
    new_admin_authority: Address,
    r: Result<(), ErrorCode>,
) -> bool {
    match r {
        Ok(()) => {
            &&& nominate_new_admin_authority_error(p, ctx) is None
            &&& q.config == Some(
                Config { pending_admin_authority: Some(new_admin_authority), ..p.config->0 },
            )
            &&& p.same_but_config(q)
        },
        Err(e) => nominate_new_admin_authority_error(p, ctx) == Some(e) && q == p,
    }
}

pub fn handler(
    program: &mut Borgpad,
    ctx: &NominateNewAdminAuthority,
    new_admin_authority: Address,
) -> (r: Result<(), ErrorCode>)
    requires
        old(program).wf(),
    ensures
        final(program).wf(),
        old(program).evolves_to(*final(program)),
        nominate_new_admin_authority_outcome(
            *old(program),
            *final(program),
            *ctx,
            new_admin_authority,
            r,
        ),
{
    let config = match program.config {
        Some(c) => c,
        None => {
            return Err(ErrorCode::AccountNotInitialized);
        },
    };
    if ctx.admin_authority != config.admin_authority {
        return Err(ErrorCode::NotAdminAuthority);
    }
    program.config = Some(Config { pending_admin_authority: Some(new_admin_authority), ..config });
    Ok(())
}

} // verus!
