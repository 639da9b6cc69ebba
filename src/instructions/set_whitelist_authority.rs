use vstd::prelude::*;

use crate::address::Address;
use crate::errors::ErrorCode;
use crate::program::Borgpad;
use crate::state::config::Config;

verus! {

/// Who asks to replace the whitelist authority.
#[derive(Clone, Copy, Debug)]
pub struct SetWhitelistAuthority {
    pub admin_authority: Address,
}

pub open spec fn set_whitelist_authority_error(p: Borgpad, ctx: SetWhitelistAuthority) -> Option<
    ErrorCode,
> {
    if p.config is None {
        Some(ErrorCode::AccountNotInitialized)
    } else if ctx.admin_authority != p.config->0.admin_authority {
        Some(ErrorCode::NotAdminAuthority)
    } else {
        None
    }
}

/// The whitelist authority is replaced; the admin and any pending admin stay.
pub open spec fn set_whitelist_authority_outcome(
    p: Borgpad,
    q: Borgpad,
    ctx: SetWhitelistAuthority,
    new_whitelist_authority: Address,
    r: Result<(), ErrorCode>,
) -> bool {
    match r {
        Ok(()) => {
            &&& set_whitelist_authority_error(p, ctx) is None
            &&& q.config == Some(
                Config { whitelist_authority: new_whitelist_authority, ..p.config->0 },
            )
            &&& p.same_but_config(q)
        },
        Err(e) => set_whitelist_authority_error(p, ctx) == Some(e) && q == p,
    }
}

pub fn handler(
    program: &mut Borgpad,
    ctx: &SetWhitelistAuthority,
    new_whitelist_authority: Address,
) -> (r: Result<(), ErrorCode>)
    requires
        old(program).wf(),
    ensures
        final(program).wf(),
        old(program).evolves_to(*final(program)),
        set_whitelist_authority_outcome(
            *old(program),
            *final(program),
            *ctx,
            new_whitelist_authority,
            r,
        ),
{
    let config = match program.config {
        Some(c) => c,
        None => {
            return Err(ErrorCode::AccountNotInitialized);
        },
    };
    if ctx.admin_authority != config.admin_authority {
        return Err(ErrorCode::NotAdminAuthority);
    }
    program.config = Some(Config { whitelist_authority: new_whitelist_authority, ..config });
    Ok(())
}

} // verus!
