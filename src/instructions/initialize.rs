use vstd::prelude::*;

use crate::address::Address;
use crate::errors::ErrorCode;
use crate::program::Borgpad;
use crate::state::config::Config;

verus! {

/// Who asks to create the registry.
#[derive(Clone, Copy, Debug)]
pub struct Initialize {
    pub deployer: Address,
}

pub open spec fn initialize_error(p: Borgpad, ctx: Initialize) -> Option<ErrorCode> {
    if p.config is Some {
        Some(ErrorCode::AccountAlreadyInitialized)
    } else if ctx.deployer != p.upgrade_authority {
        Some(ErrorCode::NotUpgradeAuthority)
    } else {
        None
    }
}

/// The registry is created with the two authorities and no pending admin; nothing else changes;
/// on an error nothing changes at all.
pub open spec fn initialize_outcome(
    p: Borgpad,
    q: Borgpad,
    ctx: Initialize,
    admin_authority: Address,
    whitelist_authority: Address,
    r: Result<(), ErrorCode>,
) -> bool {
    match r {
        Ok(()) => {
            &&& initialize_error(p, ctx) is None
            &&& q.config == Some(
                Config { admin_authority, pending_admin_authority: None, whitelist_authority },
            )
            &&& p.same_but_config(q)
        },
        Err(e) => initialize_error(p, ctx) == Some(e) && q == p,
    }
}

pub fn handler(
    program: &mut Borgpad,
    ctx: &Initialize,
    admin_authority: Address,
    whitelist_authority: Address,
) -> (r: Result<(), ErrorCode>)
    requires
        old(program).wf(),
    ensures
        final(program).wf(),
        old(program).evolves_to(*final(program)),
        initialize_outcome(*old(program), *final(program), *ctx, admin_authority, whitelist_authority, r),
{
    if program.config.is_some() {
        return Err(ErrorCode::AccountAlreadyInitialized);
    }
    if ctx.deployer != program.upgrade_authority {
        return Err(ErrorCode::NotUpgradeAuthority);
    }
    program.config = Some(Config::initialize(admin_authority, whitelist_authority));
    Ok(())
}

} // verus!
