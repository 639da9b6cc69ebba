use vstd::prelude::*;

use crate::address::Address;
use crate::errors::ErrorCode;
use crate::program::Borgpad;
use crate::state::config::Config;

verus! {

/// Who asks to take over admin rights.
#[derive(Clone, Copy, Debug)]
pub struct AcceptAdminAuthority {
    pub new_admin_authority: Address,
}

pub open spec fn accept_admin_authority_error(p: Borgpad, ctx: AcceptAdminAuthority) -> Option<
    ErrorCode,
> {
    if p.config is None {
        Some(ErrorCode::AccountNotInitialized)
    } else if p.config->0.pending_admin_authority != Some(ctx.new_admin_authority) {
        Some(ErrorCode::NotAdminAuthority)
    } else {
        None
    }
}

/// The pending admin, and only it, becomes the admin; no admin is pending afterwards.
pub open spec fn accept_admin_authority_outcome(
    p: Borgpad,
    q: Borgpad,
    ctx: AcceptAdminAuthority,
    r: Result<(), ErrorCode>,
) -> bool {
    match r {
        Ok(()) => {
            &&& accept_admin_authority_error(p, ctx) is None
            &&& q.config == Some(
                Config {
                    admin_authority: ctx.new_admin_authority,
                    pending_admin_authority: None,
                    ..p.config->0
                },
            )
            &&& p.same_but_config(q)
        },
        Err(e) => accept_admin_authority_error(p, ctx) == Some(e) && q == p,
    }
}

pub fn handler(program: &mut Borgpad, ctx: &AcceptAdminAuthority) -> (r: Result<(), ErrorCode>)
    requires
        old(program).wf(),
    ensures
        final(program).wf(),
        old(program).evolves_to(*final(program)),
        accept_admin_authority_outcome(*old(program), *final(program), *ctx, r),
{
    let config = match program.config {
        Some(c) => c,
        None => {
            return Err(ErrorCode::AccountNotInitialized);
        },
    };
    let nominated = match config.pending_admin_authority {
        Some(pending) => pending == ctx.new_admin_authority,
        None => false,
    };
    if !nominated {
        return Err(ErrorCode::NotAdminAuthority);
    }
    program.config = Some(
        Config {
            admin_authority: ctx.new_admin_authority,
            pending_admin_authority: None,
            ..config
        },
    );
    Ok(())
}

} // verus!
