use vstd::prelude::*;

use crate::address::Address;

verus! {

/// The access control registry: the two named authorities and a pending admin handover.
#[derive(Clone, Copy, Debug)]
pub struct Config {
    /// The authority that has admin rights.
    pub admin_authority: Address,
    /// The authority nominated to take over admin rights, until it accepts.
    pub pending_admin_authority: Option<Address>,
    /// The authority that co-signs every user deposit.
    pub whitelist_authority: Address,
}

impl Config {
    pub fn initialize(admin_authority: Address, whitelist_authority: Address) -> (r: Config)
        ensures
            r == (Config { admin_authority, pending_admin_authority: None, whitelist_authority }),
    {
        Config { admin_authority, pending_admin_authority: None, whitelist_authority }
    }
}

} // verus!
