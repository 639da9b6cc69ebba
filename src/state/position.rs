use vstd::prelude::*;

use crate::address::Address;

verus! {

/// The record of one accepted deposit.
#[derive(Clone, Copy, Debug)]
pub struct Position {
    /// The identity of the claim credential minted for this position; unique over all positions.
    pub mint: u64,
    /// The campaign this position belongs to.
    pub lbp: u64,
    /// The amount deposited.
    pub amount: u64,
}

impl Position {
    pub fn initialize(mint: u64, lbp: u64, amount: u64) -> (r: Position)
        ensures
            r == (Position { mint, lbp, amount }),
    {
        Position { mint, lbp, amount }
    }
}

/// A position together with the single claim credential that stands for it.
#[derive(Clone, Copy, Debug)]
pub struct PositionRecord {
    pub position: Position,
    /// Who holds the credential, and so may redeem the position.
    pub holder: Address,
    /// Whether the credential may change hands; the project's may not.
    pub transferable: bool,
}

} // verus!
