use vstd::prelude::*;

use crate::address::Address;

verus! {

/// Sentinel for a vesting start time that has not been set.
pub const VESTING_NOT_STARTED: u64 = 0xffff_ffff_ffff_ffff;

/// The phase of a campaign. The only changes are
/// FundCollection -> Refund and FundCollection -> Vesting.
#[derive(Clone, Copy, Debug, PartialEq, Eq, Structural)]
pub enum Phase {
    FundCollection,
    Refund,
    Vesting,
}

/// The terms a campaign is created with.
#[derive(Clone, Copy, Debug)]
pub struct LbpInitializeData {
    /// An id that uniquely identifies the campaign.
    pub uid: u64,
    /// The project launching its asset.
    pub project: Address,
    /// The asset supplied by the project.
    pub launched_token_mint: Address,
    /// The part of the launched asset that goes to the liquidity pool.
    pub launched_token_lp_distribution: u8,
    /// The exact amount of launched asset the project must supply.
    pub launched_token_cap: u64,
    /// The asset supplied by the users.
    pub raised_token_mint: Address,
    /// The amount the users must raise for the campaign to move to vesting.
    pub raised_token_min_cap: u64,
    /// The most the users may deposit in total.
    pub raised_token_max_cap: u64,
    /// First second (Unix time) at which deposits are accepted.
    pub fund_collection_start_time: u64,
    /// Last second (Unix time) at which deposits are accepted.
    pub fund_collection_end_time: u64,
    /// Duration of the cliff, in seconds.
    pub cliff_duration: u64,
    /// Duration of the vesting, in seconds.
    pub vesting_duration: u64,
}

/// A campaign: its terms, its phase and the amount it froze when it moved to vesting.
#[derive(Clone, Copy, Debug)]
pub struct Lbp {
    pub uid: u64,
    pub project: Address,
    pub launched_token_mint: Address,
    pub launched_token_lp_distribution: u8,
    pub launched_token_cap: u64,
    pub raised_token_mint: Address,
    pub raised_token_min_cap: u64,
    pub raised_token_max_cap: u64,
    /// The amount the users raised, frozen when the campaign moves to vesting; 0 before.
    pub raised_token_cap: u64,
    pub phase: Phase,
    pub fund_collection_start_time: u64,
    pub fund_collection_end_time: u64,
    /// When vesting started; `VESTING_NOT_STARTED` until then.
    pub vesting_start_time: u64,
    pub cliff_duration: u64,
    pub vesting_duration: u64,
}

impl Lbp {
    /// The terms fixed at creation, which no operation changes.
    pub open spec fn same_terms(self, other: Lbp) -> bool {
        &&& self.uid == other.uid
        &&& self.project == other.project
        &&& self.launched_token_mint == other.launched_token_mint
        &&& self.launched_token_lp_distribution == other.launched_token_lp_distribution
        &&& self.launched_token_cap == other.launched_token_cap
        &&& self.raised_token_mint == other.raised_token_mint
        &&& self.raised_token_min_cap == other.raised_token_min_cap
        &&& self.raised_token_max_cap == other.raised_token_max_cap
        &&& self.fund_collection_start_time == other.fund_collection_start_time
        &&& self.fund_collection_end_time == other.fund_collection_end_time
        &&& self.cliff_duration == other.cliff_duration
        &&& self.vesting_duration == other.vesting_duration
    }

    /// The campaign as created from `data`, before any operation.
    pub open spec fn created_from(self, data: LbpInitializeData) -> bool {
        &&& self.uid == data.uid
        &&& self.project == data.project
        &&& self.launched_token_mint == data.launched_token_mint
        &&& self.launched_token_lp_distribution == data.launched_token_lp_distribution
        &&& self.launched_token_cap == data.launched_token_cap
        &&& self.raised_token_mint == data.raised_token_mint
        &&& self.raised_token_min_cap == data.raised_token_min_cap
        &&& self.raised_token_max_cap == data.raised_token_max_cap
        &&& self.fund_collection_start_time == data.fund_collection_start_time
        &&& self.fund_collection_end_time == data.fund_collection_end_time
        &&& self.cliff_duration == data.cliff_duration
        &&& self.vesting_duration == data.vesting_duration
        &&& self.raised_token_cap == 0
        &&& self.phase == Phase::FundCollection
        &&& self.vesting_start_time == VESTING_NOT_STARTED
    }

    pub fn initialize(data: LbpInitializeData) -> (r: Lbp)
        ensures
            r.created_from(data),
    {
        Lbp {
            uid: data.uid,
            project: data.project,
            launched_token_mint: data.launched_token_mint,
            launched_token_lp_distribution: data.launched_token_lp_distribution,
            launched_token_cap: data.launched_token_cap,
            raised_token_mint: data.raised_token_mint,
            raised_token_min_cap: data.raised_token_min_cap,
            raised_token_max_cap: data.raised_token_max_cap,
            raised_token_cap: 0,
            phase: Phase::FundCollection,
            fund_collection_start_time: data.fund_collection_start_time,
            fund_collection_end_time: data.fund_collection_end_time,
            vesting_start_time: VESTING_NOT_STARTED,
            cliff_duration: data.cliff_duration,
            vesting_duration: data.vesting_duration,
        }
    }
}

} // verus!
