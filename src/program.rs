use vstd::prelude::*;

use crate::address::Address;
use crate::errors::ErrorCode;
use crate::state::config::Config;
use crate::state::lbp::{Lbp, Phase};
use crate::state::position::{Position, PositionRecord};

verus! {

broadcast use vstd::std_specs::hash::group_hash_axioms;

/// A campaign with its two custody balances and the project's position.
#[derive(Clone, Copy, Debug)]
pub struct Campaign {
    pub lbp: Lbp,
    /// Custody balance of the raised asset, held for the users.
    pub raised_token_amount: u64,
    /// Custody balance of the launched asset, held for the project.
    pub launched_token_amount: u64,
    /// The project's position, once it has funded the campaign.
    pub project_position: Option<PositionRecord>,
}

/// The protocol's records: the registry, the campaigns keyed by id and the users' open positions.
#[derive(Clone, Debug)]
pub struct Borgpad {
    /// The authority that deployed the protocol; only it may create the registry.
    pub upgrade_authority: Address,
    pub config: Option<Config>,
    pub lbps: std::collections::HashMap<u64, Campaign>,
    /// The users' open positions, over all campaigns.
    pub positions: Vec<PositionRecord>,
    /// The identity the next claim credential gets.
    pub next_position_mint: u64,
}

/// Total amount of the open positions of campaign `uid` in `s`.
pub open spec fn deposited(s: Seq<PositionRecord>, uid: u64) -> int
    decreases s.len(),
{
    if s.len() == 0 {
        0
    } else {
        deposited(s.drop_last(), uid) + if s.last().position.lbp == uid {
            s.last().position.amount as int
        } else {
            0
        }
    }
}

pub proof fn lemma_deposited_push(s: Seq<PositionRecord>, r: PositionRecord, uid: u64)
    ensures
        deposited(s.push(r), uid) == deposited(s, uid) + if r.position.lbp == uid {
            r.position.amount as int
        } else {
            0
        },
{
    assert(s.push(r).drop_last() =~= s);
}

pub proof fn lemma_deposited_nonnegative(s: Seq<PositionRecord>, uid: u64)
    ensures
        deposited(s, uid) >= 0,
    decreases s.len(),
{
    if s.len() > 0 {
        lemma_deposited_nonnegative(s.drop_last(), uid);
    }
}

pub proof fn lemma_deposited_remove(s: Seq<PositionRecord>, i: int, uid: u64)
    requires
        0 <= i < s.len(),
    ensures
        deposited(s.remove(i), uid) == deposited(s, uid) - if s[i].position.lbp == uid {
            s[i].position.amount as int
        } else {
            0
        },
    decreases s.len(),
{
    if i == s.len() - 1 {
        assert(s.remove(i) =~= s.drop_last());
    } else {
        lemma_deposited_remove(s.drop_last(), i, uid);
        assert(s.remove(i).drop_last() =~= s.drop_last().remove(i));
        assert(s.remove(i).last() == s.last());
    }
}

pub proof fn lemma_deposited_none(s: Seq<PositionRecord>, uid: u64)
    requires
        forall|i: int| 0 <= i < s.len() ==> #[trigger] s[i].position.lbp != uid,
    ensures
        deposited(s, uid) == 0,
    decreases s.len(),
{
    if s.len() > 0 {
        lemma_deposited_none(s.drop_last(), uid);
    }
}

/// The index of the open user position with credential `mint`.
pub open spec fn position_index(s: Seq<PositionRecord>, mint: u64) -> int {
    choose|i: int| 0 <= i < s.len() && #[trigger] s[i].position.mint == mint
}

/// A phase may stay as it is or leave FundCollection, and nothing else.
pub open spec fn phase_advances(before: Phase, after: Phase) -> bool {
    before == after || before == Phase::FundCollection
}

/// Whether `s` holds an open user position with credential `mint`.
pub open spec fn has_position(s: Seq<PositionRecord>, mint: u64) -> bool {
    exists|i: int| 0 <= i < s.len() && #[trigger] s[i].position.mint == mint
}

impl Campaign {
    /// The project's position, when open, has credential `mint`.
    pub open spec fn has_project_position(self, mint: u64) -> bool {
        self.project_position matches Some(r) && r.position.mint == mint
    }

    pub open spec fn wf(self, uid: u64, next_mint: u64) -> bool {
        &&& self.lbp.uid == uid
        &&& self.raised_token_amount <= self.lbp.raised_token_max_cap
        &&& self.launched_token_amount <= self.lbp.launched_token_cap
        &&& match self.project_position {
            Some(r) => {
                &&& r.position.lbp == uid
                &&& r.position.mint < next_mint
                &&& r.position.amount == self.launched_token_amount
                &&& r.position.amount == self.lbp.launched_token_cap
                &&& r.holder == self.lbp.project
                &&& !r.transferable
            },
            None => self.launched_token_amount == 0,
        }
    }

    /// How one campaign may change from one state of the protocol to a later one.
    pub open spec fn evolves_to(self, next: Campaign) -> bool {
        &&& self.lbp.same_terms(next.lbp)
        &&& phase_advances(self.lbp.phase, next.lbp.phase)
        &&& self.lbp.phase != Phase::FundCollection ==> {
            &&& next.lbp.raised_token_cap == self.lbp.raised_token_cap
            &&& next.lbp.vesting_start_time == self.lbp.vesting_start_time
        }
    }
}

impl Borgpad {
    pub open spec fn has_lbp(self, uid: u64) -> bool {
        self.lbps@.contains_key(uid)
    }

    pub open spec fn campaign(self, uid: u64) -> Campaign {
        self.lbps@[uid]
    }

    /// The invariant every operation keeps.
    pub open spec fn wf(self) -> bool {
        &&& forall|uid: u64| #[trigger]
            self.lbps@.contains_key(uid) ==> {
                &&& self.lbps@[uid].wf(uid, self.next_position_mint)
                &&& self.lbps@[uid].raised_token_amount == deposited(self.positions@, uid)
            }
        &&& forall|i: int|
            0 <= i < self.positions@.len() ==> {
                &&& #[trigger] self.positions@[i].position.mint < self.next_position_mint
                &&& self.lbps@.contains_key(self.positions@[i].position.lbp)
            }
        &&& forall|i: int, j: int|
            0 <= i < j < self.positions@.len() ==> #[trigger] self.positions@[i].position.mint
                != #[trigger] self.positions@[j].position.mint
        &&& forall|uid: u64| #[trigger]
            self.lbps@.contains_key(uid) && self.lbps@[uid].project_position is Some ==> !has_position(
                self.positions@,
                self.lbps@[uid].project_position->0.position.mint,
            )
    }

    /// Where the user position with credential `mint` stands, if it is open.
    pub fn find_position(&self, mint: u64) -> (r: Option<usize>)
        ensures
            match r {
                Some(i) => i < self.positions@.len() && self.positions@[i as int].position.mint
                    == mint,
                None => !has_position(self.positions@, mint),
            },
    {
        let mut i: usize = 0;
        while i < self.positions.len()
            invariant
                i <= self.positions@.len(),
                forall|j: int| 0 <= j < i ==> #[trigger] self.positions@[j].position.mint != mint,
            decreases self.positions@.len() - i,
        {
            if self.positions[i].position.mint == mint {
                return Some(i);
            }
            i = i + 1;
        }
        None
    }

    /// Whether credential `mint` stands for a position open in campaign `uid`.
    pub open spec fn position_open(self, uid: u64, mint: u64) -> bool {
        ||| (exists|i: int|
            0 <= i < self.positions@.len() && #[trigger] self.positions@[i].position.mint == mint
                && self.positions@[i].position.lbp == uid)
        ||| self.has_lbp(uid) && self.campaign(uid).has_project_position(mint)
    }

    /// How the protocol may change from one state to a later one: nothing is deleted but
    /// redeemed positions, terms stay, phases only leave FundCollection, what is frozen at the
    /// move to vesting stays frozen, and a redeemed credential never comes back.
    pub open spec fn evolves_to(self, next: Borgpad) -> bool {
        &&& next.upgrade_authority == self.upgrade_authority
        &&& self.config is Some ==> next.config is Some
        &&& self.next_position_mint <= next.next_position_mint
        &&& forall|uid: u64| #[trigger]
            self.lbps@.contains_key(uid) ==> next.lbps@.contains_key(uid) && self.lbps@[uid].evolves_to(
                next.lbps@[uid],
            )
        &&& forall|uid: u64, mint: u64|
            mint < self.next_position_mint && !#[trigger] self.position_open(uid, mint)
                ==> !next.position_open(uid, mint)
    }

    /// The error of an operation reserved to the admin, when `signer` may not run it.
    pub open spec fn admin_error(self, signer: Address) -> Option<ErrorCode> {
        if self.config is None {
            Some(ErrorCode::AccountNotInitialized)
        } else if signer != self.config->0.admin_authority {
            Some(ErrorCode::NotAdminAuthority)
        } else {
            None
        }
    }

    /// Everything but the registry is as in `self`.
    pub open spec fn same_but_config(self, next: Borgpad) -> bool {
        &&& next.upgrade_authority == self.upgrade_authority
        &&& next.lbps == self.lbps
        &&& next.positions == self.positions
        &&& next.next_position_mint == self.next_position_mint
    }

    /// Everything but the campaigns is as in `self`.
    pub open spec fn same_but_lbps(self, next: Borgpad) -> bool {
        &&& next.upgrade_authority == self.upgrade_authority
        &&& next.config == self.config
        &&& next.positions == self.positions
        &&& next.next_position_mint == self.next_position_mint
    }

    /// An empty protocol that `upgrade_authority` may initialize.
    pub fn new(upgrade_authority: Address) -> (r: Borgpad)
        ensures
            r.wf(),
            r.upgrade_authority == upgrade_authority,
            r.config is None,
            r.lbps@ == Map::<u64, Campaign>::empty(),
            r.positions@.len() == 0,
            r.next_position_mint == 0,
    {
        Borgpad {
            upgrade_authority,
            config: None,
            lbps: std::collections::HashMap::new(),
            positions: Vec::new(),
            next_position_mint: 0,
        }
    }
}

} // verus!
