use vstd::prelude::*;

use crate::instructions::project_refund::{project_refund_error, ProjectRefund};
use crate::instructions::user_refund::{user_refund_error, UserRefund};
use crate::program::{deposited, has_position, phase_advances, position_index, Borgpad};
use crate::state::lbp::Phase;

verus! {

broadcast use vstd::std_specs::hash::group_hash_axioms;

/// A sequence of states of the protocol, each reached from the one before by one operation.
pub open spec fn is_history(trace: Seq<Borgpad>) -> bool {
    forall|i: int| 0 <= i < trace.len() - 1 ==> #[trigger] trace[i].evolves_to(trace[i + 1])
}

/// A state evolves to itself.
pub proof fn lemma_evolves_reflexive(a: Borgpad)
    ensures
        a.evolves_to(a),
{
}

/// Two steps of evolution make one.
pub proof fn lemma_evolves_transitive(a: Borgpad, b: Borgpad, c: Borgpad)
    requires
        a.evolves_to(b),
        b.evolves_to(c),
    ensures
        a.evolves_to(c),
{
    assert forall|uid: u64, mint: u64|
        mint < a.next_position_mint && !#[trigger] a.position_open(uid, mint) implies !c.position_open(
        uid,
        mint,
    ) by {
        assert(!b.position_open(uid, mint));
    }
    assert forall|uid: u64| #[trigger] a.lbps@.contains_key(uid) implies c.lbps@.contains_key(uid)
        && a.lbps@[uid].evolves_to(c.lbps@[uid]) by {
        assert(b.lbps@.contains_key(uid));
    }
}

/// Every state of a history evolves to every later one.
pub proof fn lemma_history_evolves(trace: Seq<Borgpad>, i: int, j: int)
    requires
        is_history(trace),
        0 <= i <= j < trace.len(),
    ensures
        trace[i].evolves_to(trace[j]),
    decreases j - i,
{
    if i == j {
        lemma_evolves_reflexive(trace[i]);
    } else {
        lemma_history_evolves(trace, i, j - 1);
        assert(trace[j - 1].evolves_to(trace[j - 1 + 1]));
        lemma_evolves_transitive(trace[i], trace[j - 1], trace[j]);
    }
}

/// A campaign's phase only ever leaves FundCollection, once, for Refund or for Vesting: in a
/// history it never goes back, and never shows Refund at one time and Vesting at another.
pub proof fn lemma_phase_moves_forward_once(trace: Seq<Borgpad>, uid: u64, i: int, j: int)
    requires
        is_history(trace),
        0 <= i <= j < trace.len(),
        trace[i].has_lbp(uid),
    ensures
        trace[j].has_lbp(uid),
        phase_advances(trace[i].campaign(uid).lbp.phase, trace[j].campaign(uid).lbp.phase),
        trace[i].campaign(uid).lbp.phase != Phase::FundCollection ==> trace[j].campaign(
            uid,
        ).lbp.phase == trace[i].campaign(uid).lbp.phase,
        !(trace[i].campaign(uid).lbp.phase == Phase::Refund && trace[j].campaign(uid).lbp.phase
            == Phase::Vesting),
        !(trace[i].campaign(uid).lbp.phase == Phase::Vesting && trace[j].campaign(uid).lbp.phase
            == Phase::Refund),
        trace[j].campaign(uid).lbp.phase == Phase::FundCollection ==> trace[i].campaign(
            uid,
        ).lbp.phase == Phase::FundCollection,
{
    lemma_history_evolves(trace, i, j);
}

/// Once a campaign is in Vesting, the raised amount it froze never changes again.
pub proof fn lemma_raised_cap_frozen(trace: Seq<Borgpad>, uid: u64, i: int, j: int)
    requires
        is_history(trace),
        0 <= i <= j < trace.len(),
        trace[i].has_lbp(uid),
        trace[i].campaign(uid).lbp.phase == Phase::Vesting,
    ensures
        trace[j].has_lbp(uid),
        trace[j].campaign(uid).lbp.phase == Phase::Vesting,
        trace[j].campaign(uid).lbp.raised_token_cap == trace[i].campaign(uid).lbp.raised_token_cap,
        trace[j].campaign(uid).lbp.vesting_start_time == trace[i].campaign(
            uid,
        ).lbp.vesting_start_time,
{
    lemma_history_evolves(trace, i, j);
}

/// A position that has been closed stays closed for the rest of a history.
pub proof fn lemma_closed_position_stays_closed(trace: Seq<Borgpad>, uid: u64, mint: u64, i: int, j: int)
    requires
        is_history(trace),
        0 <= i <= j < trace.len(),
        mint < trace[i].next_position_mint,
        !trace[i].position_open(uid, mint),
    ensures
        !trace[j].position_open(uid, mint),
{
    lemma_history_evolves(trace, i, j);
}

/// A refund against a position that is not open in the named campaign is refused.
pub proof fn lemma_refund_of_closed_position_fails(p: Borgpad, ctx: UserRefund)
    requires
        p.wf(),
        !p.position_open(ctx.lbp, ctx.position_mint),
    ensures
        user_refund_error(p, ctx) is Some,
{
    if p.config is Some && p.has_lbp(ctx.lbp) && has_position(p.positions@, ctx.position_mint) {
        let k = position_index(p.positions@, ctx.position_mint);
        assert(p.positions@[k].position.mint == ctx.position_mint);
        assert(p.positions@[k].position.lbp != ctx.lbp);
    }
}

/// A project refund against a position that is not open in the named campaign is refused.
pub proof fn lemma_project_refund_of_closed_position_fails(p: Borgpad, ctx: ProjectRefund)
    requires
        p.wf(),
        !p.position_open(ctx.lbp, ctx.position_mint),
    ensures
        project_refund_error(p, ctx) is Some,
{
}

/// In every state the protocol can reach, the open deposits of a campaign add up to its raised
/// custody balance, which never exceeds the campaign's maximum.
pub proof fn lemma_deposits_within_max_cap(p: Borgpad, uid: u64)
    requires
        p.wf(),
        p.has_lbp(uid),
    ensures
        deposited(p.positions@, uid) == p.campaign(uid).raised_token_amount,
        deposited(p.positions@, uid) <= p.campaign(uid).lbp.raised_token_max_cap,
{
}

} // verus!
