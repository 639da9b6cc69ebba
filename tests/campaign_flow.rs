use borgpad::address::Address;
use borgpad::errors::ErrorCode;
use borgpad::instructions::accept_admin_authority::AcceptAdminAuthority;
use borgpad::instructions::initialize::Initialize;
use borgpad::instructions::initialize_lbp::InitializeLbp;
use borgpad::instructions::move_to_refund_phase::MoveToRefundPhase;
use borgpad::instructions::move_to_vesting_phase::MoveToVestingPhase;
use borgpad::instructions::nominate_new_admin_authority::NominateNewAdminAuthority;
use borgpad::instructions::project_deposit::ProjectDeposit;
use borgpad::instructions::project_refund::ProjectRefund;
use borgpad::instructions::set_whitelist_authority::SetWhitelistAuthority;
use borgpad::instructions::user_deposit::UserDeposit;
use borgpad::instructions::user_refund::UserRefund;
use borgpad::program::Borgpad;
use borgpad::state::lbp::{LbpInitializeData, Phase, VESTING_NOT_STARTED};
use borgpad::{
    accept_admin_authority, initialize, initialize_lbp, move_to_refund_phase,
    move_to_vesting_phase, nominate_new_admin_authority, project_deposit, project_refund,
    set_whitelist_authority, user_deposit, user_refund,
};

fn addr(b: u8) -> Address {
    Address::new([b; 32])
}

const DEPLOYER: u8 = 1;
const ADMIN: u8 = 2;
const WHITELIST: u8 = 3;
const PROJECT: u8 = 4;
const LAUNCHED: u8 = 5;
const RAISED: u8 = 6;
const ALICE: u8 = 7;
const BOB: u8 = 8;
const UID: u64 = 42;

fn terms() -> LbpInitializeData {
    LbpInitializeData {
        uid: UID,
        project: addr(PROJECT),
        launched_token_mint: addr(LAUNCHED),
        launched_token_lp_distribution: 50,
        launched_token_cap: 2000,
        raised_token_mint: addr(RAISED),
        raised_token_min_cap: 500,
        raised_token_max_cap: 1000,
        fund_collection_start_time: 100,
        fund_collection_end_time: 200,
        cliff_duration: 10,
        vesting_duration: 20,
    }
}

fn setup() -> Borgpad {
    let mut p = Borgpad::new(addr(DEPLOYER));
    initialize(&mut p, &Initialize { deployer: addr(DEPLOYER) }, addr(ADMIN), addr(WHITELIST)).unwrap();
    let ctx = InitializeLbp {
        admin_authority: addr(ADMIN),
        raised_token_mint: addr(RAISED),
        launched_token_mint: addr(LAUNCHED),
    };
    initialize_lbp(&mut p, &ctx, terms()).unwrap();
    p
}

fn deposit_ctx(user: u8) -> UserDeposit {
    UserDeposit {
        whitelist_authority: addr(WHITELIST),
        user: addr(user),
        lbp: UID,
        raised_token_mint: addr(RAISED),
    }
}

fn refund_ctx(user: u8, mint: u64) -> UserRefund {
    UserRefund { user: addr(user), lbp: UID, position_mint: mint, raised_token_mint: addr(RAISED) }
}

fn phase_ctx() -> MoveToVestingPhase {
    MoveToVestingPhase {
        admin_authority: addr(ADMIN),
        lbp: UID,
        launched_token_mint: addr(LAUNCHED),
        raised_token_mint: addr(RAISED),
    }
}

fn refund_phase_ctx() -> MoveToRefundPhase {
    MoveToRefundPhase {
        admin_authority: addr(ADMIN),
        lbp: UID,
        launched_token_mint: addr(LAUNCHED),
        raised_token_mint: addr(RAISED),
    }
}

fn project_ctx() -> ProjectDeposit {
    ProjectDeposit { project: addr(PROJECT), lbp: UID, launched_token_mint: addr(LAUNCHED) }
}

fn raised(p: &Borgpad) -> u64 {
    p.lbps.get(&UID).unwrap().raised_token_amount
}

fn phase(p: &Borgpad) -> Phase {
    p.lbps.get(&UID).unwrap().lbp.phase
}

#[test]
fn campaign_is_created_in_fund_collection() {
    let p = setup();
    let c = p.lbps.get(&UID).unwrap();
    assert_eq!(c.lbp.phase, Phase::FundCollection);
    assert_eq!(c.lbp.raised_token_cap, 0);
    assert_eq!(c.lbp.vesting_start_time, VESTING_NOT_STARTED);
    assert_eq!(c.lbp.raised_token_max_cap, 1000);
    assert_eq!(c.raised_token_amount, 0);
    assert_eq!(c.launched_token_amount, 0);
    assert!(c.project_position.is_none());
}

#[test]
fn deposits_up_to_cap_then_vesting_freezes_raised_amount() {
    let mut p = setup();
    assert_eq!(user_deposit(&mut p, &deposit_ctx(ALICE), 300, 150), Ok(0));
    assert_eq!(user_deposit(&mut p, &deposit_ctx(BOB), 300, 150), Ok(1));
    assert_eq!(raised(&p), 600);
    assert_eq!(user_deposit(&mut p, &deposit_ctx(ALICE), 500, 150), Err(ErrorCode::MaxCapReached));
    assert_eq!(raised(&p), 600);
    assert_eq!(p.positions.len(), 2);
    assert_eq!(project_deposit(&mut p, &project_ctx(), 2000, 150), Ok(2));
    let request = move_to_vesting_phase(&mut p, &phase_ctx(), 250).unwrap();
    let c = p.lbps.get(&UID).unwrap();
    assert_eq!(c.lbp.phase, Phase::Vesting);
    assert_eq!(c.lbp.raised_token_cap, 600);
    assert_eq!(c.lbp.vesting_start_time, 250);
    assert_eq!(request.lbp, UID);
    // LAUNCHED (5) orders before RAISED (6)
    assert!(!request.raised_token_first);
    assert_eq!(request.token_0_mint, addr(LAUNCHED));
    assert_eq!(request.token_1_mint, addr(RAISED));
    assert_eq!(request.init_amount_0, 2000);
    assert_eq!(request.init_amount_1, 600);
}

#[test]
fn short_campaign_refunds_every_depositor_exactly() {
    let mut p = setup();
    let a = user_deposit(&mut p, &deposit_ctx(ALICE), 200, 120).unwrap();
    let b = user_deposit(&mut p, &deposit_ctx(BOB), 150, 199).unwrap();
    assert_eq!(
        move_to_vesting_phase(&mut p, &phase_ctx(), 300).map(|_| ()),
        Err(ErrorCode::InvalidPhaseChange)
    );
    assert_eq!(move_to_refund_phase(&mut p, &refund_phase_ctx()), Ok(()));
    assert_eq!(phase(&p), Phase::Refund);
    assert_eq!(user_refund(&mut p, &refund_ctx(ALICE, a)), Ok(200));
    assert_eq!(raised(&p), 150);
    assert_eq!(user_refund(&mut p, &refund_ctx(BOB, b)), Ok(150));
    assert_eq!(raised(&p), 0);
    assert!(p.positions.is_empty());
}

#[test]
fn second_refund_of_a_position_fails() {
    let mut p = setup();
    let a = user_deposit(&mut p, &deposit_ctx(ALICE), 200, 150).unwrap();
    move_to_refund_phase(&mut p, &refund_phase_ctx()).unwrap();
    assert_eq!(user_refund(&mut p, &refund_ctx(ALICE, a)), Ok(200));
    assert_eq!(user_refund(&mut p, &refund_ctx(ALICE, a)), Err(ErrorCode::DoesNotHoldPosition));
    assert_eq!(raised(&p), 0);
}

#[test]
fn refund_by_someone_else_fails() {
    let mut p = setup();
    let a = user_deposit(&mut p, &deposit_ctx(ALICE), 200, 150).unwrap();
    move_to_refund_phase(&mut p, &refund_phase_ctx()).unwrap();
    assert_eq!(user_refund(&mut p, &refund_ctx(BOB, a)), Err(ErrorCode::DoesNotHoldPosition));
    assert_eq!(raised(&p), 200);
}

#[test]
fn refund_before_refund_phase_fails() {
    let mut p = setup();
    let a = user_deposit(&mut p, &deposit_ctx(ALICE), 200, 150).unwrap();
    assert_eq!(
        user_refund(&mut p, &refund_ctx(ALICE, a)),
        Err(ErrorCode::UnauthorisedOperationInCurrentPhase)
    );
}

#[test]
fn refund_in_the_wrong_campaign_fails() {
    let mut p = setup();
    let mut other = terms();
    other.uid = 7;
    let ctx = InitializeLbp {
        admin_authority: addr(ADMIN),
        raised_token_mint: addr(RAISED),
        launched_token_mint: addr(LAUNCHED),
    };
    initialize_lbp(&mut p, &ctx, other).unwrap();
    let mut d = deposit_ctx(ALICE);
    d.lbp = 7;
    let a = user_deposit(&mut p, &d, 100, 150).unwrap();
    move_to_refund_phase(&mut p, &refund_phase_ctx()).unwrap();
    assert_eq!(user_refund(&mut p, &refund_ctx(ALICE, a)), Err(ErrorCode::InvalidPosition));
}

#[test]
fn deposit_may_exactly_fill_the_cap() {
    let mut p = setup();
    assert!(user_deposit(&mut p, &deposit_ctx(ALICE), 1000, 150).is_ok());
    assert_eq!(raised(&p), 1000);
    assert_eq!(user_deposit(&mut p, &deposit_ctx(BOB), 1, 150), Err(ErrorCode::MaxCapReached));
}

#[test]
fn racing_deposits_never_pass_the_cap() {
    let mut p = setup();
    let amounts = [400u64, 400, 400, 150, 100, 60, 50];
    let mut accepted = 0u64;
    for amount in amounts {
        if user_deposit(&mut p, &deposit_ctx(ALICE), amount, 150).is_ok() {
            accepted += amount;
        }
    }
    assert_eq!(accepted, 1000);
    assert_eq!(raised(&p), 1000);
}

#[test]
fn deposit_outside_the_window_fails() {
    let mut p = setup();
    assert_eq!(
        user_deposit(&mut p, &deposit_ctx(ALICE), 10, 99),
        Err(ErrorCode::FundCollectionPhaseNotStarted)
    );
    assert_eq!(
        user_deposit(&mut p, &deposit_ctx(ALICE), 10, 201),
        Err(ErrorCode::FundCollectionPhaseCompleted)
    );
    assert!(user_deposit(&mut p, &deposit_ctx(ALICE), 10, 100).is_ok());
    assert!(user_deposit(&mut p, &deposit_ctx(ALICE), 10, 200).is_ok());
}

#[test]
fn deposit_needs_the_whitelist_authority() {
    let mut p = setup();
    let mut ctx = deposit_ctx(ALICE);
    ctx.whitelist_authority = addr(ADMIN);
    assert_eq!(user_deposit(&mut p, &ctx, 10, 150), Err(ErrorCode::NotWhitelistAuthority));
    assert_eq!(raised(&p), 0);
    assert!(p.positions.is_empty());
}

#[test]
fn deposit_of_the_wrong_asset_fails() {
    let mut p = setup();
    let mut ctx = deposit_ctx(ALICE);
    ctx.raised_token_mint = addr(LAUNCHED);
    assert_eq!(user_deposit(&mut p, &ctx, 10, 150), Err(ErrorCode::InvalidMint));
}

#[test]
fn deposit_into_unknown_campaign_fails() {
    let mut p = setup();
    let mut ctx = deposit_ctx(ALICE);
    ctx.lbp = 9;
    assert_eq!(user_deposit(&mut p, &ctx, 10, 150), Err(ErrorCode::AccountNotInitialized));
}

#[test]
fn deposit_after_vesting_fails() {
    let mut p = setup();
    user_deposit(&mut p, &deposit_ctx(ALICE), 600, 150).unwrap();
    project_deposit(&mut p, &project_ctx(), 2000, 150).unwrap();
    move_to_vesting_phase(&mut p, &phase_ctx(), 160).unwrap();
    assert_eq!(
        user_deposit(&mut p, &deposit_ctx(BOB), 10, 170),
        Err(ErrorCode::UnauthorisedOperationInCurrentPhase)
    );
    assert_eq!(p.lbps.get(&UID).unwrap().lbp.raised_token_cap, 600);
}

#[test]
fn project_deposit_needs_the_exact_cap() {
    let mut p = setup();
    assert_eq!(project_deposit(&mut p, &project_ctx(), 1999, 150), Err(ErrorCode::InvalidAmount));
    assert_eq!(project_deposit(&mut p, &project_ctx(), 2001, 150), Err(ErrorCode::InvalidAmount));
    let c = p.lbps.get(&UID).unwrap();
    assert_eq!(c.launched_token_amount, 0);
    assert!(c.project_position.is_none());
    assert_eq!(p.next_position_mint, 0);
    assert_eq!(project_deposit(&mut p, &project_ctx(), 2000, 150), Ok(0));
    let c = p.lbps.get(&UID).unwrap();
    assert_eq!(c.launched_token_amount, 2000);
    let r = c.project_position.unwrap();
    assert_eq!(r.position.amount, 2000);
    assert_eq!(r.holder, addr(PROJECT));
    assert!(!r.transferable);
    assert_eq!(project_deposit(&mut p, &project_ctx(), 2000, 150), Err(ErrorCode::MaxCapReached));
}

#[test]
fn project_deposit_by_another_signer_fails() {
    let mut p = setup();
    let mut ctx = project_ctx();
    ctx.project = addr(ALICE);
    assert_eq!(project_deposit(&mut p, &ctx, 2000, 150), Err(ErrorCode::NotProject));
}

#[test]
fn project_refund_returns_the_launched_amount_once() {
    let mut p = setup();
    let m = project_deposit(&mut p, &project_ctx(), 2000, 150).unwrap();
    move_to_refund_phase(&mut p, &refund_phase_ctx()).unwrap();
    let ctx = ProjectRefund {
        project: addr(PROJECT),
        lbp: UID,
        position_mint: m,
        launched_token_mint: addr(LAUNCHED),
    };
    assert_eq!(project_refund(&mut p, &ctx), Ok(2000));
    assert_eq!(p.lbps.get(&UID).unwrap().launched_token_amount, 0);
    assert_eq!(project_refund(&mut p, &ctx), Err(ErrorCode::DoesNotHoldPosition));
}

#[test]
fn vesting_needs_the_project_funding() {
    let mut p = setup();
    user_deposit(&mut p, &deposit_ctx(ALICE), 600, 150).unwrap();
    assert_eq!(
        move_to_vesting_phase(&mut p, &phase_ctx(), 300).map(|_| ()),
        Err(ErrorCode::InvalidPhaseChange)
    );
    assert_eq!(phase(&p), Phase::FundCollection);
}

#[test]
fn refund_phase_refused_once_minimum_is_met() {
    let mut p = setup();
    user_deposit(&mut p, &deposit_ctx(ALICE), 500, 150).unwrap();
    assert_eq!(move_to_refund_phase(&mut p, &refund_phase_ctx()), Err(ErrorCode::InvalidPhaseChange));
}

#[test]
fn phase_never_goes_back_or_sideways() {
    let mut p = setup();
    move_to_refund_phase(&mut p, &refund_phase_ctx()).unwrap();
    assert_eq!(
        move_to_vesting_phase(&mut p, &phase_ctx(), 300).map(|_| ()),
        Err(ErrorCode::InvalidPhaseChange)
    );
    assert_eq!(move_to_refund_phase(&mut p, &refund_phase_ctx()), Err(ErrorCode::InvalidPhaseChange));
    assert_eq!(phase(&p), Phase::Refund);

    let mut q = setup();
    user_deposit(&mut q, &deposit_ctx(ALICE), 700, 150).unwrap();
    project_deposit(&mut q, &project_ctx(), 2000, 150).unwrap();
    move_to_vesting_phase(&mut q, &phase_ctx(), 300).unwrap();
    assert_eq!(move_to_refund_phase(&mut q, &refund_phase_ctx()), Err(ErrorCode::InvalidPhaseChange));
    assert_eq!(
        move_to_vesting_phase(&mut q, &phase_ctx(), 400).map(|_| ()),
        Err(ErrorCode::InvalidPhaseChange)
    );
    let c = q.lbps.get(&UID).unwrap();
    assert_eq!(c.lbp.phase, Phase::Vesting);
    assert_eq!(c.lbp.raised_token_cap, 700);
    assert_eq!(c.lbp.vesting_start_time, 300);
}

#[test]
fn phase_change_with_wrong_asset_fails() {
    let mut p = setup();
    let mut ctx = refund_phase_ctx();
    ctx.raised_token_mint = addr(LAUNCHED);
    assert_eq!(move_to_refund_phase(&mut p, &ctx), Err(ErrorCode::InvalidMint));
}

#[test]
fn phase_change_by_non_admin_fails() {
    let mut p = setup();
    let mut ctx = refund_phase_ctx();
    ctx.admin_authority = addr(ALICE);
    assert_eq!(move_to_refund_phase(&mut p, &ctx), Err(ErrorCode::NotAdminAuthority));
}

#[test]
fn initialize_only_once_and_only_by_deployer() {
    let mut p = Borgpad::new(addr(DEPLOYER));
    assert_eq!(
        initialize(&mut p, &Initialize { deployer: addr(ADMIN) }, addr(ADMIN), addr(WHITELIST)),
        Err(ErrorCode::NotUpgradeAuthority)
    );
    assert!(p.config.is_none());
    assert_eq!(
        initialize(&mut p, &Initialize { deployer: addr(DEPLOYER) }, addr(ADMIN), addr(WHITELIST)),
        Ok(())
    );
    let c = p.config.unwrap();
    assert_eq!(c.admin_authority, addr(ADMIN));
    assert_eq!(c.whitelist_authority, addr(WHITELIST));
    assert!(c.pending_admin_authority.is_none());
    assert_eq!(
        initialize(&mut p, &Initialize { deployer: addr(DEPLOYER) }, addr(ALICE), addr(BOB)),
        Err(ErrorCode::AccountAlreadyInitialized)
    );
    assert_eq!(p.config.unwrap().admin_authority, addr(ADMIN));
}

#[test]
fn operations_before_initialize_fail() {
    let mut p = Borgpad::new(addr(DEPLOYER));
    let ctx = InitializeLbp {
        admin_authority: addr(ADMIN),
        raised_token_mint: addr(RAISED),
        launched_token_mint: addr(LAUNCHED),
    };
    assert_eq!(initialize_lbp(&mut p, &ctx, terms()), Err(ErrorCode::AccountNotInitialized));
}

#[test]
fn campaign_creation_checks() {
    let mut p = setup();
    let ctx = InitializeLbp {
        admin_authority: addr(ADMIN),
        raised_token_mint: addr(RAISED),
        launched_token_mint: addr(LAUNCHED),
    };
    assert_eq!(initialize_lbp(&mut p, &ctx, terms()), Err(ErrorCode::AccountAlreadyInitialized));
    let mut other = terms();
    other.uid = 8;
    let mut wrong = ctx;
    wrong.raised_token_mint = addr(BOB);
    assert_eq!(initialize_lbp(&mut p, &wrong, other), Err(ErrorCode::InvalidMint));
    let mut wrong = ctx;
    wrong.launched_token_mint = addr(BOB);
    assert_eq!(initialize_lbp(&mut p, &wrong, other), Err(ErrorCode::InvalidMint));
    let mut wrong = ctx;
    wrong.admin_authority = addr(BOB);
    assert_eq!(initialize_lbp(&mut p, &wrong, other), Err(ErrorCode::NotAdminAuthority));
    assert!(p.lbps.get(&8).is_none());
    assert_eq!(initialize_lbp(&mut p, &ctx, other), Ok(()));
    assert_eq!(p.lbps.len(), 2);
}

#[test]
fn admin_handover_needs_the_nominee() {
    let mut p = setup();
    let a = addr(ADMIN);
    let b = addr(BOB);
    assert_eq!(
        nominate_new_admin_authority(&mut p, &NominateNewAdminAuthority { admin_authority: a }, b),
        Ok(())
    );
    assert_eq!(p.config.unwrap().pending_admin_authority, Some(b));
    assert_eq!(
        accept_admin_authority(&mut p, &AcceptAdminAuthority { new_admin_authority: a }),
        Err(ErrorCode::NotAdminAuthority)
    );
    assert_eq!(p.config.unwrap().admin_authority, a);
    assert_eq!(accept_admin_authority(&mut p, &AcceptAdminAuthority { new_admin_authority: b }), Ok(()));
    let c = p.config.unwrap();
    assert_eq!(c.admin_authority, b);
    assert!(c.pending_admin_authority.is_none());
    assert_eq!(
        set_whitelist_authority(&mut p, &SetWhitelistAuthority { admin_authority: a }, addr(ALICE)),
        Err(ErrorCode::NotAdminAuthority)
    );
    assert_eq!(
        nominate_new_admin_authority(&mut p, &NominateNewAdminAuthority { admin_authority: a }, a),
        Err(ErrorCode::NotAdminAuthority)
    );
    assert_eq!(
        set_whitelist_authority(&mut p, &SetWhitelistAuthority { admin_authority: b }, addr(ALICE)),
        Ok(())
    );
    assert_eq!(p.config.unwrap().whitelist_authority, addr(ALICE));
}

#[test]
fn accept_without_nomination_fails() {
    let mut p = setup();
    assert_eq!(
        accept_admin_authority(&mut p, &AcceptAdminAuthority { new_admin_authority: addr(BOB) }),
        Err(ErrorCode::NotAdminAuthority)
    );
}

#[test]
fn nominate_by_non_admin_fails() {
    let mut p = setup();
    assert_eq!(
        nominate_new_admin_authority(
            &mut p,
            &NominateNewAdminAuthority { admin_authority: addr(BOB) },
            addr(BOB)
        ),
        Err(ErrorCode::NotAdminAuthority)
    );
    assert!(p.config.unwrap().pending_admin_authority.is_none());
}
