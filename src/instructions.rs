pub mod initialize;
pub mod nominate_new_admin_authority;
pub mod accept_admin_authority;
pub mod set_whitelist_authority;
pub mod initialize_lbp;
pub mod user_deposit;
pub mod user_refund;
pub mod project_deposit;
pub mod project_refund;
pub mod move_to_refund_phase;
pub mod move_to_vesting_phase;
