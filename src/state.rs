pub mod config;
pub mod lbp;
pub mod position;
