pub mod env_vars;
pub mod types;
pub mod gw_filter;
pub mod flows;
pub mod failure_reason;
pub mod gw_scoring;
pub mod storage_utils;
pub mod runner;
