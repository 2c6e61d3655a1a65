pub mod types;
pub mod utils;
pub mod gateway_elemination_scoring;
pub mod gateway_scoring_service;
pub mod elimination_v3;
