pub mod config;
pub mod payment;
