pub mod config;
pub mod decimal;
pub mod harness;
pub mod ids;
