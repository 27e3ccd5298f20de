//! Services built on a validated configuration.

pub mod qingstor;
