//! Execution core of an account-based bytecode virtual machine: a bounded
//! operand stack and the gas-metering rules that price instructions by
//! protocol revision, operand value, and account warmth.

pub mod gas;
pub mod stack;
pub mod types;
