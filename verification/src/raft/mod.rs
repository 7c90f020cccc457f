//! Consensus-side types: message routing and the example key-value state
//! machine.

pub mod messages;
pub mod proposals;
pub mod kv_example;
