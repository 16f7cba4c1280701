//! Secure-boot chain and hardware root of trust for an embedded appliance.
pub mod boot;
pub mod crypto;
pub mod digest;
pub mod hardware;
pub mod memory_map;
pub mod mmio;
pub mod orchestrator;
pub mod policy;
pub mod security;
