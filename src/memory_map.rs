//! Fixed physical addresses of the devices and memories.
use vstd::prelude::*;

verus! {

/// Entropy/identity source.
pub const PUF_HEART_BASE: usize = 0x1000_0000;

/// Decision latch.
pub const OPTIC_GATE_BASE: usize = 0x1001_0000;

/// Hybrid compute core.
pub const TRI_COMPUTE_BASE: usize = 0x1002_0000;

/// Fuse mesh.
pub const TRIP_FUSE_BASE: usize = 0x1003_0000;

/// True random number generator.
pub const TRNG_BASE: usize = 0x1004_0000;

/// Immutable code ROM.
pub const SECURE_ROM_BASE: usize = 0x2000_0000;

/// Size of the immutable code ROM.
pub const SECURE_ROM_SIZE: usize = 0x10_0000;

/// Secure working RAM, where key material lives.
pub const SECURE_RAM_BASE: usize = 0x3000_0000;

/// Size of the protected part of secure RAM.
pub const SECURE_RAM_SIZE: usize = 0x1000;

} // verus!
