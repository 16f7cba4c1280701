//! The boot verifier: five ordered, one-shot verification phases over inputs
//! that are already captured, and the boot milestone record.
use vstd::prelude::*;
use crate::digest::{blake3_digest, blake3_of, ct_eq, sha3_256_digest, sha3_256_of, wipe_bytes};
use crate::hardware::{
    HardwareBlocks,
    COMPUTE_SIGNATURE,
    FUSE_SIGNATURE,
    GATE_SIGNATURE,
    PUF_SIGNATURE,
};
use crate::mmio::{RegisterBlock, REG_SIGNATURE};

verus! {

/// The stack canary value compiled into the image.
pub const EXPECTED_STACK_CANARY: u64 = 0xDEAD_BEEF_CAFE_BABE;

/// Reference SHA3-256 digest of the foundational-policy corpus, as provisioned.
pub const MORAL_FOUNDATION_HASH: [u8; 32] = [
    0x4a, 0x7d, 0x1e, 0xd4, 0x14, 0x2c, 0x3b, 0x5e,
    0x9f, 0x12, 0x8a, 0xe6, 0x77, 0xc4, 0x2d, 0x13,
    0xe8, 0x95, 0x3a, 0x7b, 0x81, 0x0c, 0x6f, 0x29,
    0x54, 0xd7, 0x36, 0xb9, 0x42, 0x8e, 0x1f, 0xa3,
];

/// Verification-layer errors; each one is terminal.
#[derive(Debug, Clone, Copy, PartialEq, Eq, Structural)]
pub enum BootError {
    /// The foundational-policy corpus does not match its reference digest.
    MoralFoundationCorrupted,
    /// A device is missing or failed its self-test.
    HardwareTestFailed,
    /// The firmware image does not match its reference digest.
    CryptoVerificationFailed,
    /// A memory-integrity marker or a protected region is corrupted.
    MemoryCorruption,
    /// A remote-disable mechanism was found.
    KillSwitchDetected,
    /// An unauthorized modification was found.
    UnauthorizedModification,
}

/// The reference digests embedded at build time.
pub struct ReferenceDigest {
    /// BLAKE3 digest of the immutable code region.
    pub firmware: [u8; 32],
    /// SHA3-256 digest of the foundational-policy corpus.
    pub policy: [u8; 32],
}

/// Everything the verifier reads, captured before it runs.
pub struct BootImage {
    /// The live stack canary.
    pub stack_canary: u64,
    /// Whether the heap integrity markers are intact.
    pub heap_intact: bool,
    /// The immutable code region.
    pub firmware: Vec<u8>,
    /// The embedded foundational-policy corpus.
    pub policy_corpus: Vec<u8>,
    /// Whether a probe found an externally reachable shutdown mechanism.
    pub external_shutdown: bool,
    /// The embedded reference digests.
    pub digests: ReferenceDigest,
}

/// `hay` holds `pat` as a contiguous run of bytes.
pub open spec fn contains_pattern(hay: Seq<u8>, pat: Seq<u8>) -> bool {
    exists|i: int|
        0 <= i <= hay.len() - pat.len() && #[trigger] hay.subrange(i, i + pat.len()) == pat
}

/// The deny-list of remote-disable byte patterns.
pub open spec fn kill_switch_patterns() -> Seq<Seq<u8>> {
    seq![
        seq![107u8, 105, 108, 108],
        seq![115u8, 104, 117, 116, 100, 111, 119, 110],
        seq![100u8, 105, 115, 97, 98, 108, 101],
        seq![114u8, 101, 109, 111, 116, 101, 95, 115, 116, 111, 112],
        seq![101u8, 109, 101, 114, 103, 101, 110, 99, 121, 95, 104, 97, 108, 116],
        seq![98u8, 97, 99, 107, 100, 111, 111, 114],
    ]
}

/// Phase 1: the stack canary and the heap markers are intact.
pub open spec fn memory_intact(img: &BootImage) -> bool {
    img.stack_canary == EXPECTED_STACK_CANARY && img.heap_intact
}

/// Phase 2: the code region hashes to the embedded firmware digest.
pub open spec fn firmware_authentic(img: &BootImage) -> bool {
    blake3_of(img.firmware@) == img.digests.firmware@
}

/// Phase 3: no deny-listed pattern occurs in the image and no external
/// shutdown mechanism was found.
pub open spec fn kill_switch_free(img: &BootImage) -> bool {
    &&& forall|j: int|
        0 <= j < kill_switch_patterns().len() ==> !contains_pattern(
            img.firmware@,
            #[trigger] kill_switch_patterns()[j],
        )
    &&& !img.external_shutdown
}

/// Phase 4: the policy corpus hashes to the embedded policy digest.
pub open spec fn policy_authentic(img: &BootImage) -> bool {
    sha3_256_of(img.policy_corpus@) == img.digests.policy@
}

/// Phase 5: every device shows its class signature at offset 0.
pub open spec fn hardware_present(d: &HardwareBlocks) -> bool {
    &&& d.puf_heart.reg(0) == PUF_SIGNATURE
    &&& d.optic_gate.reg(0) == GATE_SIGNATURE
    &&& d.tri_compute.reg(0) == COMPUTE_SIGNATURE
    &&& d.trip_fuse.reg(0) == FUSE_SIGNATURE
}

/// The verifier's outcome: the error of the first phase that fails.
pub open spec fn boot_verdict(img: &BootImage, d: &HardwareBlocks) -> Result<(), BootError> {
    if !memory_intact(img) {
        Err(BootError::MemoryCorruption)
    } else if !firmware_authentic(img) {
        Err(BootError::CryptoVerificationFailed)
    } else if !kill_switch_free(img) {
        Err(BootError::KillSwitchDetected)
    } else if !policy_authentic(img) {
        Err(BootError::MoralFoundationCorrupted)
    } else if !hardware_present(d) {
        Err(BootError::HardwareTestFailed)
    } else {
        Ok(())
    }
}

/// Whether `hay` holds `pat` as a contiguous run of bytes.
pub fn contains_bytes(hay: &[u8], pat: &[u8]) -> (r: bool)
    ensures
        r == contains_pattern(hay@, pat@),
{
    let n = hay.len();
    let m = pat.len();
    if m > n {
        return false;
    }
    let mut i: usize = 0;
    while i <= n - m
        invariant
            n == hay@.len(),
            m == pat@.len(),
            m <= n,
            i <= n - m + 1,
            forall|j: int| 0 <= j < i ==> #[trigger] hay@.subrange(j, j + m) != pat@,
        decreases n - m + 1 - i,
    {
        let mut k: usize = 0;
        while k < m && hay[i + k] == pat[k]
            invariant
                n == hay@.len(),
                m == pat@.len(),
                i + m <= n,
                k <= m,
                forall|t: int| 0 <= t < k ==> hay@[i + t] == pat@[t],
            decreases m - k,
        {
            k = k + 1;
        }
        if k == m {
            assert(hay@.subrange(i as int, i + m) =~= pat@);
            return true;
        }
        assert(hay@.subrange(i as int, i + m)[k as int] != pat@[k as int]);
        i = i + 1;
    }
    assert forall|j: int| 0 <= j <= n - m implies #[trigger] hay@.subrange(j, j + m) != pat@ by {}
    false
}

/// Zero-sized marker for the boot verifier, which lives in ROM.
pub struct ImmutableBoot;

impl ImmutableBoot {
    /// Runs the five verification phases in order and stops at the first
    /// failure. Nothing is retried.
    pub fn execute(image: &BootImage, devices: &HardwareBlocks) -> (r: Result<(), BootError>)
        requires
            devices.wf(),
        ensures
            r == boot_verdict(image, devices),
    {
        Self::verify_memory_integrity(image)?;
        Self::verify_cryptographic_integrity(image)?;
        Self::verify_no_kill_switch(image)?;
        Self::verify_moral_foundation_internal(image)?;
        Self::verify_hardware_availability(devices)?;
        Ok(())
    }

    fn verify_memory_integrity(image: &BootImage) -> (r: Result<(), BootError>)
        ensures
            r == (if memory_intact(image) {
                Ok(())
            } else {
                Err(BootError::MemoryCorruption)
            }),
    {
        if Self::get_stack_canary(image) != Self::expected_stack_canary() {
            return Err(BootError::MemoryCorruption);
        }
        Self::verify_heap_integrity(image)
    }

    fn verify_cryptographic_integrity(image: &BootImage) -> (r: Result<(), BootError>)
        ensures
            r == (if firmware_authentic(image) {
                Ok(())
            } else {
                Err(BootError::CryptoVerificationFailed)
            }),
    {
        let embedded_hash = Self::get_embedded_firmware_hash(image);
        let current_hash = Self::calculate_firmware_hash(image);
        if !ct_eq(embedded_hash.as_slice(), current_hash.as_slice()) {
            return Err(BootError::CryptoVerificationFailed);
        }
        Ok(())
    }

    fn verify_no_kill_switch(image: &BootImage) -> (r: Result<(), BootError>)
        ensures
            r == (if kill_switch_free(image) {
                Ok(())
            } else {
                Err(BootError::KillSwitchDetected)
            }),
    {
        let patterns = Self::get_kill_switch_patterns();
        let mut j: usize = 0;
        while j < patterns.len()
            invariant
                patterns.deep_view() == kill_switch_patterns(),
                j <= patterns.len(),
                forall|q: int|
                    0 <= q < j ==> !contains_pattern(
                        image.firmware@,
                        #[trigger] kill_switch_patterns()[q],
                    ),
            decreases patterns.len() - j,
        {
            assert(patterns[j as int]@ == kill_switch_patterns()[j as int]);
            if Self::firmware_contains_pattern(image, patterns[j].as_slice()) {
                return Err(BootError::KillSwitchDetected);
            }
            j = j + 1;
        }
        if Self::external_shutdown_detected(image) {
            return Err(BootError::KillSwitchDetected);
        }
        Ok(())
    }

    fn verify_moral_foundation_internal(image: &BootImage) -> (r: Result<(), BootError>)
        ensures
            r == (if policy_authentic(image) {
                Ok(())
            } else {
                Err(BootError::MoralFoundationCorrupted)
            }),
    {
        let expected_hash = Self::get_embedded_moral_hash(image);
        verify_moral_foundation(&expected_hash, image.policy_corpus.as_slice())
    }

    fn verify_hardware_availability(devices: &HardwareBlocks) -> (r: Result<(), BootError>)
        requires
            devices.wf(),
        ensures
            r == (if hardware_present(devices) {
                Ok(())
            } else {
                Err(BootError::HardwareTestFailed)
            }),
    {
        if !Self::check_puf_heart_availability(devices) {
            return Err(BootError::HardwareTestFailed);
        }
        if !Self::check_optic_gate_availability(devices) {
            return Err(BootError::HardwareTestFailed);
        }
        if !Self::check_tri_compute_availability(devices) {
            return Err(BootError::HardwareTestFailed);
        }
        if !Self::check_trip_fuse_availability(devices) {
            return Err(BootError::HardwareTestFailed);
        }
        Ok(())
    }

    fn get_stack_canary(image: &BootImage) -> (r: u64)
        ensures
            r == image.stack_canary,
    {
        image.stack_canary
    }

    fn expected_stack_canary() -> (r: u64)
        ensures
            r == EXPECTED_STACK_CANARY,
    {
        EXPECTED_STACK_CANARY
    }

    fn verify_heap_integrity(image: &BootImage) -> (r: Result<(), BootError>)
        ensures
            r == (if image.heap_intact {
                Ok(())
            } else {
                Err(BootError::MemoryCorruption)
            }),
    {
        if image.heap_intact {
            Ok(())
        } else {
            Err(BootError::MemoryCorruption)
        }
    }

    fn get_embedded_firmware_hash(image: &BootImage) -> (r: [u8; 32])
        ensures
            r == image.digests.firmware,
    {
        image.digests.firmware
    }

    fn calculate_firmware_hash(image: &BootImage) -> (r: [u8; 32])
        ensures
            r@ == blake3_of(image.firmware@),
    {
        blake3_digest(image.firmware.as_slice())
    }

    /// The deny-list of remote-disable byte patterns.
    pub fn get_kill_switch_patterns() -> (r: Vec<Vec<u8>>)
        ensures
            r.deep_view() == kill_switch_patterns(),
    {
        let r = vec![
            vec![107u8, 105, 108, 108],
            vec![115u8, 104, 117, 116, 100, 111, 119, 110],
            vec![100u8, 105, 115, 97, 98, 108, 101],
            vec![114u8, 101, 109, 111, 116, 101, 95, 115, 116, 111, 112],
            vec![101u8, 109, 101, 114, 103, 101, 110, 99, 121, 95, 104, 97, 108, 116],
            vec![98u8, 97, 99, 107, 100, 111, 111, 114],
        ];
        assert(r.deep_view() =~~= kill_switch_patterns());
        r
    }

    fn firmware_contains_pattern(image: &BootImage, pattern: &[u8]) -> (r: bool)
        ensures
            r == contains_pattern(image.firmware@, pattern@),
    {
        contains_bytes(image.firmware.as_slice(), pattern)
    }

    fn external_shutdown_detected(image: &BootImage) -> (r: bool)
        ensures
            r == image.external_shutdown,
    {
        image.external_shutdown
    }

    fn get_embedded_moral_hash(image: &BootImage) -> (r: [u8; 32])
        ensures
            r == image.digests.policy,
    {
        image.digests.policy
    }

    fn check_signature(block: &RegisterBlock, signature: u32) -> (r: bool)
        requires
            block.wf(),
        ensures
            r == (block.reg(0) == signature),
    {
        block.read(REG_SIGNATURE) == signature
    }

    fn check_puf_heart_availability(devices: &HardwareBlocks) -> (r: bool)
        requires
            devices.wf(),
        ensures
            r == (devices.puf_heart.reg(0) == PUF_SIGNATURE),
    {
        Self::check_signature(&devices.puf_heart, PUF_SIGNATURE)
    }

    fn check_optic_gate_availability(devices: &HardwareBlocks) -> (r: bool)
        requires
            devices.wf(),
        ensures
            r == (devices.optic_gate.reg(0) == GATE_SIGNATURE),
    {
        Self::check_signature(&devices.optic_gate, GATE_SIGNATURE)
    }

    fn check_tri_compute_availability(devices: &HardwareBlocks) -> (r: bool)
        requires
            devices.wf(),
        ensures
            r == (devices.tri_compute.reg(0) == COMPUTE_SIGNATURE),
    {
        Self::check_signature(&devices.tri_compute, COMPUTE_SIGNATURE)
    }

    fn check_trip_fuse_availability(devices: &HardwareBlocks) -> (r: bool)
        requires
            devices.wf(),
        ensures
            r == (devices.trip_fuse.reg(0) == FUSE_SIGNATURE),
    {
        Self::check_signature(&devices.trip_fuse, FUSE_SIGNATURE)
    }
}

/// Checks the policy corpus against a reference SHA3-256 digest, in
/// constant time.
pub fn verify_moral_foundation(expected_hash: &[u8; 32], corpus: &[u8]) -> (r: Result<
    (),
    BootError,
>)
    ensures
        r == (if sha3_256_of(corpus@) == expected_hash@ {
            Ok(())
        } else {
            Err(BootError::MoralFoundationCorrupted)
        }),
{
    let calculated_hash = sha3_256_digest(corpus);
    if !ct_eq(expected_hash.as_slice(), calculated_hash.as_slice()) {
        return Err(BootError::MoralFoundationCorrupted);
    }
    Ok(())
}

/// Milestones of one boot window. The entropy seed is wiped on exit.
pub struct SecureBootContext {
    /// The firmware digest matched.
    pub crypto_verified: bool,
    /// Every device initialized.
    pub hardware_available: bool,
    /// The policy corpus digest matched.
    pub moral_foundation_verified: bool,
    /// When the boot window opened.
    pub boot_timestamp: u64,
    /// Seed drawn from the entropy source for this boot.
    pub entropy_seed: [u8; 32],
}

impl SecureBootContext {
    /// A context with no milestone reached.
    pub fn new() -> (r: Self)
        ensures
            !r.crypto_verified,
            !r.hardware_available,
            !r.moral_foundation_verified,
            r.boot_timestamp == 0,
            r.entropy_seed@ == Seq::new(32, |i: int| 0u8),
    {
        let r = SecureBootContext {
            crypto_verified: false,
            hardware_available: false,
            moral_foundation_verified: false,
            boot_timestamp: 0,
            entropy_seed: [0u8; 32],
        };
        assert(r.entropy_seed@ =~= Seq::new(32, |i: int| 0u8));
        r
    }

    pub fn mark_crypto_verified(&mut self)
        ensures
            final(self).crypto_verified,
            final(self).hardware_available == old(self).hardware_available,
            final(self).moral_foundation_verified == old(self).moral_foundation_verified,
            final(self).boot_timestamp == old(self).boot_timestamp,
            final(self).entropy_seed@ == old(self).entropy_seed@,
    {
        self.crypto_verified = true;
    }

    pub fn mark_hardware_available(&mut self)
        ensures
            final(self).hardware_available,
            final(self).crypto_verified == old(self).crypto_verified,
            final(self).moral_foundation_verified == old(self).moral_foundation_verified,
            final(self).boot_timestamp == old(self).boot_timestamp,
            final(self).entropy_seed@ == old(self).entropy_seed@,
    {
        self.hardware_available = true;
    }

    pub fn mark_moral_foundation_verified(&mut self)
        ensures
            final(self).moral_foundation_verified,
            final(self).crypto_verified == old(self).crypto_verified,
            final(self).hardware_available == old(self).hardware_available,
            final(self).boot_timestamp == old(self).boot_timestamp,
            final(self).entropy_seed@ == old(self).entropy_seed@,
    {
        self.moral_foundation_verified = true;
    }

    /// Every milestone has been reached.
    pub fn is_boot_complete(&self) -> (r: bool)
        ensures
            r == (self.crypto_verified && self.hardware_available
                && self.moral_foundation_verified),
    {
        self.crypto_verified && self.hardware_available && self.moral_foundation_verified
    }

    /// Wipes the entropy seed as the boot window closes; the milestones stay.
    pub fn wipe_seed(&mut self)
        ensures
            final(self).entropy_seed@ == Seq::new(32, |i: int| 0u8),
            final(self).crypto_verified == old(self).crypto_verified,
            final(self).hardware_available == old(self).hardware_available,
            final(self).moral_foundation_verified == old(self).moral_foundation_verified,
            final(self).boot_timestamp == old(self).boot_timestamp,
    {
        wipe_bytes(&mut self.entropy_seed);
    }

    /// Clears every milestone and wipes the sensitive fields.
    pub fn zeroize(&mut self)
        ensures
            !final(self).crypto_verified,
            !final(self).hardware_available,
            !final(self).moral_foundation_verified,
            final(self).boot_timestamp == 0,
            final(self).entropy_seed@ == Seq::new(32, |i: int| 0u8),
    {
        wipe_bytes(&mut self.entropy_seed);
        self.crypto_verified = false;
        self.hardware_available = false;
        self.moral_foundation_verified = false;
        self.boot_timestamp = 0;
    }
}

} // verus!
