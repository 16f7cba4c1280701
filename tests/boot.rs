use ark_firmware::boot::{
    contains_bytes, verify_moral_foundation, BootError, BootImage, ImmutableBoot, ReferenceDigest,
    SecureBootContext, EXPECTED_STACK_CANARY, MORAL_FOUNDATION_HASH,
};
use ark_firmware::hardware::{
    HardwareBlocks, COMPUTE_SIGNATURE, FUSE_SIGNATURE, GATE_SIGNATURE, PUF_SIGNATURE,
};
use ark_firmware::memory_map;
use ark_firmware::mmio::{RegisterBlock, REG_SIGNATURE};
use sha3::Digest;

fn block(base: usize, signature: u32) -> RegisterBlock {
    let mut b = RegisterBlock::new(base);
    b.write(REG_SIGNATURE, signature);
    b
}

fn devices() -> HardwareBlocks {
    HardwareBlocks {
        puf_heart: block(memory_map::PUF_HEART_BASE, PUF_SIGNATURE),
        optic_gate: block(memory_map::OPTIC_GATE_BASE, GATE_SIGNATURE),
        tri_compute: block(memory_map::TRI_COMPUTE_BASE, COMPUTE_SIGNATURE),
        trip_fuse: block(memory_map::TRIP_FUSE_BASE, FUSE_SIGNATURE),
    }
}

fn corpus() -> Vec<u8> {
    b"Genesis 1:27John 8:44Matthew 18:6Exodus 20:3Matthew 19:4-6".to_vec()
}

fn image() -> BootImage {
    let firmware = b"ARK immutable firmware image v1".to_vec();
    let policy_corpus = corpus();
    let digests = ReferenceDigest {
        firmware: *blake3::hash(&firmware).as_bytes(),
        policy: sha3::Sha3_256::digest(&policy_corpus).into(),
    };
    BootImage {
        stack_canary: EXPECTED_STACK_CANARY,
        heap_intact: true,
        firmware,
        policy_corpus,
        external_shutdown: false,
        digests,
    }
}

#[test]
fn test_moral_foundation_verification() {
    let expected_hash: [u8; 32] = sha3::Sha3_256::digest(&corpus()).into();
    assert!(verify_moral_foundation(&expected_hash, &corpus()).is_ok());
}

#[test]
fn moral_foundation_mismatch_is_rejected() {
    let mut expected_hash: [u8; 32] = sha3::Sha3_256::digest(&corpus()).into();
    expected_hash[0] ^= 1;
    assert_eq!(
        verify_moral_foundation(&expected_hash, &corpus()),
        Err(BootError::MoralFoundationCorrupted)
    );
    assert_eq!(
        verify_moral_foundation(&MORAL_FOUNDATION_HASH, &corpus()),
        Err(BootError::MoralFoundationCorrupted)
    );
}

#[test]
fn test_secure_boot_context() {
    let mut context = SecureBootContext::new();
    assert!(!context.is_boot_complete());

    context.mark_crypto_verified();
    context.mark_hardware_available();
    context.mark_moral_foundation_verified();

    assert!(context.is_boot_complete());
}

#[test]
fn secure_boot_context_zeroize_wipes_seed() {
    let mut context = SecureBootContext::new();
    context.entropy_seed = [0xAB; 32];
    context.boot_timestamp = 77;
    context.mark_crypto_verified();
    context.zeroize();
    assert_eq!(context.entropy_seed, [0u8; 32]);
    assert_eq!(context.boot_timestamp, 0);
    assert!(!context.crypto_verified);
}

#[test]
fn test_kill_switch_detection() {
    let patterns = ImmutableBoot::get_kill_switch_patterns();
    assert!(patterns.contains(&b"kill".to_vec()));
    assert!(patterns.contains(&b"shutdown".to_vec()));
}

#[test]
fn test_moral_foundation_hash() {
    assert_eq!(MORAL_FOUNDATION_HASH.len(), 32);
}

#[test]
fn test_memory_map_alignment() {
    assert_eq!(memory_map::PUF_HEART_BASE % 0x1000, 0);
    assert_eq!(memory_map::OPTIC_GATE_BASE % 0x1000, 0);
    assert_eq!(memory_map::TRI_COMPUTE_BASE % 0x1000, 0);
}

#[test]
fn contains_bytes_finds_runs() {
    assert!(contains_bytes(b"abc_kill_def", b"kill"));
    assert!(contains_bytes(b"kill", b"kill"));
    assert!(!contains_bytes(b"kil", b"kill"));
    assert!(!contains_bytes(b"k_i_l_l", b"kill"));
    assert!(contains_bytes(b"anything", b""));
}

#[test]
fn verifier_passes_on_intact_inputs() {
    assert_eq!(ImmutableBoot::execute(&image(), &devices()), Ok(()));
}

#[test]
fn verifier_rejects_bad_stack_canary() {
    let mut img = image();
    img.stack_canary = 0;
    assert_eq!(ImmutableBoot::execute(&img, &devices()), Err(BootError::MemoryCorruption));
}

#[test]
fn verifier_rejects_bad_heap_markers() {
    let mut img = image();
    img.heap_intact = false;
    assert_eq!(ImmutableBoot::execute(&img, &devices()), Err(BootError::MemoryCorruption));
}

#[test]
fn verifier_rejects_modified_firmware() {
    let mut img = image();
    img.firmware[3] ^= 0x80;
    assert_eq!(
        ImmutableBoot::execute(&img, &devices()),
        Err(BootError::CryptoVerificationFailed)
    );
}

#[test]
fn verifier_rejects_kill_switch_pattern() {
    let mut img = image();
    img.firmware = b"boot code with remote_stop handler".to_vec();
    img.digests.firmware = *blake3::hash(&img.firmware).as_bytes();
    assert_eq!(ImmutableBoot::execute(&img, &devices()), Err(BootError::KillSwitchDetected));
}

#[test]
fn verifier_rejects_external_shutdown() {
    let mut img = image();
    img.external_shutdown = true;
    assert_eq!(ImmutableBoot::execute(&img, &devices()), Err(BootError::KillSwitchDetected));
}

#[test]
fn verifier_rejects_corrupted_policy() {
    let mut img = image();
    img.policy_corpus[0] = b'X';
    assert_eq!(
        ImmutableBoot::execute(&img, &devices()),
        Err(BootError::MoralFoundationCorrupted)
    );
}

#[test]
fn verifier_rejects_missing_device() {
    let mut d = devices();
    d.trip_fuse = RegisterBlock::new(memory_map::TRIP_FUSE_BASE);
    assert_eq!(ImmutableBoot::execute(&image(), &d), Err(BootError::HardwareTestFailed));
}

#[test]
fn verifier_stops_at_first_failing_phase() {
    let mut img = image();
    img.stack_canary = 1;
    img.firmware[0] ^= 1;
    img.external_shutdown = true;
    assert_eq!(ImmutableBoot::execute(&img, &devices()), Err(BootError::MemoryCorruption));
}
