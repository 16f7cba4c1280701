use ark_firmware::boot::BootError;
use ark_firmware::crypto::CryptoError;
use ark_firmware::hardware::{
    entropy_rate_sufficient, HardwareError, REG_COMPUTE_OUTPUT, OpticGate, PufHeart, TriComputeCore, TripFuse,
    COMPUTE_SIGNATURE, ENTROPY_TEST_BITS, FUSE_SIGNATURE, GATE_SIGNATURE, PUF_SIGNATURE,
};
use ark_firmware::memory_map;
use ark_firmware::mmio::{
    RegisterBlock, REG_REQUEST, REG_RESULT, REG_SEED, REG_SIGNATURE, REG_START, REG_STATUS,
};

fn ready_block(base: usize, signature: u32) -> RegisterBlock {
    let mut b = RegisterBlock::new(base);
    b.write(REG_SIGNATURE, signature);
    b.write(REG_STATUS, 1);
    b
}

fn puf_block() -> RegisterBlock {
    let mut b = ready_block(memory_map::PUF_HEART_BASE, PUF_SIGNATURE);
    for i in 0..64 {
        b.write(REG_SEED + 4 * i, 0x0101_0101 * (i as u32 + 1));
    }
    for i in 0..16 {
        b.write(REG_RESULT + 4 * i, 0xA0B0_C000 + i as u32);
    }
    b
}

fn puf(block: RegisterBlock) -> PufHeart {
    match PufHeart::initialize(block) {
        Ok(p) => p,
        Err(_) => panic!("entropy source did not come up"),
    }
}

fn gate(block: RegisterBlock) -> OpticGate {
    match OpticGate::initialize(block) {
        Ok(g) => g,
        Err(_) => panic!("latch did not come up"),
    }
}

fn fuse_block(open: Option<usize>) -> RegisterBlock {
    let mut b = ready_block(memory_map::TRIP_FUSE_BASE, FUSE_SIGNATURE);
    for i in 0..32 {
        let closed = Some(i) != open;
        b.write(REG_RESULT + 4 * i, if closed { 1 } else { 0 });
    }
    b
}

fn expected_response() -> [u8; 64] {
    let mut r = [0u8; 64];
    for i in 0..16 {
        let w: u32 = 0xA0B0_C000 + i as u32;
        r[4 * i..4 * i + 4].copy_from_slice(&w.to_le_bytes());
    }
    r
}

#[test]
fn puf_initialize_checks_signature_and_completion() {
    assert!(PufHeart::initialize(RegisterBlock::new(memory_map::PUF_HEART_BASE)).is_err());
    let mut not_ready = puf_block();
    not_ready.write(REG_STATUS, 0);
    assert!(PufHeart::initialize(not_ready).is_err());
    assert!(PufHeart::initialize(puf_block()).is_ok());
}

#[test]
fn challenge_returns_device_response() {
    let mut p = puf(puf_block());
    let salt = [0x11u8; 16];
    assert_eq!(p.get_challenge(&salt), Ok(expected_response()));
    assert_eq!(p.registers().read(REG_REQUEST), 0x1111_1111);
    assert_eq!(p.registers().read(REG_START), 1);
}

#[test]
fn repeated_salt_is_answered_from_cache() {
    let mut p = puf(puf_block());
    let salt: [u8; 16] = [1, 2, 3, 4, 5, 6, 7, 8, 9, 10, 11, 12, 13, 14, 15, 16];
    let first = p.get_challenge(&salt);
    let regs_after_first: Vec<u32> = (0..128).map(|i| p.registers().read(4 * i)).collect();
    let second = p.get_challenge(&salt);
    let regs_after_second: Vec<u32> = (0..128).map(|i| p.registers().read(4 * i)).collect();
    assert_eq!(first, second);
    assert_eq!(regs_after_first, regs_after_second);
    assert_eq!(p.registers().read(REG_REQUEST), 0x0403_0201);
}

#[test]
fn different_salt_reaches_the_device() {
    let mut p = puf(puf_block());
    let a = [0xAAu8; 16];
    let b = [0xBBu8; 16];
    assert!(p.get_challenge(&a).is_ok());
    assert_eq!(p.registers().read(REG_REQUEST + 12), 0xAAAA_AAAA);
    assert!(p.get_challenge(&b).is_ok());
    assert_eq!(p.registers().read(REG_REQUEST + 12), 0xBBBB_BBBB);
}

#[test]
fn get_entropy_serves_pool_prefix_and_rotates() {
    let mut p = puf(puf_block());
    let mut out = [0u8; 8];
    assert_eq!(p.get_entropy(&mut out), Ok(()));
    assert_eq!(out, [1, 1, 1, 1, 2, 2, 2, 2]);
    assert_eq!(p.get_entropy(&mut out), Ok(()));
    assert_eq!(out, [9, 9, 9, 9, 10, 10, 10, 10]);
}

#[test]
fn get_entropy_rejects_oversized_request() {
    let mut p = puf(puf_block());
    let mut out = [0u8; 257];
    assert_eq!(p.get_entropy(&mut out), Err(CryptoError::InsufficientEntropy));
    assert_eq!(out, [0u8; 257]);
}

#[test]
fn zeroized_pool_is_reseeded_on_next_serve() {
    let mut p = puf(puf_block());
    p.emergency_zeroize();
    for w in 0..16 {
        assert_eq!(p.registers().read(4 * w), 0);
    }
    assert_eq!(p.registers().read(REG_SEED), 0x0101_0101);
    // The status register was cleared too, so the re-seed times out.
    let mut out = [0u8; 4];
    assert_eq!(p.get_entropy(&mut out), Err(CryptoError::HardwareTimeout));
    assert_eq!(out, [0u8; 4]);
}

#[test]
fn entropy_rate_floor_boundary() {
    assert!(entropy_rate_sufficient(ENTROPY_TEST_BITS, 1_000_000));
    assert!(!entropy_rate_sufficient(ENTROPY_TEST_BITS, 1_000_001));
    assert!(!entropy_rate_sufficient(ENTROPY_TEST_BITS, 1_280_000));
    assert!(entropy_rate_sufficient(ENTROPY_TEST_BITS, 0));
    assert!(entropy_rate_sufficient(1024, 2));
}

#[test]
fn entropy_test_passes_exactly_at_floor() {
    let mut block = puf_block();
    block.set_timer_samples(vec![5, 1_000_005]);
    let mut p = puf(block);
    assert_eq!(p.entropy_test(), Ok(()));
}

#[test]
fn entropy_test_fails_below_floor() {
    let mut block = puf_block();
    block.set_timer_samples(vec![0, 1_280_000]);
    let mut p = puf(block);
    assert_eq!(p.entropy_test(), Err(BootError::HardwareTestFailed));
}

#[test]
fn write_decision_rejects_out_of_range_values() {
    let mut g = gate(ready_block(memory_map::OPTIC_GATE_BASE, GATE_SIGNATURE));
    for d in [0u8, 4, 5, 200, 255] {
        assert_eq!(g.write_decision(d), Err(HardwareError::IntegrityFailed));
        assert_eq!(g.last_decision(), None);
    }
    assert_eq!(g.write_decision(2), Ok(()));
    assert_eq!(g.last_decision(), Some(2));
    assert_eq!(g.write_decision(0), Err(HardwareError::IntegrityFailed));
    assert_eq!(g.last_decision(), Some(2));
}

#[test]
fn late_write_is_committed_and_reported() {
    let mut block = ready_block(memory_map::OPTIC_GATE_BASE, GATE_SIGNATURE);
    block.set_timer_samples(vec![100, 111, 200, 210]);
    let mut g = gate(block);
    assert_eq!(g.write_decision(3), Err(HardwareError::TimingViolation));
    assert_eq!(g.last_decision(), Some(3));
    assert_eq!(g.write_decision(1), Ok(()));
    let stats = g.timing_stats();
    assert_eq!(stats.decision_count, 2);
    assert_eq!(stats.min_latency_ns, 10);
    assert_eq!(stats.max_latency_ns, 11);
    assert_eq!(stats.avg_latency_ns, 10);
}

fn latency_samples(latencies: &[u32]) -> Vec<u32> {
    let mut t = 0u32;
    let mut v = Vec::new();
    for &l in latencies {
        v.push(t);
        t += l;
        v.push(t);
        t += 100;
    }
    v
}

#[test]
fn timing_test_passes_when_all_writes_at_bound() {
    let mut block = ready_block(memory_map::OPTIC_GATE_BASE, GATE_SIGNATURE);
    block.set_timer_samples(latency_samples(&[10u32; 1000]));
    let mut g = gate(block);
    assert_eq!(g.timing_test(), Ok(()));
    assert_eq!(g.timing_stats().decision_count, 1000);
    assert_eq!(g.last_decision(), Some(1));
}

#[test]
fn timing_test_fails_on_one_late_write() {
    let mut lat = [3u32; 1000];
    lat[500] = 11;
    let mut block = ready_block(memory_map::OPTIC_GATE_BASE, GATE_SIGNATURE);
    block.set_timer_samples(latency_samples(&lat));
    let mut g = gate(block);
    assert_eq!(g.timing_test(), Err(BootError::HardwareTestFailed));
    // Write 500 is the late one; 500 % 3 + 1 is PURGE, and it was committed.
    assert_eq!(g.last_decision(), Some(3));
    assert_eq!(g.timing_stats().decision_count, 501);
}

#[test]
fn continuity_test_passes_with_all_fuses_closed() {
    let mut f = match TripFuse::initialize(fuse_block(None)) {
        Ok(f) => f,
        Err(_) => panic!("fuse mesh did not come up"),
    };
    assert_eq!(f.continuity_test(), Ok(()));
    assert_eq!(f.fuse_states(), [true; 32]);
}

#[test]
fn continuity_test_fails_with_one_open_fuse() {
    for open in [0usize, 17, 31] {
        let mut f = match TripFuse::initialize(fuse_block(Some(open))) {
            Ok(f) => f,
            Err(_) => panic!("fuse mesh did not come up"),
        };
        assert_eq!(f.continuity_test(), Err(BootError::HardwareTestFailed));
        assert!(!f.fuse_states()[open]);
    }
}

fn compute_block() -> RegisterBlock {
    let mut block = ready_block(memory_map::TRI_COMPUTE_BASE, COMPUTE_SIGNATURE);
    block.write(REG_COMPUTE_OUTPUT, 0x4433_2211);
    block.write(REG_COMPUTE_OUTPUT + 4, 0x8877_6655);
    block
}

#[test]
fn compute_core_hands_request_to_device() {
    let mut c = match TriComputeCore::initialize(compute_block()) {
        Ok(c) => c,
        Err(_) => panic!("compute core did not come up"),
    };
    assert_eq!(c.execute(&[1, 2, 3, 4, 5, 6]), Ok(vec![0x11, 0x22, 0x33, 0x44, 0x55, 0x66]));
    assert_eq!(c.registers().read(REG_REQUEST), 0x0403_0201);
    assert_eq!(c.registers().read(REG_REQUEST + 4), 0x0000_0605);
    assert_eq!(c.registers().read(REG_REQUEST + 8), 0);
    assert_eq!(c.registers().read(REG_START), 1);
    assert_eq!(c.execute(&[]), Ok(vec![]));
}

#[test]
fn compute_core_rejects_oversized_request() {
    let mut c = match TriComputeCore::initialize(compute_block()) {
        Ok(c) => c,
        Err(_) => panic!("compute core did not come up"),
    };
    assert_eq!(c.execute(&[0u8; 17]), Err(HardwareError::IntegrityFailed));
    assert_eq!(c.registers().read(REG_START), 0);
    assert_eq!(c.execute(&[9u8; 16]).map(|v| v.len()), Ok(16));
}

#[test]
fn compute_core_times_out_without_completion() {
    let mut block = compute_block();
    block.write(REG_STATUS, 0);
    let mut c = match TriComputeCore::initialize(block) {
        Ok(c) => c,
        Err(_) => panic!("compute core did not come up"),
    };
    assert_eq!(c.execute(&[1]), Err(HardwareError::Timeout));
    assert_eq!(c.registers().read(REG_REQUEST), 1);
}

#[test]
fn compute_core_cross_checks_lanes_and_wipes() {
    let mut c = match TriComputeCore::initialize(compute_block()) {
        Ok(c) => c,
        Err(_) => panic!("compute core did not come up"),
    };
    assert_eq!(c.integrity_test(), Ok(()));
    c.emergency_zeroize();
    for w in 0..64 {
        assert_eq!(c.registers().read(4 * w), 0);
    }

    let mut block = ready_block(memory_map::TRI_COMPUTE_BASE, COMPUTE_SIGNATURE);
    block.write(REG_RESULT + 8, 9);
    let mut bad = match TriComputeCore::initialize(block) {
        Ok(c) => c,
        Err(_) => panic!("compute core did not come up"),
    };
    assert_eq!(bad.integrity_test(), Err(BootError::HardwareTestFailed));
}

#[test]
fn drivers_reject_wrong_signature() {
    assert!(OpticGate::initialize(ready_block(0, PUF_SIGNATURE)).is_err());
    assert!(TriComputeCore::initialize(ready_block(0, GATE_SIGNATURE)).is_err());
    assert!(TripFuse::initialize(ready_block(0, COMPUTE_SIGNATURE)).is_err());
}

#[test]
fn register_block_ignores_offsets_off_the_window() {
    let mut b = RegisterBlock::new(0x1000);
    b.write(3, 7);
    b.write(4 * 128, 7);
    assert_eq!(b.read(3), 0);
    assert_eq!(b.read(4 * 128), 0);
    b.write(8, 7);
    assert_eq!(b.read(8), 7);
    assert_eq!(b.base_address(), 0x1000);
}

#[test]
fn timer_holds_last_sample() {
    let mut b = RegisterBlock::new(0);
    assert_eq!(b.read_timer(), 0);
    b.set_timer_samples(vec![4, 9]);
    assert_eq!(b.read_timer(), 4);
    assert_eq!(b.read_timer(), 9);
    assert_eq!(b.read_timer(), 9);
}
