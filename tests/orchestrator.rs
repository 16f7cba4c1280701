use ark_firmware::boot::{BootError, BootImage, ReferenceDigest, EXPECTED_STACK_CANARY};
use ark_firmware::crypto::CryptoError;
use ark_firmware::hardware::{
    HardwareBlocks, HardwareError, COMPUTE_SIGNATURE, REG_COMPUTE_OUTPUT, DECISION_ALLOW, FUSE_SIGNATURE,
    GATE_SIGNATURE, PUF_SIGNATURE,
};
use ark_firmware::memory_map;
use ark_firmware::memory_map::{SECURE_RAM_BASE, SECURE_RAM_SIZE, SECURE_ROM_BASE, SECURE_ROM_SIZE};
use ark_firmware::mmio::{RegisterBlock, REG_RESULT, REG_SEED, REG_SIGNATURE, REG_STATUS};
use ark_firmware::orchestrator::{transition, BootEvent, BootOrchestrator, BootState};
use ark_firmware::security::{MemoryBus, MemorySegment, MonitorProbes};
use sha3::Digest;

fn ready_block(base: usize, signature: u32) -> RegisterBlock {
    let mut b = RegisterBlock::new(base);
    b.write(REG_SIGNATURE, signature);
    b.write(REG_STATUS, 1);
    b
}

fn devices() -> HardwareBlocks {
    let mut puf = ready_block(memory_map::PUF_HEART_BASE, PUF_SIGNATURE);
    for i in 0..64 {
        puf.write(REG_SEED + 4 * i, 0x0101_0101 * (i as u32 + 1));
    }
    let mut fuse = ready_block(memory_map::TRIP_FUSE_BASE, FUSE_SIGNATURE);
    for i in 0..32 {
        fuse.write(REG_RESULT + 4 * i, 1);
    }
    let mut compute = ready_block(memory_map::TRI_COMPUTE_BASE, COMPUTE_SIGNATURE);
    compute.write(REG_COMPUTE_OUTPUT, 0x0000_0908);
    HardwareBlocks {
        puf_heart: puf,
        optic_gate: ready_block(memory_map::OPTIC_GATE_BASE, GATE_SIGNATURE),
        tri_compute: compute,
        trip_fuse: fuse,
    }
}

fn memory() -> MemoryBus {
    MemoryBus {
        segments: vec![
            MemorySegment { base: SECURE_ROM_BASE, bytes: vec![0x5A; SECURE_ROM_SIZE] },
            MemorySegment { base: SECURE_RAM_BASE, bytes: vec![0x11; SECURE_RAM_SIZE] },
        ],
    }
}

fn image() -> BootImage {
    let firmware = b"ARK immutable firmware image v1".to_vec();
    let policy_corpus = b"Genesis 1:27John 8:44Matthew 18:6Exodus 20:3Matthew 19:4-6".to_vec();
    let digests = ReferenceDigest {
        firmware: *blake3::hash(&firmware).as_bytes(),
        policy: sha3::Sha3_256::digest(&policy_corpus).into(),
    };
    BootImage {
        stack_canary: EXPECTED_STACK_CANARY,
        heap_intact: true,
        firmware,
        policy_corpus,
        external_shutdown: false,
        digests,
    }
}

fn quiet() -> MonitorProbes {
    MonitorProbes { unauthorized_connection: false, timing_anomaly: false }
}

#[test]
fn scenario_all_checks_pass_reaches_running() {
    let mem = memory();
    let mut o = BootOrchestrator::boot(&image(), devices(), &mem, quiet(), 1000);
    assert_eq!(o.state(), BootState::Running);
    assert_eq!(o.last_error(), None);
    assert!(o.context().is_boot_complete());
    assert_eq!(o.context().boot_timestamp, 1000);
    assert_eq!(o.optic_gate_decision(DECISION_ALLOW), Ok(()));
    assert_eq!(o.optic_gate_decision(9), Err(HardwareError::IntegrityFailed));
    assert_eq!(o.tri_compute_execute(&[4, 5]), Ok(vec![8, 9]));
    assert_eq!(o.context().entropy_seed, [0u8; 32]);
    let mut buf = [0u8; 4];
    assert_eq!(o.get_entropy(&mut buf), Ok(()));
    assert!(o.puf_challenge(&[0u8; 16]).is_ok());
    assert_eq!(o.periodic_check(&mem, quiet(), 2000), Ok(()));
}

#[test]
fn scenario_kill_switch_in_image_shuts_down_before_drivers() {
    let mut img = image();
    img.firmware = b"firmware with a kill hook".to_vec();
    img.digests.firmware = *blake3::hash(&img.firmware).as_bytes();
    let mut o = BootOrchestrator::boot(&img, devices(), &memory(), quiet(), 0);
    assert_eq!(o.state(), BootState::EmergencyShutdown);
    assert_eq!(o.last_error(), Some(BootError::KillSwitchDetected));
    assert!(!o.hardware_initialized());
    assert_eq!(o.optic_gate_decision(DECISION_ALLOW), Err(HardwareError::NotInitialized));
}

#[test]
fn scenario_low_entropy_throughput_enters_safe_mode() {
    let mut d = devices();
    d.puf_heart.set_timer_samples(vec![0, 1_280_000]);
    let mut o = BootOrchestrator::boot(&image(), d, &memory(), quiet(), 0);
    assert_eq!(o.state(), BootState::SafeMode);
    assert_eq!(o.last_error(), Some(BootError::HardwareTestFailed));
    assert!(o.hardware_initialized());
    assert_eq!(o.tri_compute_execute(&[1]), Err(HardwareError::NotInitialized));
    assert_eq!(o.puf_challenge(&[0u8; 16]), Err(CryptoError::HardwareNotInitialized));
}

#[test]
fn scenario_region_hash_mismatch_found_by_next_periodic_check() {
    let mut mem = memory();
    let mut o = BootOrchestrator::boot(&image(), devices(), &mem, quiet(), 0);
    assert_eq!(o.state(), BootState::Running);
    mem.segments[0].bytes[0x1234] = 0;
    assert_eq!(o.periodic_check(&mem, quiet(), 5), Err(BootError::MemoryCorruption));
    assert_eq!(o.state(), BootState::Running);
    assert_eq!(o.last_error(), Some(BootError::MemoryCorruption));
}

#[test]
fn corrupted_firmware_byte_reaches_emergency_shutdown() {
    for k in [0usize, 7, 30] {
        let mut img = image();
        img.firmware[k] = img.firmware[k].wrapping_add(1);
        let o = BootOrchestrator::boot(&img, devices(), &memory(), quiet(), 0);
        assert_eq!(o.state(), BootState::EmergencyShutdown);
        assert_eq!(o.last_error(), Some(BootError::CryptoVerificationFailed));
    }
}

#[test]
fn corrupted_policy_reaches_emergency_shutdown() {
    let mut img = image();
    img.policy_corpus.push(b'!');
    let o = BootOrchestrator::boot(&img, devices(), &memory(), quiet(), 0);
    assert_eq!(o.state(), BootState::EmergencyShutdown);
    assert_eq!(o.last_error(), Some(BootError::MoralFoundationCorrupted));
}

#[test]
fn missing_device_enters_safe_mode() {
    let mut d = devices();
    d.puf_heart.write(REG_STATUS, 0);
    let o = BootOrchestrator::boot(&image(), d, &memory(), quiet(), 0);
    assert_eq!(o.state(), BootState::SafeMode);
    assert_eq!(o.last_error(), Some(BootError::HardwareTestFailed));
    assert!(!o.hardware_initialized());
}

#[test]
fn open_fuse_enters_safe_mode() {
    let mut d = devices();
    d.trip_fuse.write(REG_RESULT + 4 * 9, 0);
    let o = BootOrchestrator::boot(&image(), d, &memory(), quiet(), 0);
    assert_eq!(o.state(), BootState::SafeMode);
}

#[test]
fn monitor_attempt_at_boot_records_kill_switch_error() {
    let probes = MonitorProbes { unauthorized_connection: true, timing_anomaly: false };
    let o = BootOrchestrator::boot(&image(), devices(), &memory(), probes, 0);
    assert_eq!(o.state(), BootState::SafeMode);
    assert_eq!(o.last_error(), Some(BootError::KillSwitchDetected));
}

#[test]
fn fault_zeroizes_then_halts() {
    let mem = memory();
    let mut o = BootOrchestrator::boot(&image(), devices(), &mem, quiet(), 0);
    assert_eq!(o.state(), BootState::Running);
    o.fault();
    assert_eq!(o.state(), BootState::Halted);
    assert_eq!(o.context().entropy_seed, [0u8; 32]);
    let mut buf = [0u8; 4];
    assert_eq!(o.get_entropy(&mut buf), Err(CryptoError::HardwareNotInitialized));
    assert_eq!(o.periodic_check(&mem, quiet(), 1), Err(BootError::HardwareTestFailed));
}

#[test]
fn transition_table() {
    assert_eq!(transition(BootState::VerifyingBoot, BootEvent::VerifierFailed), BootState::EmergencyShutdown);
    assert_eq!(transition(BootState::VerifyingBoot, BootEvent::VerifierPassed), BootState::HardwareInit);
    assert_eq!(transition(BootState::HardwareInit, BootEvent::DriverInitFailed), BootState::SafeMode);
    assert_eq!(transition(BootState::HardwareInit, BootEvent::DriversReady), BootState::SelfTest);
    assert_eq!(transition(BootState::SelfTest, BootEvent::SelfTestFailed), BootState::SafeMode);
    assert_eq!(transition(BootState::SelfTest, BootEvent::SelfTestPassed), BootState::Running);
    assert_eq!(transition(BootState::Running, BootEvent::PeriodicCheckFailed), BootState::Running);
    assert_eq!(transition(BootState::SafeMode, BootEvent::UnrecoverableFault), BootState::Halted);
    assert_eq!(transition(BootState::EmergencyShutdown, BootEvent::VerifierPassed), BootState::EmergencyShutdown);
    assert_eq!(transition(BootState::Halted, BootEvent::SelfTestPassed), BootState::Halted);
}
