use ark_firmware::boot::BootError;
use ark_firmware::memory_map::{SECURE_RAM_BASE, SECURE_RAM_SIZE, SECURE_ROM_BASE, SECURE_ROM_SIZE};
use ark_firmware::security::{
    KillFuseProtection, MemoryBus, MemorySegment, MonitorProbes, SensorReadings,
    SideChannelProtection, TamperDetection,
};

fn memory() -> MemoryBus {
    MemoryBus {
        segments: vec![
            MemorySegment { base: SECURE_ROM_BASE, bytes: vec![0x5A; SECURE_ROM_SIZE] },
            MemorySegment { base: SECURE_RAM_BASE, bytes: vec![0x11; SECURE_RAM_SIZE] },
        ],
    }
}

fn quiet() -> MonitorProbes {
    MonitorProbes { unauthorized_connection: false, timing_anomaly: false }
}

fn guard(mem: &MemoryBus) -> KillFuseProtection {
    match KillFuseProtection::initialize(mem) {
        Ok(g) => g,
        Err(_) => panic!("guard did not come up"),
    }
}

fn nominal() -> SensorReadings {
    SensorReadings {
        temperature_mc: [25_000; 4],
        voltage_mv: [3_300; 8],
        light: [50; 2],
        vibration: [10; 4],
    }
}

#[test]
fn test_kill_fuse_protection_init() {
    let protection = KillFuseProtection::initialize(&memory());
    assert!(protection.is_ok());
}

#[test]
fn guard_needs_both_regions_mapped() {
    let mem = MemoryBus {
        segments: vec![MemorySegment { base: SECURE_ROM_BASE, bytes: vec![0x5A; SECURE_ROM_SIZE] }],
    };
    assert!(matches!(KillFuseProtection::initialize(&mem), Err(BootError::MemoryCorruption)));
    let short = MemoryBus {
        segments: vec![
            MemorySegment { base: SECURE_ROM_BASE, bytes: vec![0x5A; SECURE_ROM_SIZE - 1] },
            MemorySegment { base: SECURE_RAM_BASE, bytes: vec![0x11; SECURE_RAM_SIZE] },
        ],
    };
    assert!(KillFuseProtection::initialize(&short).is_err());
}

#[test]
fn read_region_uses_covering_segment() {
    let mem = MemoryBus {
        segments: vec![MemorySegment { base: 0x100, bytes: vec![1, 2, 3, 4, 5] }],
    };
    assert_eq!(mem.read_region(0x101, 0x104), Some(&[2u8, 3, 4][..]));
    assert_eq!(mem.read_region(0x103, 0x106), None);
    assert_eq!(mem.read_region(0xff, 0x101), None);
}

#[test]
fn verify_protection_passes_on_untouched_memory() {
    let mem = memory();
    let mut g = guard(&mem);
    assert_eq!(g.verify_protection(&mem, quiet(), 42), Ok(()));
    assert_eq!(g.last_check(), 42);
    assert_eq!(g.violation_count(), 0);
}

#[test]
fn verify_protection_detects_region_corruption() {
    let mut mem = memory();
    let mut g = guard(&mem);
    mem.segments[1].bytes[100] ^= 0xFF;
    assert_eq!(g.verify_protection(&mem, quiet(), 7), Err(BootError::MemoryCorruption));
    assert_eq!(g.last_check(), 0);
}

#[test]
fn verify_protection_detects_kill_switch_pattern() {
    let mem = memory();
    let mut g = guard(&mem);
    let mut planted = memory();
    planted.segments[1].bytes[10..21].copy_from_slice(b"kill_switch");
    assert_eq!(g.verify_protection(&planted, quiet(), 1), Err(BootError::KillSwitchDetected));
    assert_eq!(g.violation_count(), 1);
}

#[test]
fn verify_protection_reports_monitor_attempts() {
    let mem = memory();
    let mut g = guard(&mem);
    let conn = MonitorProbes { unauthorized_connection: true, timing_anomaly: false };
    let timing = MonitorProbes { unauthorized_connection: false, timing_anomaly: true };
    assert_eq!(g.verify_protection(&mem, conn, 1), Err(BootError::KillSwitchDetected));
    assert_eq!(g.verify_protection(&mem, timing, 2), Err(BootError::KillSwitchDetected));
    assert_eq!(g.violation_count(), 2);
    assert!(g.is_enabled());
}

#[test]
fn test_tamper_detection_init() {
    let mut tamper = TamperDetection::new();
    assert!(!tamper.enabled);

    let result = tamper.enable();
    assert!(result.is_ok());
    assert!(tamper.enabled);
}

#[test]
fn tamper_check_is_idle_until_enabled() {
    let mut tamper = TamperDetection::new();
    let mut hot = nominal();
    hot.temperature_mc[0] = 90_000;
    assert_eq!(tamper.check_tamper(hot), Ok(()));
    assert_eq!(tamper.violations, 0);
}

#[test]
fn tamper_bands_are_inclusive() {
    let mut tamper = TamperDetection::new();
    assert!(tamper.enable().is_ok());
    assert_eq!(tamper.check_tamper(nominal()), Ok(()));
    let mut edge = nominal();
    edge.temperature_mc = [-10_000, 85_000, 0, 0];
    edge.voltage_mv = [2_500, 5_500, 3_300, 3_300, 3_300, 3_300, 3_300, 3_300];
    edge.light = [1000, 0];
    edge.vibration = [500, 0, 0, 0];
    assert_eq!(tamper.check_tamper(edge), Ok(()));
    assert_eq!(tamper.violations, 0);
}

#[test]
fn tamper_out_of_band_readings_fail() {
    let mut tamper = TamperDetection::new();
    assert!(tamper.enable().is_ok());
    let mut cases = Vec::new();
    let mut cold = nominal();
    cold.temperature_mc[3] = -10_001;
    cases.push(cold);
    let mut low = nominal();
    low.voltage_mv[7] = 2_499;
    cases.push(low);
    let mut high = nominal();
    high.voltage_mv[0] = 5_501;
    cases.push(high);
    let mut bright = nominal();
    bright.light[1] = 1001;
    cases.push(bright);
    let mut shaken = nominal();
    shaken.vibration[2] = 501;
    cases.push(shaken);
    for (k, c) in cases.into_iter().enumerate() {
        assert_eq!(tamper.check_tamper(c), Err(BootError::HardwareTestFailed));
        assert_eq!(tamper.violations, k as u32 + 1);
    }
}

#[test]
fn test_side_channel_protection() {
    let mut protection = SideChannelProtection::new();
    assert!(!protection.noise_enabled);

    let result = protection.enable_all();
    assert!(result.is_ok());
    assert!(protection.noise_enabled);
    assert!(protection.power_protection);
    assert!(protection.timing_protection);
}
