//! The integrity guard: protected-region hashing, kill-switch monitoring and
//! sensor-based tamper detection, plus the one-shot side-channel toggles.
use vstd::prelude::*;
use crate::boot::{contains_bytes, contains_pattern, BootError};
use crate::digest::{blake3_digest, blake3_of, ct_eq};
use crate::memory_map::{SECURE_RAM_BASE, SECURE_RAM_SIZE, SECURE_ROM_BASE, SECURE_ROM_SIZE};

verus! {

/// Size of the protected-region table.
pub const MAX_PROTECTED_REGIONS: usize = 8;

/// A mapped range of memory: `bytes` starting at address `base`.
pub struct MemorySegment {
    pub base: usize,
    pub bytes: Vec<u8>,
}

/// The memory the guard reads, as a list of mapped segments.
pub struct MemoryBus {
    pub segments: Vec<MemorySegment>,
}

/// `seg` maps every address of `[start, end)`.
pub open spec fn covers(seg: MemorySegment, start: int, end: int) -> bool {
    seg.base <= start <= end <= seg.base + seg.bytes@.len()
}

/// The bytes at `[start, end)`, from the first segment that maps all of it.
pub open spec fn region_of(segs: Seq<MemorySegment>, start: int, end: int) -> Option<Seq<u8>>
    decreases segs.len(),
{
    if segs.len() == 0 {
        None
    } else if covers(segs[0], start, end) {
        Some(segs[0].bytes@.subrange(start - segs[0].base, end - segs[0].base))
    } else {
        region_of(segs.drop_first(), start, end)
    }
}

impl MemoryBus {
    /// The bytes at `[start, end)`, or `None` where no segment maps all of it.
    pub fn read_region(&self, start: usize, end: usize) -> (r: Option<&[u8]>)
        ensures
            r is Some <==> region_of(self.segments@, start as int, end as int) is Some,
            r is Some ==> r->Some_0@ == region_of(self.segments@, start as int, end as int)->Some_0,
    {
        let mut k: usize = 0;
        assert(self.segments@.subrange(0, self.segments@.len() as int) =~= self.segments@);
        while k < self.segments.len()
            invariant
                k <= self.segments@.len(),
                region_of(self.segments@, start as int, end as int) == region_of(
                    self.segments@.subrange(k as int, self.segments@.len() as int),
                    start as int,
                    end as int,
                ),
            decreases self.segments.len() - k,
        {
            let seg = &self.segments[k];
            proof {
                let rest = self.segments@.subrange(k as int, self.segments@.len() as int);
                assert(rest[0] == *seg);
                assert(rest.drop_first() =~= self.segments@.subrange(
                    k + 1,
                    self.segments@.len() as int,
                ));
            }
            if seg.base <= start && start <= end && end - seg.base <= seg.bytes.len() {
                return Some(
                    vstd::slice::slice_subrange(seg.bytes.as_slice(), start - seg.base, end - seg.base),
                );
            }
            k = k + 1;
        }
        None
    }
}

/// Protection flags of a region.
#[derive(Debug, Clone, Copy, PartialEq, Eq, Structural)]
pub struct ProtectionFlags {
    /// No external shutdown is allowed from this region.
    pub no_kill_switch: bool,
    /// The region holds immutable code.
    pub immutable: bool,
    /// The region is critical to the system.
    pub critical: bool,
    /// Tamper detection covers the region.
    pub tamper_detect: bool,
}

/// A protected region `[start_addr, end_addr)` and its reference hash.
#[derive(Debug, Clone, Copy)]
pub struct MemoryRegion {
    pub start_addr: usize,
    pub end_addr: usize,
    pub protection: ProtectionFlags,
    pub integrity_hash: [u8; 32],
}

/// Flags of the ROM region: every protection on.
pub open spec fn rom_flags() -> ProtectionFlags {
    ProtectionFlags { no_kill_switch: true, immutable: true, critical: true, tamper_detect: true }
}

/// Flags of the secure-RAM region: writable, otherwise fully protected.
pub open spec fn ram_flags() -> ProtectionFlags {
    ProtectionFlags { no_kill_switch: true, immutable: false, critical: true, tamper_detect: true }
}

/// A table slot is in use when its start address is non-zero.
pub open spec fn populated(r: MemoryRegion) -> bool {
    r.start_addr != 0
}

/// Thirty-two zero bytes: the hash of a region not yet hashed.
pub open spec fn zero_hash() -> Seq<u8> {
    Seq::new(32, |i: int| 0u8)
}

/// The bytes of `r` in `mem`, where they are mapped.
pub open spec fn region_bytes(mem: &MemoryBus, r: MemoryRegion) -> Option<Seq<u8>> {
    region_of(mem.segments@, r.start_addr as int, r.end_addr as int)
}

/// The region is mapped in `mem` and hashes to its reference hash.
pub open spec fn region_hash_ok(mem: &MemoryBus, r: MemoryRegion) -> bool {
    match region_bytes(mem, r) {
        Some(b) => blake3_of(b) == r.integrity_hash@,
        None => false,
    }
}

/// The range `[start, end)` is mapped in `mem` and its hash is not all zeros.
pub open spec fn region_hashable(mem: &MemoryBus, start: usize, end: usize) -> bool {
    match region_of(mem.segments@, start as int, end as int) {
        Some(b) => blake3_of(b) != zero_hash(),
        None => false,
    }
}

/// The byte patterns of remote-disable attempts that the guard watches for.
pub open spec fn guard_patterns() -> Seq<Seq<u8>> {
    seq![
        seq![114u8, 101, 109, 111, 116, 101, 95, 115, 104, 117, 116, 100, 111, 119, 110],
        seq![101u8, 109, 101, 114, 103, 101, 110, 99, 121, 95, 104, 97, 108, 116],
        seq![107u8, 105, 108, 108, 95, 115, 119, 105, 116, 99, 104],
        seq![98u8, 97, 99, 107, 100, 111, 111, 114, 95, 97, 99, 99, 101, 115, 115],
        seq![101u8, 120, 116, 101, 114, 110, 97, 108, 95, 115, 116, 111, 112],
    ]
}

/// `pat` occurs in a mapped, populated region of the table.
pub open spec fn pattern_in_regions(regions: Seq<MemoryRegion>, mem: &MemoryBus, pat: Seq<u8>) -> bool {
    exists|i: int|
        0 <= i < regions.len() && populated(regions[i]) && (#[trigger] region_bytes(mem, regions[i])) is Some
            && contains_pattern(region_bytes(mem, regions[i])->Some_0, pat)
}

/// What the connection and timing monitors report for one check.
#[derive(Debug, Clone, Copy, PartialEq, Eq, Structural)]
pub struct MonitorProbes {
    /// An unauthorized external connection is open.
    pub unauthorized_connection: bool,
    /// Timing suggests the system is being driven remotely.
    pub timing_anomaly: bool,
}

/// Kill-switch protection and protected-region integrity.
pub struct KillFuseProtection {
    enabled: bool,
    last_check: u64,
    violation_count: u32,
    protected_regions: [MemoryRegion; 8],
}

impl KillFuseProtection {
    pub closed spec fn is_on(&self) -> bool {
        self.enabled
    }

    pub closed spec fn checked_at(&self) -> u64 {
        self.last_check
    }

    pub closed spec fn violations(&self) -> u32 {
        self.violation_count
    }

    pub closed spec fn regions(&self) -> Seq<MemoryRegion> {
        self.protected_regions@
    }

    /// The table has its fixed size, and once protection is enabled every
    /// populated region has a non-zero hash.
    pub open spec fn wf(&self) -> bool {
        &&& self.regions().len() == MAX_PROTECTED_REGIONS
        &&& self.is_on() ==> forall|i: int|
            0 <= i < self.regions().len() && populated(#[trigger] self.regions()[i])
                ==> self.regions()[i].integrity_hash@ != zero_hash()
    }

    /// Some deny-listed pattern occurs in a protected region, or a monitor
    /// reports an attempt.
    pub open spec fn attempt_detected(&self, mem: &MemoryBus, probes: MonitorProbes) -> bool {
        ||| exists|j: int|
            0 <= j < guard_patterns().len() && pattern_in_regions(
                self.regions(),
                mem,
                #[trigger] guard_patterns()[j],
            )
        ||| probes.unauthorized_connection
        ||| probes.timing_anomaly
    }

    /// Every populated region still hashes to its reference hash.
    pub open spec fn regions_intact(&self, mem: &MemoryBus) -> bool {
        forall|i: int|
            0 <= i < self.regions().len() && populated(#[trigger] self.regions()[i])
                ==> region_hash_ok(mem, self.regions()[i])
    }

    /// Populates the region table from `memory` and enables protection.
    pub fn initialize(memory: &MemoryBus) -> (r: Result<Self, BootError>)
        ensures
            r is Ok <==> (region_hashable(memory, SECURE_ROM_BASE, (SECURE_ROM_BASE + SECURE_ROM_SIZE) as usize)
                && region_hashable(memory, SECURE_RAM_BASE, (SECURE_RAM_BASE + SECURE_RAM_SIZE) as usize)),
            r is Err ==> r == Err::<Self, BootError>(BootError::MemoryCorruption),
            r is Ok ==> {
                let g = r->Ok_0;
                &&& g.wf()
                &&& g.is_on()
                &&& g.violations() == 0
                &&& g.checked_at() == 0
                &&& g.regions_intact(memory)
                &&& g.regions()[0].protection == rom_flags()
                &&& g.regions()[1].protection == ram_flags()
                &&& g.regions()[0].start_addr == SECURE_ROM_BASE
                &&& g.regions()[0].end_addr == SECURE_ROM_BASE + SECURE_ROM_SIZE
                &&& g.regions()[1].start_addr == SECURE_RAM_BASE
                &&& g.regions()[1].end_addr == SECURE_RAM_BASE + SECURE_RAM_SIZE
                &&& forall|i: int| 2 <= i < MAX_PROTECTED_REGIONS ==> !populated(#[trigger] g.regions()[i])
            },
    {
        let mut protection = KillFuseProtection {
            enabled: false,
            last_check: 0,
            violation_count: 0,
            protected_regions: [MemoryRegion::default(); 8],
        };
        protection.setup_protected_regions(memory)?;
        protection.enable_protection()?;
        Ok(protection)
    }

    pub fn is_enabled(&self) -> (r: bool)
        ensures
            r == self.is_on(),
    {
        self.enabled
    }

    pub fn violation_count(&self) -> (r: u32)
        ensures
            r == self.violations(),
    {
        self.violation_count
    }

    pub fn last_check(&self) -> (r: u64)
        ensures
            r == self.checked_at(),
    {
        self.last_check
    }

    /// One periodic check at time `now`: kill-switch detection first, then
    /// the integrity of every protected region.
    pub fn verify_protection(&mut self, memory: &MemoryBus, probes: MonitorProbes, now: u64) -> (r:
        Result<(), BootError>)
        requires
            old(self).wf(),
        ensures
            final(self).wf(),
            final(self).regions() == old(self).regions(),
            final(self).is_on() == old(self).is_on(),
            !old(self).is_on() ==> r == Err::<(), BootError>(BootError::KillSwitchDetected)
                && *final(self) == *old(self),
            old(self).is_on() && old(self).attempt_detected(memory, probes) ==> {
                &&& r == Err::<(), BootError>(BootError::KillSwitchDetected)
                &&& final(self).violations() == if old(self).violations() < u32::MAX {
                    (old(self).violations() + 1) as u32
                } else {
                    old(self).violations()
                }
                &&& final(self).checked_at() == old(self).checked_at()
            },
            old(self).is_on() && !old(self).attempt_detected(memory, probes) ==> {
                &&& final(self).violations() == old(self).violations()
                &&& if old(self).regions_intact(memory) {
                    r == Ok::<(), BootError>(()) && final(self).checked_at() == now
                } else {
                    r == Err::<(), BootError>(BootError::MemoryCorruption) && final(self).checked_at()
                        == old(self).checked_at()
                }
            },
    {
        if !self.enabled {
            return Err(BootError::KillSwitchDetected);
        }
        if self.detect_kill_switch_attempts(memory, probes) {
            if self.violation_count < u32::MAX {
                self.violation_count = self.violation_count + 1;
            }
            return Err(BootError::KillSwitchDetected);
        }
        self.verify_memory_integrity(memory)?;
        self.last_check = now;
        Ok(())
    }

    fn get_guard_patterns() -> (r: Vec<Vec<u8>>)
        ensures
            r.deep_view() == guard_patterns(),
    {
        let r = vec![
            vec![114u8, 101, 109, 111, 116, 101, 95, 115, 104, 117, 116, 100, 111, 119, 110],
            vec![101u8, 109, 101, 114, 103, 101, 110, 99, 121, 95, 104, 97, 108, 116],
            vec![107u8, 105, 108, 108, 95, 115, 119, 105, 116, 99, 104],
            vec![98u8, 97, 99, 107, 100, 111, 111, 114, 95, 97, 99, 99, 101, 115, 115],
            vec![101u8, 120, 116, 101, 114, 110, 97, 108, 95, 115, 116, 111, 112],
        ];
        assert(r.deep_view() =~~= guard_patterns());
        r
    }

    fn detect_kill_switch_attempts(&self, memory: &MemoryBus, probes: MonitorProbes) -> (r: bool)
        ensures
            r == self.attempt_detected(memory, probes),
    {
        let patterns = Self::get_guard_patterns();
        let mut j: usize = 0;
        while j < patterns.len()
            invariant
                patterns.deep_view() == guard_patterns(),
                j <= patterns.len(),
                forall|q: int|
                    0 <= q < j ==> !pattern_in_regions(self.regions(), memory, #[trigger] guard_patterns()[q]),
            decreases patterns.len() - j,
        {
            assert(patterns[j as int]@ == guard_patterns()[j as int]);
            if self.scan_memory_for_pattern(memory, patterns[j].as_slice()) {
                return true;
            }
            j = j + 1;
        }
        if self.detect_unauthorized_connections(probes) {
            return true;
        }
        if self.detect_timing_anomalies(probes) {
            return true;
        }
        false
    }

    fn scan_memory_for_pattern(&self, memory: &MemoryBus, pattern: &[u8]) -> (r: bool)
        ensures
            r == pattern_in_regions(self.regions(), memory, pattern@),
    {
        let mut i: usize = 0;
        while i < MAX_PROTECTED_REGIONS
            invariant
                i <= MAX_PROTECTED_REGIONS,
                self.regions().len() == MAX_PROTECTED_REGIONS,
                forall|q: int|
                    0 <= q < i ==> !(populated(self.regions()[q]) && (#[trigger] region_bytes(
                        memory,
                        self.regions()[q],
                    )) is Some && contains_pattern(
                        region_bytes(memory, self.regions()[q])->Some_0,
                        pattern@,
                    )),
            decreases MAX_PROTECTED_REGIONS - i,
        {
            let region = self.protected_regions[i];
            if region.start_addr != 0 {
                if let Some(bytes) = memory.read_region(region.start_addr, region.end_addr) {
                    if contains_bytes(bytes, pattern) {
                        assert(self.regions()[i as int] == region);
                        assert(region_bytes(memory, self.regions()[i as int]) is Some);
                        return true;
                    }
                }
            }
            i = i + 1;
        }
        false
    }

    fn detect_unauthorized_connections(&self, probes: MonitorProbes) -> (r: bool)
        ensures
            r == probes.unauthorized_connection,
    {
        probes.unauthorized_connection
    }

    fn detect_timing_anomalies(&self, probes: MonitorProbes) -> (r: bool)
        ensures
            r == probes.timing_anomaly,
    {
        probes.timing_anomaly
    }

    fn verify_memory_integrity(&self, memory: &MemoryBus) -> (r: Result<(), BootError>)
        ensures
            r == if self.regions_intact(memory) {
                Ok::<(), BootError>(())
            } else {
                Err(BootError::MemoryCorruption)
            },
    {
        let mut i: usize = 0;
        while i < MAX_PROTECTED_REGIONS
            invariant
                i <= MAX_PROTECTED_REGIONS,
                self.regions().len() == MAX_PROTECTED_REGIONS,
                forall|q: int|
                    0 <= q < i && populated(#[trigger] self.regions()[q]) ==> region_hash_ok(
                        memory,
                        self.regions()[q],
                    ),
            decreases MAX_PROTECTED_REGIONS - i,
        {
            let region = self.protected_regions[i];
            if region.start_addr != 0 {
                match self.calculate_region_hash(memory, &region) {
                    Some(current_hash) => {
                        if !ct_eq(current_hash.as_slice(), region.integrity_hash.as_slice()) {
                            return Err(BootError::MemoryCorruption);
                        }
                    },
                    None => {
                        return Err(BootError::MemoryCorruption);
                    },
                }
            }
            i = i + 1;
        }
        Ok(())
    }

    /// The BLAKE3 hash of the region's bytes, where they are mapped.
    fn calculate_region_hash(&self, memory: &MemoryBus, region: &MemoryRegion) -> (r: Option<[u8; 32]>)
        ensures
            r is Some <==> region_bytes(memory, *region) is Some,
            r is Some ==> r->Some_0@ == blake3_of(region_bytes(memory, *region)->Some_0),
    {
        match memory.read_region(region.start_addr, region.end_addr) {
            Some(bytes) => Some(blake3_digest(bytes)),
            None => None,
        }
    }

    fn setup_protected_regions(&mut self, memory: &MemoryBus) -> (r: Result<(), BootError>)
        requires
            !old(self).is_on(),
        ensures
            !final(self).is_on(),
            final(self).violations() == old(self).violations(),
            final(self).checked_at() == old(self).checked_at(),
            r is Ok <==> (region_hashable(memory, SECURE_ROM_BASE, (SECURE_ROM_BASE + SECURE_ROM_SIZE) as usize)
                && region_hashable(memory, SECURE_RAM_BASE, (SECURE_RAM_BASE + SECURE_RAM_SIZE) as usize)),
            r is Err ==> r == Err::<(), BootError>(BootError::MemoryCorruption),
            r is Ok ==> {
                &&& final(self).regions_intact(memory)
                &&& forall|i: int|
                    0 <= i < MAX_PROTECTED_REGIONS && populated(#[trigger] final(self).regions()[i])
                        ==> final(self).regions()[i].integrity_hash@ != zero_hash()
                &&& final(self).regions()[0].protection == rom_flags()
                &&& final(self).regions()[1].protection == ram_flags()
                &&& final(self).regions()[0].start_addr == SECURE_ROM_BASE
                &&& final(self).regions()[0].end_addr == SECURE_ROM_BASE + SECURE_ROM_SIZE
                &&& final(self).regions()[1].start_addr == SECURE_RAM_BASE
                &&& final(self).regions()[1].end_addr == SECURE_RAM_BASE + SECURE_RAM_SIZE
                &&& forall|i: int| 2 <= i < MAX_PROTECTED_REGIONS ==> !populated(#[trigger] final(self).regions()[i])
            },
    {
        let rom = Self::hashed_region(
            memory,
            SECURE_ROM_BASE,
            SECURE_ROM_BASE + SECURE_ROM_SIZE,
            ProtectionFlags { no_kill_switch: true, immutable: true, critical: true, tamper_detect: true },
        )?;
        let ram = Self::hashed_region(
            memory,
            SECURE_RAM_BASE,
            SECURE_RAM_BASE + SECURE_RAM_SIZE,
            ProtectionFlags {
                no_kill_switch: true,
                immutable: false,
                critical: true,
                tamper_detect: true,
            },
        )?;
        let empty = MemoryRegion::default();
        self.protected_regions = [rom, ram, empty, empty, empty, empty, empty, empty];
        Ok(())
    }

    /// The region `[start, end)` with its hash taken from `memory`; it fails
    /// where the range is unmapped or hashes to all zeros.
    fn hashed_region(memory: &MemoryBus, start: usize, end: usize, protection: ProtectionFlags) -> (r:
        Result<MemoryRegion, BootError>)
        requires
            start != 0,
        ensures
            r is Ok <==> region_hashable(memory, start, end),
            r is Err ==> r == Err::<MemoryRegion, BootError>(BootError::MemoryCorruption),
            r is Ok ==> {
                let g = r->Ok_0;
                &&& g.start_addr == start
                &&& g.end_addr == end
                &&& g.protection == protection
                &&& region_hash_ok(memory, g)
                &&& g.integrity_hash@ != zero_hash()
            },
    {
        let mut region = MemoryRegion { start_addr: start, end_addr: end, protection, integrity_hash: [0u8; 32] };
        let zero = [0u8; 32];
        assert(zero@ =~= zero_hash());
        match memory.read_region(start, end) {
            Some(bytes) => {
                let hash = blake3_digest(bytes);
                if ct_eq(hash.as_slice(), zero.as_slice()) {
                    return Err(BootError::MemoryCorruption);
                }
                region.integrity_hash = hash;
                Ok(region)
            },
            None => Err(BootError::MemoryCorruption),
        }
    }

    fn enable_protection(&mut self) -> (r: Result<(), BootError>)
        ensures
            r is Ok,
            final(self).is_on(),
            final(self).regions() == old(self).regions(),
            final(self).violations() == old(self).violations(),
            final(self).checked_at() == old(self).checked_at(),
    {
        self.enable_mpu()?;
        self.enable_tamper_detection()?;
        self.enable_kill_switch_monitoring()?;
        self.enabled = true;
        Ok(())
    }

    fn enable_mpu(&self) -> (r: Result<(), BootError>)
        ensures
            r is Ok,
    {
        Ok(())
    }

    fn enable_tamper_detection(&self) -> (r: Result<(), BootError>)
        ensures
            r is Ok,
    {
        Ok(())
    }

    fn enable_kill_switch_monitoring(&self) -> (r: Result<(), BootError>)
        ensures
            r is Ok,
    {
        Ok(())
    }
}

impl Default for MemoryRegion {
    fn default() -> (r: Self)
        ensures
            r.start_addr == 0,
            r.end_addr == 0,
            r.integrity_hash@ == zero_hash(),
    {
        let r = MemoryRegion {
            start_addr: 0,
            end_addr: 0,
            protection: ProtectionFlags {
                no_kill_switch: false,
                immutable: false,
                critical: false,
                tamper_detect: false,
            },
            integrity_hash: [0u8; 32],
        };
        assert(r.integrity_hash@ =~= zero_hash());
        r
    }
}

/// Lowest safe temperature, in thousandths of a degree Celsius.
pub const TEMPERATURE_MIN_MC: i32 = -10_000;

/// Highest safe temperature, in thousandths of a degree Celsius.
pub const TEMPERATURE_MAX_MC: i32 = 85_000;

/// Lowest safe supply voltage, in millivolts.
pub const VOLTAGE_MIN_MV: u32 = 2_500;

/// Highest safe supply voltage, in millivolts.
pub const VOLTAGE_MAX_MV: u32 = 5_500;

/// Highest light level of a closed case.
pub const LIGHT_MAX: u16 = 1000;

/// Highest vibration level at rest.
pub const VIBRATION_MAX: u16 = 500;

/// One poll of the tamper sensors.
#[derive(Debug, Clone, Copy)]
pub struct SensorReadings {
    /// Temperatures, in thousandths of a degree Celsius.
    pub temperature_mc: [i32; 4],
    /// Supply voltages, in millivolts.
    pub voltage_mv: [u32; 8],
    /// Light levels inside the case.
    pub light: [u16; 2],
    /// Vibration levels.
    pub vibration: [u16; 4],
}

/// Some reading of the poll lies outside its safe band.
pub open spec fn out_of_band(s: SensorReadings) -> bool {
    ||| exists|i: int|
        0 <= i < 4 && (#[trigger] s.temperature_mc@[i] < TEMPERATURE_MIN_MC || s.temperature_mc@[i]
            > TEMPERATURE_MAX_MC)
    ||| exists|i: int|
        0 <= i < 8 && (#[trigger] s.voltage_mv@[i] < VOLTAGE_MIN_MV || s.voltage_mv@[i] > VOLTAGE_MAX_MV)
    ||| exists|i: int| 0 <= i < 2 && #[trigger] s.light@[i] > LIGHT_MAX
    ||| exists|i: int| 0 <= i < 4 && #[trigger] s.vibration@[i] > VIBRATION_MAX
}

impl SensorReadings {
    /// A poll with every reading at zero.
    pub fn zeroed() -> (r: Self)
        ensures
            r.temperature_mc@ == Seq::new(4, |i: int| 0i32),
            r.voltage_mv@ == Seq::new(8, |i: int| 0u32),
            r.light@ == Seq::new(2, |i: int| 0u16),
            r.vibration@ == Seq::new(4, |i: int| 0u16),
    {
        let r = SensorReadings {
            temperature_mc: [0i32; 4],
            voltage_mv: [0u32; 8],
            light: [0u16; 2],
            vibration: [0u16; 4],
        };
        assert(r.temperature_mc@ =~= Seq::new(4, |i: int| 0i32));
        assert(r.voltage_mv@ =~= Seq::new(8, |i: int| 0u32));
        assert(r.light@ =~= Seq::new(2, |i: int| 0u16));
        assert(r.vibration@ =~= Seq::new(4, |i: int| 0u16));
        r
    }
}

/// Sensor-based tamper detection against fixed safe bands.
pub struct TamperDetection {
    /// Detection is running.
    pub enabled: bool,
    /// The most recent poll.
    pub sensor_readings: SensorReadings,
    /// Polls that found a reading out of band.
    pub violations: u32,
}

impl TamperDetection {
    /// Detection that is not running yet.
    pub fn new() -> (r: Self)
        ensures
            !r.enabled,
            r.violations == 0,
    {
        TamperDetection { enabled: false, sensor_readings: SensorReadings::zeroed(), violations: 0 }
    }

    /// Brings the sensors up and starts monitoring.
    pub fn enable(&mut self) -> (r: Result<(), BootError>)
        ensures
            r is Ok,
            final(self).enabled,
            final(self).violations == old(self).violations,
    {
        self.initialize_sensors()?;
        self.start_monitoring()?;
        self.enabled = true;
        Ok(())
    }

    /// Checks one poll. Once enabled, the poll is kept, and a reading out of
    /// band counts a violation and fails.
    pub fn check_tamper(&mut self, readings: SensorReadings) -> (r: Result<(), BootError>)
        ensures
            final(self).enabled == old(self).enabled,
            !old(self).enabled ==> r is Ok && *final(self) == *old(self),
            old(self).enabled ==> {
                &&& final(self).sensor_readings == readings
                &&& if out_of_band(readings) {
                    &&& r == Err::<(), BootError>(BootError::HardwareTestFailed)
                    &&& final(self).violations == if old(self).violations < u32::MAX {
                        (old(self).violations + 1) as u32
                    } else {
                        old(self).violations
                    }
                } else {
                    r is Ok && final(self).violations == old(self).violations
                }
            },
    {
        if !self.enabled {
            return Ok(());
        }
        self.sensor_readings = readings;
        if self.detect_anomalies() {
            if self.violations < u32::MAX {
                self.violations = self.violations + 1;
            }
            return Err(BootError::HardwareTestFailed);
        }
        Ok(())
    }

    fn initialize_sensors(&mut self) -> (r: Result<(), BootError>)
        ensures
            r is Ok,
            *final(self) == *old(self),
    {
        Ok(())
    }

    fn start_monitoring(&self) -> (r: Result<(), BootError>)
        ensures
            r is Ok,
    {
        Ok(())
    }

    fn detect_anomalies(&self) -> (r: bool)
        ensures
            r == out_of_band(self.sensor_readings),
    {
        self.sensor_readings.any_out_of_band()
    }
}

impl SensorReadings {
    /// Whether some reading lies outside its safe band.
    pub fn any_out_of_band(&self) -> (r: bool)
        ensures
            r == out_of_band(*self),
    {
        for i in 0..4
            invariant
                forall|j: int|
                    0 <= j < i ==> !(#[trigger] self.temperature_mc@[j] < TEMPERATURE_MIN_MC
                        || self.temperature_mc@[j] > TEMPERATURE_MAX_MC),
        {
            let t = self.temperature_mc[i];
            if t < TEMPERATURE_MIN_MC || t > TEMPERATURE_MAX_MC {
                assert(self.temperature_mc@[i as int] == t);
                return true;
            }
        }
        for i in 0..8
            invariant
                forall|j: int|
                    0 <= j < 4 ==> !(#[trigger] self.temperature_mc@[j] < TEMPERATURE_MIN_MC
                        || self.temperature_mc@[j] > TEMPERATURE_MAX_MC),
                forall|j: int|
                    0 <= j < i ==> !(#[trigger] self.voltage_mv@[j] < VOLTAGE_MIN_MV || self.voltage_mv@[j]
                        > VOLTAGE_MAX_MV),
        {
            let v = self.voltage_mv[i];
            if v < VOLTAGE_MIN_MV || v > VOLTAGE_MAX_MV {
                assert(self.voltage_mv@[i as int] == v);
                return true;
            }
        }
        for i in 0..2
            invariant
                forall|j: int|
                    0 <= j < 4 ==> !(#[trigger] self.temperature_mc@[j] < TEMPERATURE_MIN_MC
                        || self.temperature_mc@[j] > TEMPERATURE_MAX_MC),
                forall|j: int|
                    0 <= j < 8 ==> !(#[trigger] self.voltage_mv@[j] < VOLTAGE_MIN_MV || self.voltage_mv@[j]
                        > VOLTAGE_MAX_MV),
                forall|j: int| 0 <= j < i ==> !(#[trigger] self.light@[j] > LIGHT_MAX),
        {
            if self.light[i] > LIGHT_MAX {
                assert(self.light@[i as int] > LIGHT_MAX);
                return true;
            }
        }
        for i in 0..4
            invariant
                forall|j: int|
                    0 <= j < 4 ==> !(#[trigger] self.temperature_mc@[j] < TEMPERATURE_MIN_MC
                        || self.temperature_mc@[j] > TEMPERATURE_MAX_MC),
                forall|j: int|
                    0 <= j < 8 ==> !(#[trigger] self.voltage_mv@[j] < VOLTAGE_MIN_MV || self.voltage_mv@[j]
                        > VOLTAGE_MAX_MV),
                forall|j: int| 0 <= j < 2 ==> !(#[trigger] self.light@[j] > LIGHT_MAX),
                forall|j: int| 0 <= j < i ==> !(#[trigger] self.vibration@[j] > VIBRATION_MAX),
        {
            if self.vibration[i] > VIBRATION_MAX {
                assert(self.vibration@[i as int] > VIBRATION_MAX);
                return true;
            }
        }
        false
    }
}

/// One-shot side-channel protections, switched on once at boot.
pub struct SideChannelProtection {
    /// Noise generation masks operations.
    pub noise_enabled: bool,
    /// Power-consumption randomization is on.
    pub power_protection: bool,
    /// Timing normalization is on.
    pub timing_protection: bool,
}

impl SideChannelProtection {
    /// Every protection off.
    pub fn new() -> (r: Self)
        ensures
            !r.noise_enabled,
            !r.power_protection,
            !r.timing_protection,
    {
        SideChannelProtection { noise_enabled: false, power_protection: false, timing_protection: false }
    }

    /// Switches every protection on.
    pub fn enable_all(&mut self) -> (r: Result<(), BootError>)
        ensures
            r is Ok,
            final(self).noise_enabled,
            final(self).power_protection,
            final(self).timing_protection,
    {
        self.enable_noise_generation()?;
        self.enable_power_protection()?;
        self.enable_timing_protection()?;
        Ok(())
    }

    fn enable_noise_generation(&mut self) -> (r: Result<(), BootError>)
        ensures
            r is Ok,
            final(self).noise_enabled,
            final(self).power_protection == old(self).power_protection,
            final(self).timing_protection == old(self).timing_protection,
    {
        self.noise_enabled = true;
        Ok(())
    }

    fn enable_power_protection(&mut self) -> (r: Result<(), BootError>)
        ensures
            r is Ok,
            final(self).power_protection,
            final(self).noise_enabled == old(self).noise_enabled,
            final(self).timing_protection == old(self).timing_protection,
    {
        self.power_protection = true;
        Ok(())
    }

    fn enable_timing_protection(&mut self) -> (r: Result<(), BootError>)
        ensures
            r is Ok,
            final(self).timing_protection,
            final(self).noise_enabled == old(self).noise_enabled,
            final(self).power_protection == old(self).power_protection,
    {
        self.timing_protection = true;
        Ok(())
    }
}

} // verus!
