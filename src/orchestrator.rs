//! The boot orchestrator: verifier, then drivers in fixed order, then
//! self-tests, ending in Running, SafeMode or EmergencyShutdown; the post-boot
//! API; and the zeroize-then-halt fault handler.
use vstd::prelude::*;
use crate::boot::{
    boot_verdict,
    contains_pattern,
    firmware_authentic,
    kill_switch_free,
    kill_switch_patterns,
    memory_intact,
    policy_authentic,
    BootError,
    BootImage,
    ImmutableBoot,
    SecureBootContext,
};
use crate::crypto::CryptoError;
use crate::digest::{blake3_of, sha3_256_of};
use crate::hardware::{

    entropy_rate_ok,
    fuse_closed,
    lanes_agree,
    valid_decision,
    write_latency,
    HardwareBlocks,
    HardwareError,
    OpticGate,
    PufHeart,
    TriComputeCore,
    TripFuse,
    COMPUTE_SCRATCH_WORDS,
    COMPUTE_SIGNATURE,
    ENTROPY_POOL_BYTES,
    ENTROPY_TEST_BITS,
    FUSE_COUNT,
    FUSE_SIGNATURE,
    GATE_SIGNATURE,
    LATCH_LATENCY_BOUND_NS,
    PUF_SIGNATURE,
    TIMING_TEST_WRITES,
};
use crate::memory_map::{SECURE_RAM_BASE, SECURE_RAM_SIZE, SECURE_ROM_BASE, SECURE_ROM_SIZE};
use crate::mmio::{completion_ready, elapsed};
use crate::security::{
    guard_patterns,
    pattern_in_regions,
    populated,
    region_hashable,
    region_of,
    KillFuseProtection,
    MemoryBus,
    MonitorProbes,
};

verus! {

/// States of the boot sequence.
#[derive(Debug, Clone, Copy, PartialEq, Eq, Structural)]
pub enum BootState {
    /// The verifier runs.
    VerifyingBoot,
    /// The drivers come up.
    HardwareInit,
    /// The drivers run their self-tests.
    SelfTest,
    /// Booted; the full hardware API is open.
    Running,
    /// Alive but degraded: only a heartbeat.
    SafeMode,
    /// Boot integrity cannot be trusted; terminal.
    EmergencyShutdown,
    /// Zeroized after an unrecoverable fault; terminal.
    Halted,
}

/// What happens to the boot sequence.
#[derive(Debug, Clone, Copy, PartialEq, Eq, Structural)]
pub enum BootEvent {
    /// A verification phase failed.
    VerifierFailed,
    /// All five verification phases passed.
    VerifierPassed,
    /// A driver, or the integrity guard, did not come up.
    DriverInitFailed,
    /// Every driver is up and the integrity guard is enabled.
    DriversReady,
    /// A boot-time self-test failed.
    SelfTestFailed,
    /// Every boot-time self-test passed.
    SelfTestPassed,
    /// A periodic self-test failed while Running.
    PeriodicCheckFailed,
    /// An unrecoverable fault occurred.
    UnrecoverableFault,
}

/// The transition table. An event that the table does not list for a state
/// leaves the state as it is.
pub open spec fn next_state(s: BootState, e: BootEvent) -> BootState {
    match e {
        BootEvent::UnrecoverableFault => BootState::Halted,
        BootEvent::VerifierFailed => if s == BootState::VerifyingBoot {
            BootState::EmergencyShutdown
        } else {
            s
        },
        BootEvent::VerifierPassed => if s == BootState::VerifyingBoot {
            BootState::HardwareInit
        } else {
            s
        },
        BootEvent::DriverInitFailed => if s == BootState::HardwareInit {
            BootState::SafeMode
        } else {
            s
        },
        BootEvent::DriversReady => if s == BootState::HardwareInit {
            BootState::SelfTest
        } else {
            s
        },
        BootEvent::SelfTestFailed => if s == BootState::SelfTest {
            BootState::SafeMode
        } else {
            s
        },
        BootEvent::SelfTestPassed => if s == BootState::SelfTest {
            BootState::Running
        } else {
            s
        },
        BootEvent::PeriodicCheckFailed => s,
    }
}

/// A state that nothing leaves for a non-terminal one.
pub open spec fn is_terminal(s: BootState) -> bool {
    s == BootState::EmergencyShutdown || s == BootState::Halted
}

/// The next state of the boot sequence.
pub fn transition(state: BootState, event: BootEvent) -> (r: BootState)
    ensures
        r == next_state(state, event),
{
    match event {
        BootEvent::UnrecoverableFault => BootState::Halted,
        BootEvent::VerifierFailed => if state == BootState::VerifyingBoot {
            BootState::EmergencyShutdown
        } else {
            state
        },
        BootEvent::VerifierPassed => if state == BootState::VerifyingBoot {
            BootState::HardwareInit
        } else {
            state
        },
        BootEvent::DriverInitFailed => if state == BootState::HardwareInit {
            BootState::SafeMode
        } else {
            state
        },
        BootEvent::DriversReady => if state == BootState::HardwareInit {
            BootState::SelfTest
        } else {
            state
        },
        BootEvent::SelfTestFailed => if state == BootState::SelfTest {
            BootState::SafeMode
        } else {
            state
        },
        BootEvent::SelfTestPassed => if state == BootState::SelfTest {
            BootState::Running
        } else {
            state
        },
        BootEvent::PeriodicCheckFailed => state,
    }
}

/// The outcome of driver bring-up: the first driver that fails, in the fixed
/// order, and then the integrity guard.
pub open spec fn init_verdict(d: &HardwareBlocks, mem: &MemoryBus) -> Result<(), BootError> {
    if !(d.puf_heart.reg(0) == PUF_SIGNATURE && completion_ready(d.puf_heart)) {
        Err(BootError::HardwareTestFailed)
    } else if d.optic_gate.reg(0) != GATE_SIGNATURE {
        Err(BootError::HardwareTestFailed)
    } else if d.tri_compute.reg(0) != COMPUTE_SIGNATURE {
        Err(BootError::HardwareTestFailed)
    } else if d.trip_fuse.reg(0) != FUSE_SIGNATURE {
        Err(BootError::HardwareTestFailed)
    } else if !(region_hashable(mem, SECURE_ROM_BASE, (SECURE_ROM_BASE + SECURE_ROM_SIZE) as usize)
        && region_hashable(mem, SECURE_RAM_BASE, (SECURE_RAM_BASE + SECURE_RAM_SIZE) as usize)) {
        Err(BootError::MemoryCorruption)
    } else {
        Ok(())
    }
}

/// `pat` occurs in the mapped ROM or the mapped secure RAM.
pub open spec fn pattern_in_protected_memory(mem: &MemoryBus, pat: Seq<u8>) -> bool {
    let rom = region_of(mem.segments@, SECURE_ROM_BASE as int, SECURE_ROM_BASE + SECURE_ROM_SIZE);
    let ram = region_of(mem.segments@, SECURE_RAM_BASE as int, SECURE_RAM_BASE + SECURE_RAM_SIZE);
    ||| rom is Some && contains_pattern(rom->Some_0, pat)
    ||| ram is Some && contains_pattern(ram->Some_0, pat)
}

/// The outcome of the self-tests on freshly initialized devices: the error
/// of the first test that fails, in the fixed order.
pub open spec fn boot_self_test_verdict(d: &HardwareBlocks, mem: &MemoryBus, probes: MonitorProbes) -> Result<
    (),
    BootError,
> {
    if !entropy_rate_ok(ENTROPY_TEST_BITS, elapsed(d.puf_heart.sample(0), d.puf_heart.sample(1))) {
        Err(BootError::HardwareTestFailed)
    } else if !(forall|i: int|
        0 <= i < TIMING_TEST_WRITES ==> #[trigger] write_latency(d.optic_gate, i)
            <= LATCH_LATENCY_BOUND_NS) {
        Err(BootError::HardwareTestFailed)
    } else if !lanes_agree(d.tri_compute) {
        Err(BootError::HardwareTestFailed)
    } else if !(forall|i: int| 0 <= i < FUSE_COUNT ==> #[trigger] fuse_closed(d.trip_fuse, i)) {
        Err(BootError::HardwareTestFailed)
    } else if probes.unauthorized_connection || probes.timing_anomaly || exists|j: int|
        0 <= j < guard_patterns().len() && pattern_in_protected_memory(
            mem,
            #[trigger] guard_patterns()[j],
        ) {
        Err(BootError::KillSwitchDetected)
    } else {
        Ok(())
    }
}

/// Every self-test passes on freshly initialized devices.
pub open spec fn boot_self_test_ok(d: &HardwareBlocks, mem: &MemoryBus, probes: MonitorProbes) -> bool {
    boot_self_test_verdict(d, mem, probes) is Ok
}

/// The four drivers and the integrity guard, each created once.
pub struct ArkHardware {
    pub puf_heart: PufHeart,
    pub optic_gate: OpticGate,
    pub tri_compute: TriComputeCore,
    pub trip_fuse: TripFuse,
    pub kill_fuse_protection: KillFuseProtection,
}

impl ArkHardware {
    pub open spec fn wf(&self) -> bool {
        &&& self.puf_heart.wf()
        &&& self.optic_gate.wf()
        &&& self.tri_compute.wf()
        &&& self.trip_fuse.wf()
        &&& self.kill_fuse_protection.wf()
    }

    /// The outcome of the self-tests on this hardware: the error of the
    /// first test that fails, in the fixed order.
    pub open spec fn self_test_verdict(&self, mem: &MemoryBus, probes: MonitorProbes) -> Result<
        (),
        BootError,
    > {
        if !entropy_rate_ok(
            ENTROPY_TEST_BITS,
            elapsed(self.puf_heart.device().sample(0), self.puf_heart.device().sample(1)),
        ) {
            Err(BootError::HardwareTestFailed)
        } else if !(forall|i: int|
            0 <= i < TIMING_TEST_WRITES ==> #[trigger] write_latency(self.optic_gate.device(), i)
                <= LATCH_LATENCY_BOUND_NS) {
            Err(BootError::HardwareTestFailed)
        } else if !lanes_agree(self.tri_compute.device()) {
            Err(BootError::HardwareTestFailed)
        } else if !(forall|i: int|
            0 <= i < FUSE_COUNT ==> #[trigger] fuse_closed(self.trip_fuse.device(), i)) {
            Err(BootError::HardwareTestFailed)
        } else if !self.kill_fuse_protection.is_on() || self.kill_fuse_protection.attempt_detected(
            mem,
            probes,
        ) {
            Err(BootError::KillSwitchDetected)
        } else if !self.kill_fuse_protection.regions_intact(mem) {
            Err(BootError::MemoryCorruption)
        } else {
            Ok(())
        }
    }

    /// Every self-test passes on this hardware.
    pub open spec fn self_test_ok(&self, mem: &MemoryBus, probes: MonitorProbes) -> bool {
        &&& entropy_rate_ok(
            ENTROPY_TEST_BITS,
            elapsed(self.puf_heart.device().sample(0), self.puf_heart.device().sample(1)),
        )
        &&& forall|i: int|
            0 <= i < TIMING_TEST_WRITES ==> #[trigger] write_latency(self.optic_gate.device(), i)
                <= LATCH_LATENCY_BOUND_NS
        &&& lanes_agree(self.tri_compute.device())
        &&& forall|i: int| 0 <= i < FUSE_COUNT ==> #[trigger] fuse_closed(self.trip_fuse.device(), i)
        &&& self.kill_fuse_protection.is_on()
        &&& !self.kill_fuse_protection.attempt_detected(mem, probes)
        &&& self.kill_fuse_protection.regions_intact(mem)
    }

    /// What bring-up leaves behind, for devices `d` and memory `mem`.
    pub open spec fn fresh_from(&self, d: &HardwareBlocks, mem: &MemoryBus) -> bool {
        &&& self.wf()
        &&& self.puf_heart.device().timer_samples() == d.puf_heart.timer_samples()
        &&& completion_ready(self.puf_heart.device())
        &&& self.optic_gate.device() == d.optic_gate
        &&& self.tri_compute.device() == d.tri_compute
        &&& self.trip_fuse.device() == d.trip_fuse
        &&& self.kill_fuse_protection.is_on()
        &&& self.kill_fuse_protection.regions_intact(mem)
        &&& self.kill_fuse_protection.regions()[0].start_addr == SECURE_ROM_BASE
        &&& self.kill_fuse_protection.regions()[0].end_addr == SECURE_ROM_BASE + SECURE_ROM_SIZE
        &&& self.kill_fuse_protection.regions()[1].start_addr == SECURE_RAM_BASE
        &&& self.kill_fuse_protection.regions()[1].end_addr == SECURE_RAM_BASE + SECURE_RAM_SIZE
        &&& forall|i: int|
            2 <= i < crate::security::MAX_PROTECTED_REGIONS ==> !populated(
                #[trigger] self.kill_fuse_protection.regions()[i],
            )
    }

    /// Brings the drivers up in fixed order (entropy source, decision latch,
    /// compute core, fuse mesh) and enables the integrity guard last.
    pub fn initialize(devices: HardwareBlocks, memory: &MemoryBus) -> (r: Result<Self, BootError>)
        requires
            devices.wf(),
        ensures
            r is Ok <==> init_verdict(&devices, memory) is Ok,
            r is Err ==> r == Err::<Self, BootError>(init_verdict(&devices, memory)->Err_0),
            r is Ok ==> r->Ok_0.fresh_from(&devices, memory),
    {
        let HardwareBlocks { puf_heart, optic_gate, tri_compute, trip_fuse } = devices;
        let puf_heart = PufHeart::initialize(puf_heart)?;
        let optic_gate = OpticGate::initialize(optic_gate)?;
        let tri_compute = TriComputeCore::initialize(tri_compute)?;
        let trip_fuse = TripFuse::initialize(trip_fuse)?;
        let kill_fuse_protection = KillFuseProtection::initialize(memory)?;
        Ok(ArkHardware { puf_heart, optic_gate, tri_compute, trip_fuse, kill_fuse_protection })
    }

    /// Runs every self-test in order and stops at the first failure.
    pub fn self_test(&mut self, memory: &MemoryBus, probes: MonitorProbes, now: u64) -> (r: Result<
        (),
        BootError,
    >)
        requires
            old(self).wf(),
        ensures
            final(self).wf(),
            final(self).puf_heart.cache() == old(self).puf_heart.cache(),
            final(self).kill_fuse_protection.regions() == old(self).kill_fuse_protection.regions(),
            final(self).kill_fuse_protection.is_on() == old(self).kill_fuse_protection.is_on(),
            r is Ok ==> old(self).self_test_ok(memory, probes),
            completion_ready(old(self).puf_heart.device()) ==> (r is Ok <==> old(
                self,
            ).self_test_ok(memory, probes)),
            completion_ready(old(self).puf_heart.device()) ==> r == old(self).self_test_verdict(
                memory,
                probes,
            ),
    {
        self.puf_heart.entropy_test()?;
        self.optic_gate.timing_test()?;
        self.tri_compute.integrity_test()?;
        self.trip_fuse.continuity_test()?;
        self.kill_fuse_protection.verify_protection(memory, probes, now)?;
        Ok(())
    }
}

/// After bring-up, a guard attempt comes from a pattern in ROM or secure RAM,
/// or from a monitor.
proof fn lemma_fresh_guard_attempt(hw: ArkHardware, d: &HardwareBlocks, mem: &MemoryBus, probes: MonitorProbes)
    requires
        hw.fresh_from(d, mem),
    ensures
        hw.kill_fuse_protection.attempt_detected(mem, probes) <==> !(
            !probes.unauthorized_connection && !probes.timing_anomaly && forall|j: int|
                0 <= j < guard_patterns().len() ==> !pattern_in_protected_memory(
                    mem,
                    #[trigger] guard_patterns()[j],
                )),
{
    let g = hw.kill_fuse_protection;
    assert forall|j: int| 0 <= j < guard_patterns().len() implies pattern_in_regions(
        g.regions(),
        mem,
        #[trigger] guard_patterns()[j],
    ) == pattern_in_protected_memory(mem, guard_patterns()[j]) by {
        let pat = guard_patterns()[j];
        if pattern_in_regions(g.regions(), mem, pat) {
            let i = choose|i: int|
                0 <= i < g.regions().len() && populated(g.regions()[i]) && (#[trigger] crate::security::region_bytes(
                    mem,
                    g.regions()[i],
                )) is Some && contains_pattern(
                    crate::security::region_bytes(mem, g.regions()[i])->Some_0,
                    pat,
                );
            assert(i == 0 || i == 1);
        }
        if pattern_in_protected_memory(mem, pat) {
            let rom = region_of(mem.segments@, SECURE_ROM_BASE as int, SECURE_ROM_BASE + SECURE_ROM_SIZE);
            if rom is Some && contains_pattern(rom->Some_0, pat) {
                assert(crate::security::region_bytes(mem, g.regions()[0]) == rom);
            } else {
                assert(crate::security::region_bytes(mem, g.regions()[1]) is Some);
            }
        }
    }
}

/// The boot sequence and, once booted, the hardware it owns.
pub struct BootOrchestrator {
    state: BootState,
    hardware: Option<ArkHardware>,
    context: SecureBootContext,
    last_error: Option<BootError>,
}

impl BootOrchestrator {
    pub closed spec fn current(&self) -> BootState {
        self.state
    }

    pub closed spec fn hw(&self) -> Option<ArkHardware> {
        self.hardware
    }

    pub closed spec fn error(&self) -> Option<BootError> {
        self.last_error
    }

    pub closed spec fn milestones(&self) -> SecureBootContext {
        self.context
    }

    pub open spec fn wf(&self) -> bool {
        &&& self.hw() is Some ==> self.hw()->Some_0.wf()
        &&& self.current() == BootState::Running ==> self.hw() is Some
    }

    /// Where `boot` ends for these inputs: EmergencyShutdown with no driver
    /// touched when the verifier fails; otherwise SafeMode or Running, and
    /// Running exactly when bring-up and every self-test pass. Either way the
    /// boot window's entropy seed is wiped.
    pub open spec fn boot_outcome(
        image: &BootImage,
        d: &HardwareBlocks,
        memory: &MemoryBus,
        probes: MonitorProbes,
        r: Self,
    ) -> bool {
        &&& r.milestones().entropy_seed@ == Seq::new(32, |i: int| 0u8)
        &&& boot_verdict(image, d) is Err ==> {
            &&& r.current() == BootState::EmergencyShutdown
            &&& r.hw() is None
            &&& r.error() == Some(boot_verdict(image, d)->Err_0)
        }
        &&& boot_verdict(image, d) is Ok ==> {
            &&& r.milestones().crypto_verified
            &&& r.milestones().moral_foundation_verified
            &&& r.current() == BootState::SafeMode || r.current() == BootState::Running
        }
        &&& boot_verdict(image, d) is Ok && init_verdict(d, memory) is Err ==> {
            &&& r.current() == BootState::SafeMode
            &&& r.hw() is None
            &&& r.error() == Some(init_verdict(d, memory)->Err_0)
        }
        &&& boot_verdict(image, d) is Ok && init_verdict(d, memory) is Ok ==> {
            &&& r.milestones().hardware_available
            &&& r.hw() is Some
            &&& (r.current() == BootState::Running <==> boot_self_test_ok(d, memory, probes))
            &&& r.error() == match boot_self_test_verdict(d, memory, probes) {
                Ok(()) => None,
                Err(e) => Some(e),
            }
        }
    }

    /// Runs the whole boot: the verifier on `image` and `devices`, then
    /// driver bring-up, then the self-tests. No driver is touched unless the
    /// verifier passes.
    pub fn boot(image: &BootImage, devices: HardwareBlocks, memory: &MemoryBus, probes: MonitorProbes, now: u64) -> (r:
        Self)
        requires
            devices.wf(),
        ensures
            r.wf(),
            Self::boot_outcome(image, &devices, memory, probes, r),
    {
        let mut context = SecureBootContext::new();
        context.boot_timestamp = now;
        let state = BootState::VerifyingBoot;
        match ImmutableBoot::execute(image, &devices) {
            Err(e) => {
                context.wipe_seed();
                return BootOrchestrator {
                    state: transition(state, BootEvent::VerifierFailed),
                    hardware: None,
                    context,
                    last_error: Some(e),
                };
            },
            Ok(()) => {},
        }
        context.mark_crypto_verified();
        context.mark_moral_foundation_verified();
        let state = transition(state, BootEvent::VerifierPassed);
        let ghost d = devices;
        let mut hw = match ArkHardware::initialize(devices, memory) {
            Err(e) => {
                context.wipe_seed();
                return BootOrchestrator {
                    state: transition(state, BootEvent::DriverInitFailed),
                    hardware: None,
                    context,
                    last_error: Some(e),
                };
            },
            Ok(hw) => hw,
        };
        context.mark_hardware_available();
        let state = transition(state, BootEvent::DriversReady);
        let ghost fresh = hw;
        proof {
            lemma_fresh_guard_attempt(fresh, &d, memory, probes);
            assert forall|i: int| 0 <= i < TIMING_TEST_WRITES implies #[trigger] write_latency(
                fresh.optic_gate.device(),
                i,
            ) == write_latency(d.optic_gate, i) by {}
        }
        let outcome = hw.self_test(memory, probes, now);
        context.wipe_seed();
        match outcome {
            Err(e) => BootOrchestrator {
                state: transition(state, BootEvent::SelfTestFailed),
                hardware: Some(hw),
                context,
                last_error: Some(e),
            },
            Ok(()) => BootOrchestrator {
                state: transition(state, BootEvent::SelfTestPassed),
                hardware: Some(hw),
                context,
                last_error: None,
            },
        }
    }

    /// Whether the drivers were ever brought up.
    pub fn hardware_initialized(&self) -> (r: bool)
        ensures
            r == self.hw() is Some,
    {
        self.hardware.is_some()
    }

    /// The current state: the coarse heartbeat seen from outside.
    pub fn state(&self) -> (r: BootState)
        ensures
            r == self.current(),
    {
        self.state
    }

    /// The error that decided the current state, or the last periodic failure.
    pub fn last_error(&self) -> (r: Option<BootError>)
        ensures
            r == self.error(),
    {
        self.last_error
    }

    /// The milestones of the boot window.
    pub fn context(&self) -> (r: &SecureBootContext)
        ensures
            *r == self.milestones(),
    {
        &self.context
    }

    /// The periodic self-test while Running. A failure is surfaced and
    /// recorded, and the state stays Running. Outside Running nothing is
    /// tested and the check fails with `HardwareTestFailed`.
    pub fn periodic_check(&mut self, memory: &MemoryBus, probes: MonitorProbes, now: u64) -> (r: Result<
        (),
        BootError,
    >)
        requires
            old(self).wf(),
        ensures
            final(self).wf(),
            final(self).current() == old(self).current(),
            old(self).current() != BootState::Running ==> r == Err::<(), BootError>(
                BootError::HardwareTestFailed,
            ) && *final(self) == *old(self),
            old(self).current() == BootState::Running ==> {
                &&& r is Ok ==> old(self).hw()->Some_0.self_test_ok(memory, probes)
                &&& completion_ready(old(self).hw()->Some_0.puf_heart.device()) ==> (r is Ok
                    <==> old(self).hw()->Some_0.self_test_ok(memory, probes))
                &&& completion_ready(old(self).hw()->Some_0.puf_heart.device()) ==> r == old(
                    self,
                ).hw()->Some_0.self_test_verdict(memory, probes)
                &&& r is Err ==> final(self).error() == Some(r->Err_0)
            },
    {
        if self.state != BootState::Running {
            return Err(BootError::HardwareTestFailed);
        }
        let result = match &mut self.hardware {
            Some(hw) => hw.self_test(memory, probes, now),
            None => Err(BootError::HardwareTestFailed),
        };
        if let Err(e) = result {
            self.state = transition(self.state, BootEvent::PeriodicCheckFailed);
            self.last_error = Some(e);
        }
        result
    }

    /// The entropy source's response to `salt`; only while Running.
    pub fn puf_challenge(&mut self, salt: &[u8; 16]) -> (r: Result<[u8; 64], CryptoError>)
        requires
            old(self).wf(),
        ensures
            final(self).wf(),
            final(self).current() == old(self).current(),
            old(self).current() != BootState::Running ==> r == Err::<[u8; 64], CryptoError>(
                CryptoError::HardwareNotInitialized,
            ) && *final(self) == *old(self),
            old(self).current() == BootState::Running ==> PufHeart::challenge_post(
                old(self).hw()->Some_0.puf_heart,
                *salt,
                final(self).hw()->Some_0.puf_heart,
                r,
            ),
    {
        if self.state != BootState::Running {
            return Err(CryptoError::HardwareNotInitialized);
        }
        match &mut self.hardware {
            Some(hw) => hw.puf_heart.get_challenge(salt),
            None => Err(CryptoError::HardwareNotInitialized),
        }
    }

    /// Commits a decision to the latch; only while Running.
    pub fn optic_gate_decision(&mut self, decision: u8) -> (r: Result<(), HardwareError>)
        requires
            old(self).wf(),
        ensures
            final(self).wf(),
            final(self).current() == old(self).current(),
            old(self).current() != BootState::Running ==> r == Err::<(), HardwareError>(
                HardwareError::NotInitialized,
            ) && *final(self) == *old(self),
            old(self).current() == BootState::Running ==> OpticGate::write_post(
                old(self).hw()->Some_0.optic_gate,
                decision,
                final(self).hw()->Some_0.optic_gate,
                r,
            ),
    {
        if self.state != BootState::Running {
            return Err(HardwareError::NotInitialized);
        }
        match &mut self.hardware {
            Some(hw) => hw.optic_gate.write_decision(decision),
            None => Err(HardwareError::NotInitialized),
        }
    }

    /// Hands `data` to the compute core; only while Running.
    pub fn tri_compute_execute(&mut self, data: &[u8]) -> (r: Result<Vec<u8>, HardwareError>)
        requires
            old(self).wf(),
        ensures
            final(self).wf(),
            final(self).current() == old(self).current(),
            old(self).current() != BootState::Running ==> r == Err::<Vec<u8>, HardwareError>(
                HardwareError::NotInitialized,
            ) && *final(self) == *old(self),
            old(self).current() == BootState::Running ==> TriComputeCore::execute_post(
                old(self).hw()->Some_0.tri_compute,
                data@,
                final(self).hw()->Some_0.tri_compute,
                r,
            ),
    {
        if self.state != BootState::Running {
            return Err(HardwareError::NotInitialized);
        }
        match &mut self.hardware {
            Some(hw) => hw.tri_compute.execute(data),
            None => Err(HardwareError::NotInitialized),
        }
    }

    /// Fills `bytes` from the entropy pool; only while Running.
    pub fn get_entropy(&mut self, bytes: &mut [u8]) -> (r: Result<(), CryptoError>)
        requires
            old(self).wf(),
        ensures
            final(self).wf(),
            final(self).current() == old(self).current(),
            final(bytes)@.len() == old(bytes)@.len(),
            old(self).current() != BootState::Running ==> r == Err::<(), CryptoError>(
                CryptoError::HardwareNotInitialized,
            ) && *final(self) == *old(self) && final(bytes)@ == old(bytes)@,
            old(self).current() == BootState::Running ==> {
                let before = old(self).hw()->Some_0.puf_heart;
                &&& old(bytes)@.len() > ENTROPY_POOL_BYTES ==> r == Err::<(), CryptoError>(
                    CryptoError::InsufficientEntropy,
                )
                &&& r is Ok ==> final(bytes)@ == before.serving_pool().subrange(
                    0,
                    old(bytes)@.len() as int,
                )
                &&& old(bytes)@.len() <= ENTROPY_POOL_BYTES && (before.pool()[0] != 0
                    || completion_ready(before.device())) ==> r is Ok
            },
    {
        if self.state != BootState::Running {
            return Err(CryptoError::HardwareNotInitialized);
        }
        match &mut self.hardware {
            Some(hw) => hw.puf_heart.get_entropy(bytes),
            None => Err(CryptoError::HardwareNotInitialized),
        }
    }

    /// The fault handler: wipes the entropy pool, the compute core's scratch
    /// registers and the boot context, then halts for good.
    pub fn fault(&mut self)
        requires
            old(self).wf(),
        ensures
            final(self).wf(),
            final(self).current() == BootState::Halted,
            final(self).hw() is Some <==> old(self).hw() is Some,
            final(self).hw() is Some ==> {
                let hw = final(self).hw()->Some_0;
                &&& hw.puf_heart.pool() == Seq::new(ENTROPY_POOL_BYTES as nat, |i: int| 0u8)
                &&& hw.puf_heart.cache() is None
                &&& forall|j: int|
                    0 <= j < COMPUTE_SCRATCH_WORDS ==> #[trigger] hw.tri_compute.device().regs()[j] == 0
            },
            final(self).milestones().entropy_seed@ == Seq::new(32, |i: int| 0u8),
    {
        match &mut self.hardware {
            Some(hw) => {
                hw.puf_heart.emergency_zeroize();
                hw.tri_compute.emergency_zeroize();
            },
            None => {},
        }
        self.context.zeroize();
        self.state = transition(self.state, BootEvent::UnrecoverableFault);
    }
}

/// No event leads out of a terminal state to a non-terminal one: a failed
/// verification is never given a second chance.
pub proof fn lemma_terminal_states_stay_terminal(s: BootState, e: BootEvent)
    requires
        is_terminal(s),
    ensures
        is_terminal(next_state(s, e)),
{
}

/// A verifier failure always ends in EmergencyShutdown, never in SafeMode.
pub proof fn lemma_verifier_failure_shuts_down()
    ensures
        next_state(BootState::VerifyingBoot, BootEvent::VerifierFailed)
            == BootState::EmergencyShutdown,
{
}

/// Changing one byte of the hashed firmware region yields
/// `CryptoVerificationFailed`, and the boot ends in EmergencyShutdown, never
/// in SafeMode. It holds where the memory markers are intact (phase 1 runs
/// first) and the digest tells the two images apart.
pub proof fn lemma_corrupted_firmware_shuts_down(
    good: &BootImage,
    bad: &BootImage,
    devices: &HardwareBlocks,
    memory: &MemoryBus,
    probes: MonitorProbes,
    outcome: BootOrchestrator,
    i: int,
    b: u8,
)
    requires
        BootOrchestrator::boot_outcome(bad, devices, memory, probes, outcome),
        firmware_authentic(good),
        memory_intact(bad),
        bad.digests == good.digests,
        0 <= i < good.firmware@.len(),
        b != good.firmware@[i],
        bad.firmware@ == good.firmware@.update(i, b),
        blake3_of(bad.firmware@) != blake3_of(good.firmware@),
    ensures
        boot_verdict(bad, devices) == Err::<(), BootError>(BootError::CryptoVerificationFailed),
        outcome.current() == BootState::EmergencyShutdown,
        outcome.error() == Some(BootError::CryptoVerificationFailed),
        outcome.hw() is None,
{
}

/// A deny-listed pattern in an authentic image fails phase 3: the boot ends
/// in EmergencyShutdown and no driver is ever brought up.
pub proof fn lemma_kill_switch_pattern_shuts_down(
    image: &BootImage,
    devices: &HardwareBlocks,
    memory: &MemoryBus,
    probes: MonitorProbes,
    outcome: BootOrchestrator,
    j: int,
)
    requires
        BootOrchestrator::boot_outcome(image, devices, memory, probes, outcome),
        memory_intact(image),
        firmware_authentic(image),
        0 <= j < kill_switch_patterns().len(),
        contains_pattern(image.firmware@, kill_switch_patterns()[j]),
    ensures
        outcome.current() == BootState::EmergencyShutdown,
        outcome.error() == Some(BootError::KillSwitchDetected),
        outcome.hw() is None,
{
}

/// When every verifier phase, every bring-up step and every self-test
/// passes, the boot ends in Running with the drivers in their slot.
pub proof fn lemma_all_checks_pass_runs(
    image: &BootImage,
    devices: &HardwareBlocks,
    memory: &MemoryBus,
    probes: MonitorProbes,
    outcome: BootOrchestrator,
)
    requires
        BootOrchestrator::boot_outcome(image, devices, memory, probes, outcome),
        boot_verdict(image, devices) is Ok,
        init_verdict(devices, memory) is Ok,
        boot_self_test_ok(devices, memory, probes),
    ensures
        outcome.current() == BootState::Running,
        outcome.hw() is Some,
{
}

/// Entropy throughput below the floor on an otherwise sound boot degrades to
/// SafeMode, not EmergencyShutdown; once the drivers are up, the recorded
/// error is `HardwareTestFailed`.
pub proof fn lemma_low_entropy_degrades(
    image: &BootImage,
    devices: &HardwareBlocks,
    memory: &MemoryBus,
    probes: MonitorProbes,
    outcome: BootOrchestrator,
)
    requires
        BootOrchestrator::boot_outcome(image, devices, memory, probes, outcome),
        boot_verdict(image, devices) is Ok,
        !entropy_rate_ok(
            ENTROPY_TEST_BITS,
            elapsed(devices.puf_heart.sample(0), devices.puf_heart.sample(1)),
        ),
    ensures
        outcome.current() == BootState::SafeMode,
        init_verdict(devices, memory) is Ok ==> outcome.error() == Some(
            BootError::HardwareTestFailed,
        ),
{
}

/// A corrupted policy corpus yields `MoralFoundationCorrupted`, and the boot
/// ends in EmergencyShutdown. It holds where the earlier phases pass and the
/// digest tells the corpora apart.
pub proof fn lemma_corrupted_policy_shuts_down(
    good: &BootImage,
    bad: &BootImage,
    devices: &HardwareBlocks,
    memory: &MemoryBus,
    probes: MonitorProbes,
    outcome: BootOrchestrator,
)
    requires
        BootOrchestrator::boot_outcome(bad, devices, memory, probes, outcome),
        policy_authentic(good),
        memory_intact(bad),
        firmware_authentic(bad),
        kill_switch_free(bad),
        bad.digests == good.digests,
        bad.policy_corpus@ != good.policy_corpus@,
        sha3_256_of(bad.policy_corpus@) != sha3_256_of(good.policy_corpus@),
    ensures
        boot_verdict(bad, devices) == Err::<(), BootError>(BootError::MoralFoundationCorrupted),
        outcome.current() == BootState::EmergencyShutdown,
        outcome.error() == Some(BootError::MoralFoundationCorrupted),
{
}

} // verus!
