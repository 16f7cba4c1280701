//! Drivers for the four trust-anchor devices: the entropy/identity source,
//! the decision latch, the hybrid compute core and the anti-tamper fuse mesh.
use vstd::prelude::*;
use crate::boot::BootError;
use crate::crypto::CryptoError;
use crate::digest::wipe_bytes;
use crate::mmio::{
    completion_ready,
    elapsed,
    le_word,
    words_le_bytes,
    RegisterBlock,
    REG_RESEED,
    REG_REQUEST,
    REG_RESULT,
    REG_SEED,
    REG_SIGNATURE,
    REG_START,
    REG_STATUS,
};

verus! {

/// Class signature of the entropy/identity source ("PUF\0").
pub const PUF_SIGNATURE: u32 = 0x5055_4600;

/// Class signature of the decision latch ("OGT\0").
pub const GATE_SIGNATURE: u32 = 0x4F47_5400;

/// Class signature of the hybrid compute core ("TCC\0").
pub const COMPUTE_SIGNATURE: u32 = 0x5443_4300;

/// Class signature of the fuse mesh ("TFM\0").
pub const FUSE_SIGNATURE: u32 = 0x5446_4D00;

/// The register windows of the four devices, before any driver owns them.
pub struct HardwareBlocks {
    pub puf_heart: RegisterBlock,
    pub optic_gate: RegisterBlock,
    pub tri_compute: RegisterBlock,
    pub trip_fuse: RegisterBlock,
}

impl HardwareBlocks {
    pub open spec fn wf(&self) -> bool {
        &&& self.puf_heart.wf()
        &&& self.optic_gate.wf()
        &&& self.tri_compute.wf()
        &&& self.trip_fuse.wf()
    }
}

/// Errors of the drivers and of their post-boot API.
#[derive(Debug, Clone, Copy, PartialEq, Eq, Structural)]
pub enum HardwareError {
    /// The hardware is not initialized.
    NotInitialized,
    /// A hardware wait ran out of polls.
    Timeout,
    /// A value outside the device's contract was offered.
    IntegrityFailed,
    /// The entropy source fell short.
    InsufficientEntropy,
    /// The device answered later than its designed bound.
    TimingViolation,
    /// The device reported a fault.
    HardwareFault,
}

/// Largest number of status polls that one hardware wait makes.
pub const POLL_LIMIT: u32 = 1_000_000;

/// Size of the entropy pool in bytes.
pub const ENTROPY_POOL_BYTES: usize = 256;

/// How far the pool rotates after each serve.
pub const POOL_ROTATION: usize = 32;

/// Draws made by the entropy self-test.
pub const ENTROPY_TEST_DRAWS: u32 = 1000;

/// Bytes per draw of the entropy self-test.
pub const ENTROPY_TEST_DRAW_BYTES: usize = 64;

/// Bits served by the whole entropy self-test: draws times bytes per draw
/// times eight.
pub const ENTROPY_TEST_BITS: u64 = 512_000;

/// Least sustained entropy throughput, in bits per second.
pub const ENTROPY_FLOOR_BPS: u64 = 512_000;

/// The registers after a challenge is issued: the salt as four
/// little-endian request words, then the start strobe.
pub open spec fn issue_challenge(regs: Seq<u32>, salt: Seq<u8>) -> Seq<u32> {
    regs.update(4, le_word(salt, 0)).update(5, le_word(salt, 1)).update(6, le_word(salt, 2)).update(
        7,
        le_word(salt, 3),
    ).update(8, 1)
}

/// The 64-byte response that the device holds in its sixteen result words.
pub open spec fn challenge_response(b: RegisterBlock) -> Seq<u8> {
    words_le_bytes(b.regs().subrange(12, 28))
}

/// The 256 pool bytes that a re-seed yields from the device's seed words.
pub open spec fn reseed_output(b: RegisterBlock) -> Seq<u8> {
    words_le_bytes(b.regs().subrange(28, 92))
}

/// The pool after one serve: rotated left by `POOL_ROTATION` bytes.
pub open spec fn rotate_pool(p: Seq<u8>) -> Seq<u8> {
    p.subrange(POOL_ROTATION as int, p.len() as int) + p.subrange(0, POOL_ROTATION as int)
}

/// Throughput of `bits` in `elapsed_us` microseconds is at or above the floor.
pub open spec fn entropy_rate_ok(bits: u64, elapsed_us: u32) -> bool {
    bits * 1_000_000 >= ENTROPY_FLOOR_BPS * elapsed_us
}

/// Whether `bits` served in `elapsed_us` microseconds meet the entropy
/// throughput floor. A rate exactly at the floor passes.
pub fn entropy_rate_sufficient(bits: u64, elapsed_us: u32) -> (r: bool)
    ensures
        r == entropy_rate_ok(bits, elapsed_us),
        elapsed_us > 0 ==> (r <==> (bits * 1_000_000) / (elapsed_us as int) >= ENTROPY_FLOOR_BPS),
{
    proof {
        if elapsed_us > 0 {
            lemma_rate_floor(bits * 1_000_000, elapsed_us as int, ENTROPY_FLOOR_BPS as int);
        }
    }
    let elapsed_wide = elapsed_us as u128;
    assert(ENTROPY_FLOOR_BPS * elapsed_wide <= 512_000 * 0xffff_ffffu128) by (nonlinear_arith)
        requires
            elapsed_wide <= 0xffff_ffff,
            ENTROPY_FLOOR_BPS == 512_000,
    ;
    assert(bits * 1_000_000u128 <= 0xffff_ffff_ffff_ffffu128 * 1_000_000) by (nonlinear_arith)
        requires
            bits <= 0xffff_ffff_ffff_ffffu64,
    ;
    (bits as u128) * 1_000_000 >= (ENTROPY_FLOOR_BPS as u128) * elapsed_wide
}

proof fn lemma_rate_floor(x: int, d: int, f: int)
    requires
        x >= 0,
        d > 0,
        f >= 0,
    ensures
        (x >= f * d) <==> (x / d >= f),
{
    vstd::arithmetic::div_mod::lemma_fundamental_div_mod(x, d);
    vstd::arithmetic::div_mod::lemma_mod_pos_bound(x, d);
    let q = x / d;
    let m = x % d;
    if x >= f * d && q < f {
        assert(false) by (nonlinear_arith)
            requires
                x == d * q + m,
                d > 0,
                m < d,
                q < f,
                x >= f * d,
        ;
    }
    if x < f * d && q >= f {
        assert(false) by (nonlinear_arith)
            requires
                x == d * q + m,
                0 <= m,
                d > 0,
                q >= f,
                x < f * d,
        ;
    }
}

/// The little-endian word made of `b[4 * j .. 4 * j + 4]`.
fn salt_word(b: &[u8; 16], j: usize) -> (r: u32)
    requires
        j < 4,
    ensures
        r == le_word(b@, j as int),
{
    (b[4 * j] as u32) | ((b[4 * j + 1] as u32) << 8u32) | ((b[4 * j + 2] as u32) << 16u32) | ((b[4
        * j + 3] as u32) << 24u32)
}

/// Byte `k` of register number `word`, little-endian.
fn register_byte(regs: &RegisterBlock, word: usize, k: usize) -> (r: u8)
    requires
        regs.wf(),
        word < crate::mmio::REGISTER_WORDS,
        k < 4,
    ensures
        r == crate::mmio::word_byte(regs.regs()[word as int], k as int),
{
    let w = regs.read(4 * word);
    ((w >> ((8 * k) as u32)) & 0xff) as u8
}

/// Polls the completion bit at most `POLL_LIMIT` times.
fn wait_for_completion(regs: &RegisterBlock) -> (r: Result<(), CryptoError>)
    requires
        regs.wf(),
    ensures
        r == (if completion_ready(*regs) {
            Ok(())
        } else {
            Err(CryptoError::HardwareTimeout)
        }),
{
    let mut i: u32 = 0;
    while i < POLL_LIMIT
        invariant
            regs.wf(),
            i <= POLL_LIMIT,
            i > 0 ==> !completion_ready(*regs),
        decreases POLL_LIMIT - i,
    {
        let status = regs.read(REG_STATUS);
        if status & 1 != 0 {
            return Ok(());
        }
        i = i + 1;
    }
    Err(CryptoError::HardwareTimeout)
}

/// Whether the device shows `signature` at offset 0.
fn signature_matches(regs: &RegisterBlock, signature: u32) -> (r: bool)
    requires
        regs.wf(),
    ensures
        r == (regs.reg(0) == signature),
{
    regs.read(REG_SIGNATURE) == signature
}

/// Entropy and identity source (physically unclonable function).
pub struct PufHeart {
    regs: RegisterBlock,
    entropy_pool: [u8; 256],
    challenge_response_cache: Option<([u8; 16], [u8; 64])>,
}

impl PufHeart {
    pub closed spec fn device(&self) -> RegisterBlock {
        self.regs
    }

    pub closed spec fn pool(&self) -> Seq<u8> {
        self.entropy_pool@
    }

    /// The last salt and the response it got.
    pub closed spec fn cache(&self) -> Option<([u8; 16], [u8; 64])> {
        self.challenge_response_cache
    }

    pub closed spec fn wf(&self) -> bool {
        self.regs.wf()
    }

    /// The cache holds a response for `salt`.
    pub open spec fn cache_hit(&self, salt: Seq<u8>) -> bool {
        match self.cache() {
            Some(c) => c.0@ == salt,
            None => false,
        }
    }

    /// What one `get_challenge(salt)` does, from state `pre` to state `post`
    /// with result `r`.
    pub open spec fn challenge_post(
        pre: PufHeart,
        salt: [u8; 16],
        post: PufHeart,
        r: Result<[u8; 64], CryptoError>,
    ) -> bool {
        &&& post.wf()
        &&& post.pool() == pre.pool()
        &&& if pre.cache_hit(salt@) {
            &&& r == Ok::<[u8; 64], CryptoError>(pre.cache()->Some_0.1)
            &&& post == pre
        } else {
            &&& post.device().base() == pre.device().base()
            &&& post.device().timer_samples() == pre.device().timer_samples()
            &&& post.device().regs() == issue_challenge(pre.device().regs(), salt@)
            &&& if completion_ready(pre.device()) {
                &&& r is Ok
                &&& r->Ok_0@ == challenge_response(pre.device())
                &&& post.cache() == Some((salt, r->Ok_0))
            } else {
                &&& r == Err::<[u8; 64], CryptoError>(CryptoError::HardwareTimeout)
                &&& post.cache() == pre.cache()
            }
        }
    }

    /// The device's registers.
    pub fn registers(&self) -> (r: &RegisterBlock)
        ensures
            *r == self.device(),
    {
        &self.regs
    }

    /// Takes the device over: checks its signature, then seeds the pool.
    pub fn initialize(regs: RegisterBlock) -> (r: Result<Self, BootError>)
        requires
            regs.wf(),
        ensures
            r is Ok <==> (regs.reg(0) == PUF_SIGNATURE && completion_ready(regs)),
            r is Ok ==> {
                let p = r->Ok_0;
                &&& p.wf()
                &&& p.pool() == reseed_output(regs)
                &&& p.cache() is None
                &&& p.device().base() == regs.base()
                &&& p.device().timer_samples() == regs.timer_samples()
                &&& p.device().regs() == regs.regs().update(9, 1)
            },
            r is Err ==> r == Err::<Self, BootError>(BootError::HardwareTestFailed),
    {
        let mut puf = PufHeart { regs, entropy_pool: [0u8; 256], challenge_response_cache: None };
        if !puf.verify_hardware_presence() {
            return Err(BootError::HardwareTestFailed);
        }
        match puf.refresh_entropy_pool() {
            Ok(()) => Ok(puf),
            Err(_) => Err(BootError::HardwareTestFailed),
        }
    }

    /// The device's response to `salt`. A repeated salt is answered from the
    /// cache, without a hardware round trip.
    pub fn get_challenge(&mut self, salt: &[u8; 16]) -> (r: Result<[u8; 64], CryptoError>)
        requires
            old(self).wf(),
        ensures
            Self::challenge_post(*old(self), *salt, *final(self), r),
    {
        if let Some((cached_salt, cached_response)) = &self.challenge_response_cache {
            if crate::digest::ct_eq(cached_salt.as_slice(), salt.as_slice()) {
                return Ok(*cached_response);
            }
        }
        let response = self.generate_challenge_response(salt)?;
        self.challenge_response_cache = Some((*salt, response));
        Ok(response)
    }

    /// The pool a serve draws from: re-seeded first when its first byte is 0.
    pub open spec fn serving_pool(&self) -> Seq<u8> {
        if self.pool()[0] == 0 {
            reseed_output(self.device())
        } else {
            self.pool()
        }
    }

    /// Fills `output` from the entropy pool, re-seeding it first when it is
    /// exhausted, then rotates the pool.
    pub fn get_entropy(&mut self, output: &mut [u8]) -> (r: Result<(), CryptoError>)
        requires
            old(self).wf(),
        ensures
            final(self).wf(),
            final(self).cache() == old(self).cache(),
            final(self).device().base() == old(self).device().base(),
            final(self).device().timer_samples() == old(self).device().timer_samples(),
            completion_ready(final(self).device()) == completion_ready(old(self).device()),
            final(output)@.len() == old(output)@.len(),
            old(output)@.len() > ENTROPY_POOL_BYTES ==> {
                &&& r == Err::<(), CryptoError>(CryptoError::InsufficientEntropy)
                &&& *final(self) == *old(self)
                &&& final(output)@ == old(output)@
            },
            old(output)@.len() <= ENTROPY_POOL_BYTES ==> {
                let refresh = old(self).pool()[0] == 0;
                &&& final(self).device().regs() == (if refresh {
                    old(self).device().regs().update(9, 1)
                } else {
                    old(self).device().regs()
                })
                &&& if refresh && !completion_ready(old(self).device()) {
                    &&& r == Err::<(), CryptoError>(CryptoError::HardwareTimeout)
                    &&& final(output)@ == old(output)@
                    &&& final(self).pool() == old(self).pool()
                } else {
                    &&& r is Ok
                    &&& final(output)@ == old(self).serving_pool().subrange(
                        0,
                        old(output)@.len() as int,
                    )
                    &&& final(self).pool() == rotate_pool(old(self).serving_pool())
                }
            },
    {
        if output.len() > ENTROPY_POOL_BYTES {
            return Err(CryptoError::InsufficientEntropy);
        }
        if self.entropy_pool_exhausted() {
            self.refresh_entropy_pool()?;
        }
        let n = output.len();
        for i in 0..n
            invariant
                n == output@.len(),
                n <= ENTROPY_POOL_BYTES,
                self.pool() == old(self).serving_pool(),
                self.wf(),
                forall|j: int| 0 <= j < i ==> #[trigger] output@[j] == self.pool()[j],
        {
            output[i] = self.entropy_pool[i];
        }
        assert(output@ =~= old(self).serving_pool().subrange(0, n as int));
        self.rotate_entropy_pool();
        Ok(())
    }

    /// Measures sustained throughput over `ENTROPY_TEST_DRAWS` draws of
    /// `ENTROPY_TEST_DRAW_BYTES` bytes, timed by two timer samples, and fails
    /// below `ENTROPY_FLOOR_BPS`. At or above the floor it fails only when a
    /// re-seed found the device not ready.
    pub fn entropy_test(&mut self) -> (r: Result<(), BootError>)
        requires
            old(self).wf(),
        ensures
            final(self).wf(),
            final(self).cache() == old(self).cache(),
            final(self).device().base() == old(self).device().base(),
            r is Err ==> r == Err::<(), BootError>(BootError::HardwareTestFailed),
            r is Ok ==> entropy_rate_ok(
                ENTROPY_TEST_BITS,
                elapsed(old(self).device().sample(0), old(self).device().sample(1)),
            ),
            completion_ready(old(self).device()) ==> (r is Ok <==> entropy_rate_ok(
                ENTROPY_TEST_BITS,
                elapsed(old(self).device().sample(0), old(self).device().sample(1)),
            )),
            r is Err && entropy_rate_ok(
                ENTROPY_TEST_BITS,
                elapsed(old(self).device().sample(0), old(self).device().sample(1)),
            ) ==> !completion_ready(old(self).device()) && final(self).device().regs() == old(
                self,
            ).device().regs().update(9, 1),
    {
        let test_start = self.get_timing();
        let mut test_data: Vec<u8> = vec![0u8; ENTROPY_TEST_DRAW_BYTES];
        let mut k: u32 = 0;
        while k < ENTROPY_TEST_DRAWS
            invariant
                self.wf(),
                test_data@.len() == ENTROPY_TEST_DRAW_BYTES,
                self.cache() == old(self).cache(),
                self.device().base() == old(self).device().base(),
                completion_ready(self.device()) == completion_ready(old(self).device()),
                test_start == old(self).device().sample(0),
                forall|q: int| 0 <= q ==> #[trigger] self.device().sample(q) == old(self).device().sample(q + 1),
                old(self).wf(),
                self.device().regs() == old(self).device().regs() || self.device().regs() == old(
                    self,
                ).device().regs().update(9, 1),
            decreases ENTROPY_TEST_DRAWS - k,
        {
            let ghost prev = self.device();
            let drawn = self.get_entropy(test_data.as_mut_slice());
            proof {
                assert(old(self).device().regs().update(9, 1).update(9, 1) =~= old(
                    self,
                ).device().regs().update(9, 1));
            }
            match drawn {
                Ok(()) => {},
                Err(_) => {
                    return Err(BootError::HardwareTestFailed);
                },
            }
            assert forall|q: int| 0 <= q implies #[trigger] self.device().sample(q) == prev.sample(
                q,
            ) by {}
            k = k + 1;
        }
        let test_end = self.get_timing();
        let duration = test_end.saturating_sub(test_start);
        if !entropy_rate_sufficient(ENTROPY_TEST_BITS, duration) {
            return Err(BootError::HardwareTestFailed);
        }
        Ok(())
    }

    /// Wipes the pool, forgets the cached response and clears the first
    /// sixteen registers of the device.
    pub fn emergency_zeroize(&mut self)
        requires
            old(self).wf(),
        ensures
            final(self).wf(),
            final(self).pool() == Seq::new(ENTROPY_POOL_BYTES as nat, |i: int| 0u8),
            final(self).cache() is None,
            final(self).device().base() == old(self).device().base(),
            forall|j: int| 0 <= j < 16 ==> #[trigger] final(self).device().regs()[j] == 0,
            forall|j: int|
                16 <= j < crate::mmio::REGISTER_WORDS ==> #[trigger] final(self).device().regs()[j]
                    == old(self).device().regs()[j],
    {
        wipe_bytes(&mut self.entropy_pool);
        self.challenge_response_cache = None;
        for w in 0..16
            invariant
                self.wf(),
                old(self).wf(),
                self.pool() == Seq::new(ENTROPY_POOL_BYTES as nat, |i: int| 0u8),
                self.cache() is None,
                self.device().base() == old(self).device().base(),
                forall|j: int| 0 <= j < w ==> #[trigger] self.device().regs()[j] == 0,
                forall|j: int|
                    w <= j < crate::mmio::REGISTER_WORDS ==> #[trigger] self.device().regs()[j]
                        == old(self).device().regs()[j],
        {
            self.regs.write(4 * w, 0);
        }
    }

    fn get_timing(&mut self) -> (r: u32)
        requires
            old(self).wf(),
        ensures
            final(self).wf(),
            final(self).pool() == old(self).pool(),
            final(self).cache() == old(self).cache(),
            final(self).device().base() == old(self).device().base(),
            final(self).device().regs() == old(self).device().regs(),
            r == old(self).device().sample(0),
            forall|k: int| 0 <= k ==> #[trigger] final(self).device().sample(k) == old(self).device().sample(k + 1),
    {
        self.regs.read_timer()
    }

    fn verify_hardware_presence(&self) -> (r: bool)
        requires
            self.wf(),
        ensures
            r == (self.device().reg(0) == PUF_SIGNATURE),
    {
        signature_matches(&self.regs, PUF_SIGNATURE)
    }

    fn generate_challenge_response(&mut self, salt: &[u8; 16]) -> (r: Result<[u8; 64], CryptoError>)
        requires
            old(self).wf(),
        ensures
            final(self).wf(),
            final(self).pool() == old(self).pool(),
            final(self).cache() == old(self).cache(),
            final(self).device().base() == old(self).device().base(),
            final(self).device().timer_samples() == old(self).device().timer_samples(),
            final(self).device().regs() == issue_challenge(old(self).device().regs(), salt@),
            completion_ready(old(self).device()) ==> r is Ok && r->Ok_0@ == challenge_response(
                old(self).device(),
            ),
            !completion_ready(old(self).device()) ==> r == Err::<[u8; 64], CryptoError>(
                CryptoError::HardwareTimeout,
            ),
    {
        let ghost old_regs = self.regs.regs();
        for i in 0..4
            invariant
                self.wf(),
                old(self).wf(),
                self.pool() == old(self).pool(),
                self.cache() == old(self).cache(),
                self.device().base() == old(self).device().base(),
                self.device().timer_samples() == old(self).device().timer_samples(),
                old_regs == old(self).device().regs(),
                self.device().regs().len() == old_regs.len(),
                forall|j: int|
                    0 <= j < old_regs.len() ==> #[trigger] self.device().regs()[j] == if 4 <= j < 4
                        + i {
                        le_word(salt@, j - 4)
                    } else {
                        old_regs[j]
                    },
        {
            let word = salt_word(salt, i);
            self.regs.write(REG_REQUEST + 4 * i, word);
        }
        self.regs.write(REG_START, 1);
        assert(self.device().regs() =~= issue_challenge(old_regs, salt@));
        wait_for_completion(&self.regs)?;
        let mut response = [0u8; 64];
        for i in 0..64
            invariant
                self.wf(),
                old(self).wf(),
                self.device().regs() == issue_challenge(old_regs, salt@),
                old_regs == old(self).device().regs(),
                forall|j: int|
                    0 <= j < i ==> #[trigger] response@[j] == challenge_response(
                        old(self).device(),
                    )[j],
        {
            let b = register_byte(&self.regs, REG_RESULT / 4 + i / 4, i % 4);
            response[i] = b;
        }
        assert(response@ =~= challenge_response(old(self).device()));
        Ok(response)
    }

    fn refresh_entropy_pool(&mut self) -> (r: Result<(), CryptoError>)
        requires
            old(self).wf(),
        ensures
            final(self).wf(),
            final(self).cache() == old(self).cache(),
            final(self).device().base() == old(self).device().base(),
            final(self).device().timer_samples() == old(self).device().timer_samples(),
            final(self).device().regs() == old(self).device().regs().update(9, 1),
            completion_ready(old(self).device()) ==> r is Ok && final(self).pool()
                == reseed_output(old(self).device()),
            !completion_ready(old(self).device()) ==> r == Err::<(), CryptoError>(
                CryptoError::HardwareTimeout,
            ) && final(self).pool() == old(self).pool(),
    {
        self.regs.write(REG_RESEED, 1);
        wait_for_completion(&self.regs)?;
        let mut pool = [0u8; 256];
        for i in 0..256
            invariant
                self.wf(),
                old(self).wf(),
                self.device().regs() == old(self).device().regs().update(9, 1),
                forall|j: int|
                    0 <= j < i ==> #[trigger] pool@[j] == reseed_output(old(self).device())[j],
        {
            let b = register_byte(&self.regs, REG_SEED / 4 + i / 4, i % 4);
            pool[i] = b;
        }
        self.entropy_pool = pool;
        assert(self.pool() =~= reseed_output(old(self).device()));
        Ok(())
    }

    fn entropy_pool_exhausted(&self) -> (r: bool)
        ensures
            r == (self.pool()[0] == 0),
    {
        self.entropy_pool[0] == 0
    }

    fn rotate_entropy_pool(&mut self)
        ensures
            final(self).pool() == rotate_pool(old(self).pool()),
            final(self).cache() == old(self).cache(),
            final(self).device() == old(self).device(),
    {
        let previous = self.entropy_pool;
        let mut next = [0u8; 256];
        for i in 0..256
            invariant
                previous@ == old(self).pool(),
                forall|j: int| 0 <= j < i ==> #[trigger] next@[j] == previous@[(j + 32) % 256],
        {
            next[i] = previous[(i + POOL_ROTATION) % ENTROPY_POOL_BYTES];
        }
        self.entropy_pool = next;
        assert(self.pool() =~= rotate_pool(old(self).pool()));
    }
}

/// Latency bound of one latch write, in nanoseconds.
pub const LATCH_LATENCY_BOUND_NS: u32 = 10;

/// Latch value that allows.
pub const DECISION_ALLOW: u8 = 1;

/// Latch value that denies.
pub const DECISION_DENY: u8 = 2;

/// Latch value that purges.
pub const DECISION_PURGE: u8 = 3;

/// Writes cycled by the latch timing self-test.
pub const TIMING_TEST_WRITES: usize = 1000;

/// The latch accepts exactly ALLOW, DENY and PURGE.
pub open spec fn valid_decision(d: u8) -> bool {
    DECISION_ALLOW <= d <= DECISION_PURGE
}

/// Latency of the `i`-th latch write from now: the gap between the two timer
/// samples that bracket it.
pub open spec fn write_latency(b: RegisterBlock, i: int) -> u32 {
    elapsed(b.sample(2 * i), b.sample(2 * i + 1))
}

/// The latch registers after `d` is committed: the value in the first
/// request word, then the start strobe.
pub open spec fn latch_committed(regs: Seq<u32>, d: u8) -> Seq<u32> {
    regs.update(4, d as u32).update(8, 1)
}

/// The value that write `i` of the timing self-test commits: ALLOW, DENY and
/// PURGE in turn.
pub open spec fn cycle_decision(i: int) -> u8 {
    (i % 3 + 1) as u8
}

/// Latch write latencies seen so far.
#[derive(Debug, Clone, Copy, PartialEq, Eq, Structural)]
pub struct TimingStats {
    /// Smallest latency seen; 0 before the first write.
    pub min_latency_ns: u32,
    /// Largest latency seen.
    pub max_latency_ns: u32,
    /// Running mean of the latencies, rounded down at each step.
    pub avg_latency_ns: u32,
    /// Number of writes counted; it stops at `u32::MAX`.
    pub decision_count: u32,
}

/// The statistics after one more write of latency `l`.
pub open spec fn stats_after(s: TimingStats, l: u32) -> TimingStats {
    let grows = s.decision_count < u32::MAX;
    TimingStats {
        min_latency_ns: if s.min_latency_ns == 0 || l < s.min_latency_ns {
            l
        } else {
            s.min_latency_ns
        },
        max_latency_ns: if l > s.max_latency_ns {
            l
        } else {
            s.max_latency_ns
        },
        avg_latency_ns: if grows {
            ((s.avg_latency_ns * s.decision_count + l) / (s.decision_count + 1)) as u32
        } else {
            s.avg_latency_ns
        },
        decision_count: if grows {
            (s.decision_count + 1) as u32
        } else {
            s.decision_count
        },
    }
}

/// Timing-bounded decision latch (ALLOW, DENY or PURGE).
pub struct OpticGate {
    regs: RegisterBlock,
    last_decision: Option<u8>,
    timing_stats: TimingStats,
}

impl OpticGate {
    pub closed spec fn device(&self) -> RegisterBlock {
        self.regs
    }

    /// The last value committed to the latch.
    pub closed spec fn last(&self) -> Option<u8> {
        self.last_decision
    }

    pub closed spec fn stats(&self) -> TimingStats {
        self.timing_stats
    }

    pub closed spec fn wf(&self) -> bool {
        self.regs.wf()
    }

    /// Takes the device over after checking its signature.
    pub fn initialize(regs: RegisterBlock) -> (r: Result<Self, BootError>)
        requires
            regs.wf(),
        ensures
            r is Ok <==> regs.reg(0) == GATE_SIGNATURE,
            r is Ok ==> {
                let g = r->Ok_0;
                &&& g.wf()
                &&& g.device() == regs
                &&& g.last() is None
                &&& g.stats() == TimingStats {
                    min_latency_ns: 0,
                    max_latency_ns: 0,
                    avg_latency_ns: 0,
                    decision_count: 0,
                }
            },
            r is Err ==> r == Err::<Self, BootError>(BootError::HardwareTestFailed),
    {
        let gate = OpticGate {
            regs,
            last_decision: None,
            timing_stats: TimingStats {
                min_latency_ns: 0,
                max_latency_ns: 0,
                avg_latency_ns: 0,
                decision_count: 0,
            },
        };
        if !gate.verify_hardware_presence() {
            return Err(BootError::HardwareTestFailed);
        }
        gate.calibrate_timing()?;
        Ok(gate)
    }

    /// The last value committed to the latch.
    pub fn last_decision(&self) -> (r: Option<u8>)
        ensures
            r == self.last(),
    {
        self.last_decision
    }

    /// The latency statistics.
    pub fn timing_stats(&self) -> (r: TimingStats)
        ensures
            r == self.stats(),
    {
        self.timing_stats
    }

    /// What one `write_decision(d)` does, from state `pre` to state `post`
    /// with result `r`.
    pub open spec fn write_post(pre: OpticGate, d: u8, post: OpticGate, r: Result<(), HardwareError>) -> bool {
        &&& post.wf()
        &&& post.device().base() == pre.device().base()
        &&& if !valid_decision(d) {
            &&& r == Err::<(), HardwareError>(HardwareError::IntegrityFailed)
            &&& post == pre
        } else {
            let latency = write_latency(pre.device(), 0);
            &&& post.last() == Some(d)
            &&& post.device().regs() == latch_committed(pre.device().regs(), d)
            &&& post.stats() == stats_after(pre.stats(), latency)
            &&& forall|k: int|
                0 <= k ==> #[trigger] post.device().sample(k) == pre.device().sample(k + 2)
            &&& r == if latency > LATCH_LATENCY_BOUND_NS {
                Err::<(), HardwareError>(HardwareError::TimingViolation)
            } else {
                Ok(())
            }
        }
    }

    /// Commits `decision` and measures the write's latency. A write later
    /// than `LATCH_LATENCY_BOUND_NS` is still committed, and is reported as
    /// `TimingViolation`.
    pub fn write_decision(&mut self, decision: u8) -> (r: Result<(), HardwareError>)
        requires
            old(self).wf(),
        ensures
            Self::write_post(*old(self), decision, *final(self), r),
    {
        if decision < DECISION_ALLOW || decision > DECISION_PURGE {
            return Err(HardwareError::IntegrityFailed);
        }
        let ghost d0 = self.device();
        let start_time = self.get_nanoseconds();
        let ghost d1 = self.device();
        self.regs.write(REG_REQUEST, decision as u32);
        self.regs.write(REG_START, 1);
        let ghost d2 = self.device();
        assert forall|k: int| 0 <= k implies #[trigger] d2.sample(k) == d0.sample(k + 1) by {
            assert(d1.sample(k) == d0.sample(k + 1));
        }
        let end_time = self.get_nanoseconds();
        assert forall|k: int| 0 <= k implies #[trigger] self.device().sample(k) == d0.sample(
            k + 2,
        ) by {
            assert(d2.sample(k + 1) == d0.sample(k + 2));
        }
        assert(end_time == d0.sample(1)) by {
            assert(d2.sample(0) == d0.sample(1));
        }
        let latency = end_time.saturating_sub(start_time);
        self.update_timing_stats(latency);
        self.last_decision = Some(decision);
        if latency > LATCH_LATENCY_BOUND_NS {
            return Err(HardwareError::TimingViolation);
        }
        Ok(())
    }

    /// Cycles `TIMING_TEST_WRITES` writes through ALLOW, DENY and PURGE and
    /// fails if any of them is later than `LATCH_LATENCY_BOUND_NS`.
    pub fn timing_test(&mut self) -> (r: Result<(), BootError>)
        requires
            old(self).wf(),
        ensures
            final(self).wf(),
            final(self).device().base() == old(self).device().base(),
            r is Err ==> r == Err::<(), BootError>(BootError::HardwareTestFailed),
            r is Ok <==> forall|i: int|
                0 <= i < TIMING_TEST_WRITES ==> #[trigger] write_latency(old(self).device(), i)
                    <= LATCH_LATENCY_BOUND_NS,
            r is Ok ==> {
                &&& final(self).last() == Some(DECISION_ALLOW)
                &&& final(self).device().regs() == latch_committed(
                    old(self).device().regs(),
                    DECISION_ALLOW,
                )
            },
            r is Err ==> exists|i: int|
                0 <= i < TIMING_TEST_WRITES && #[trigger] write_latency(old(self).device(), i)
                    > LATCH_LATENCY_BOUND_NS && final(self).last() == Some(cycle_decision(i))
                    && final(self).device().regs() == latch_committed(
                    old(self).device().regs(),
                    cycle_decision(i),
                ),
    {
        for i in 0..TIMING_TEST_WRITES
            invariant
                self.wf(),
                old(self).wf(),
                self.device().base() == old(self).device().base(),
                forall|q: int|
                    0 <= q ==> #[trigger] self.device().sample(q) == old(self).device().sample(
                        q + 2 * i,
                    ),
                forall|j: int|
                    0 <= j < i ==> #[trigger] write_latency(old(self).device(), j)
                        <= LATCH_LATENCY_BOUND_NS,
                i == 0 ==> self.device().regs() == old(self).device().regs(),
                i > 0 ==> self.last() == Some(cycle_decision(i - 1)) && self.device().regs()
                    == latch_committed(old(self).device().regs(), cycle_decision(i - 1)),
        {
            let decision = ((i % 3) + 1) as u8;
            assert(decision == cycle_decision(i as int));
            let ghost prev = self.device();
            proof {
                assert(write_latency(prev, 0) == write_latency(old(self).device(), i as int));
            }
            let result = self.write_decision(decision);
            proof {
                assert(latch_committed(prev.regs(), decision) =~= latch_committed(
                    old(self).device().regs(),
                    decision,
                ));
            }
            match result {
                Ok(()) => {},
                Err(_) => {
                    return Err(BootError::HardwareTestFailed);
                },
            }
            assert forall|q: int| 0 <= q implies #[trigger] self.device().sample(q)
                == old(self).device().sample(q + 2 * (i + 1)) by {
                assert(prev.sample(q + 2) == old(self).device().sample(q + 2 + 2 * i));
            }
        }
        assert(cycle_decision(999) == DECISION_ALLOW);
        Ok(())
    }

    fn verify_hardware_presence(&self) -> (r: bool)
        requires
            self.wf(),
        ensures
            r == (self.device().reg(0) == GATE_SIGNATURE),
    {
        signature_matches(&self.regs, GATE_SIGNATURE)
    }

    fn calibrate_timing(&self) -> (r: Result<(), BootError>)
        ensures
            r is Ok,
    {
        Ok(())
    }

    fn get_nanoseconds(&mut self) -> (r: u32)
        requires
            old(self).wf(),
        ensures
            final(self).wf(),
            final(self).last() == old(self).last(),
            final(self).stats() == old(self).stats(),
            final(self).device().base() == old(self).device().base(),
            final(self).device().regs() == old(self).device().regs(),
            r == old(self).device().sample(0),
            forall|k: int|
                0 <= k ==> #[trigger] final(self).device().sample(k) == old(self).device().sample(
                    k + 1,
                ),
    {
        self.regs.read_timer()
    }

    fn update_timing_stats(&mut self, latency: u32)
        ensures
            final(self).stats() == stats_after(old(self).stats(), latency),
            final(self).last() == old(self).last(),
            final(self).device() == old(self).device(),
    {
        let s = self.timing_stats;
        let min_latency_ns = if s.min_latency_ns == 0 || latency < s.min_latency_ns {
            latency
        } else {
            s.min_latency_ns
        };
        let max_latency_ns = if latency > s.max_latency_ns {
            latency
        } else {
            s.max_latency_ns
        };
        let (avg_latency_ns, decision_count) = if s.decision_count < u32::MAX {
            let n = s.decision_count as u64;
            let a = s.avg_latency_ns as u64;
            proof {
                assert(a * n <= 0xffff_ffff * 0xffff_fffe) by (nonlinear_arith)
                    requires
                        a <= 0xffff_ffff,
                        n <= 0xffff_fffe,
                ;
                assert(a * n + latency < 0x1_0000_0000 * (n + 1)) by (nonlinear_arith)
                    requires
                        a <= 0xffff_ffff,
                        latency <= 0xffff_ffff,
                        n >= 0,
                ;
                lemma_rate_floor(a * n + latency, n + 1, 0x1_0000_0000);
            }
            let total = a * n + latency as u64;
            ((total / (n + 1)) as u32, s.decision_count + 1)
        } else {
            (s.avg_latency_ns, s.decision_count)
        };
        self.timing_stats = TimingStats {
            min_latency_ns,
            max_latency_ns,
            avg_latency_ns,
            decision_count,
        };
    }
}

/// Registers cleared by a compute-core wipe.
pub const COMPUTE_SCRATCH_WORDS: usize = 64;

/// Bytes that one compute request carries: the four request words.
pub const COMPUTE_REQUEST_BYTES: usize = 16;

/// First of the four words where the core leaves its output.
pub const REG_COMPUTE_OUTPUT: usize = 0x40;

/// A compute request padded with zero bytes to the full request window.
pub open spec fn padded_request(data: Seq<u8>) -> Seq<u8> {
    data + Seq::new((COMPUTE_REQUEST_BYTES - data.len()) as nat, |i: int| 0u8)
}

/// The registers after a compute request is issued: the padded request as
/// four little-endian words, then the start strobe.
pub open spec fn issue_compute(regs: Seq<u32>, data: Seq<u8>) -> Seq<u32> {
    issue_challenge(regs, padded_request(data))
}

/// The first `n` bytes of the core's four output words, little-endian.
pub open spec fn compute_output(b: RegisterBlock, n: int) -> Seq<u8> {
    words_le_bytes(b.regs().subrange(16, 20)).subrange(0, n)
}

/// Hybrid compute core.
pub struct TriComputeCore {
    regs: RegisterBlock,
}

/// The compute lanes agree: their three result words are equal.
pub open spec fn lanes_agree(b: RegisterBlock) -> bool {
    b.regs()[12] == b.regs()[13] && b.regs()[13] == b.regs()[14]
}

impl TriComputeCore {
    pub closed spec fn device(&self) -> RegisterBlock {
        self.regs
    }

    pub closed spec fn wf(&self) -> bool {
        self.regs.wf()
    }

    /// Takes the device over after checking its signature.
    pub fn initialize(regs: RegisterBlock) -> (r: Result<Self, BootError>)
        requires
            regs.wf(),
        ensures
            r is Ok <==> regs.reg(0) == COMPUTE_SIGNATURE,
            r is Ok ==> r->Ok_0.wf() && r->Ok_0.device() == regs,
            r is Err ==> r == Err::<Self, BootError>(BootError::HardwareTestFailed),
    {
        let core = TriComputeCore { regs };
        core.verify_all_cores()?;
        Ok(core)
    }

    /// The device's registers.
    pub fn registers(&self) -> (r: &RegisterBlock)
        ensures
            *r == self.device(),
    {
        &self.regs
    }

    /// What one `execute(data)` does, from state `pre` to state `post` with
    /// result `r`.
    pub open spec fn execute_post(
        pre: TriComputeCore,
        data: Seq<u8>,
        post: TriComputeCore,
        r: Result<Vec<u8>, HardwareError>,
    ) -> bool {
        &&& post.wf()
        &&& if data.len() > COMPUTE_REQUEST_BYTES {
            &&& r == Err::<Vec<u8>, HardwareError>(HardwareError::IntegrityFailed)
            &&& post == pre
        } else {
            &&& post.device().base() == pre.device().base()
            &&& post.device().timer_samples() == pre.device().timer_samples()
            &&& post.device().regs() == issue_compute(pre.device().regs(), data)
            &&& if completion_ready(pre.device()) {
                r is Ok && r->Ok_0@ == compute_output(pre.device(), data.len() as int)
            } else {
                r == Err::<Vec<u8>, HardwareError>(HardwareError::Timeout)
            }
        }
    }

    /// Hands `data` to the core as four little-endian request words (zero
    /// padded), strobes it, waits for completion and returns as many output
    /// bytes as `data` holds.
    pub fn execute(&mut self, data: &[u8]) -> (r: Result<Vec<u8>, HardwareError>)
        requires
            old(self).wf(),
        ensures
            Self::execute_post(*old(self), data@, *final(self), r),
    {
        let n = data.len();
        if n > COMPUTE_REQUEST_BYTES {
            return Err(HardwareError::IntegrityFailed);
        }
        let mut padded = [0u8; 16];
        for i in 0..16
            invariant
                n == data@.len(),
                n <= COMPUTE_REQUEST_BYTES,
                forall|j: int| 0 <= j < i ==> #[trigger] padded@[j] == padded_request(data@)[j],
        {
            padded[i] = if i < n {
                data[i]
            } else {
                0
            };
        }
        assert(padded@ =~= padded_request(data@));
        let ghost old_regs = self.regs.regs();
        for j in 0..4
            invariant
                self.wf(),
                old(self).wf(),
                padded@ == padded_request(data@),
                self.device().base() == old(self).device().base(),
                self.device().timer_samples() == old(self).device().timer_samples(),
                old_regs == old(self).device().regs(),
                self.device().regs().len() == old_regs.len(),
                forall|k: int|
                    0 <= k < old_regs.len() ==> #[trigger] self.device().regs()[k] == if 4 <= k < 4
                        + j {
                        le_word(padded_request(data@), k - 4)
                    } else {
                        old_regs[k]
                    },
        {
            let word = salt_word(&padded, j);
            self.regs.write(REG_REQUEST + 4 * j, word);
        }
        self.regs.write(REG_START, 1);
        assert(self.device().regs() =~= issue_compute(old_regs, data@));
        if wait_for_completion(&self.regs).is_err() {
            return Err(HardwareError::Timeout);
        }
        let mut out: Vec<u8> = Vec::new();
        for i in 0..n
            invariant
                self.wf(),
                old(self).wf(),
                n == data@.len(),
                n <= COMPUTE_REQUEST_BYTES,
                self.device().regs() == issue_compute(old_regs, data@),
                old_regs == old(self).device().regs(),
                out@.len() == i,
                forall|k: int|
                    0 <= k < i ==> #[trigger] out@[k] == words_le_bytes(
                        old(self).device().regs().subrange(16, 20),
                    )[k],
        {
            let b = register_byte(&self.regs, REG_COMPUTE_OUTPUT / 4 + i / 4, i % 4);
            out.push(b);
        }
        assert(out@ =~= compute_output(old(self).device(), n as int));
        Ok(out)
    }

    /// Cross-checks that the compute lanes agree.
    pub fn integrity_test(&mut self) -> (r: Result<(), BootError>)
        requires
            old(self).wf(),
        ensures
            *final(self) == *old(self),
            r == if lanes_agree(old(self).device()) {
                Ok::<(), BootError>(())
            } else {
                Err(BootError::HardwareTestFailed)
            },
    {
        let lane0 = self.regs.read(REG_RESULT);
        let lane1 = self.regs.read(REG_RESULT + 4);
        let lane2 = self.regs.read(REG_RESULT + 8);
        if lane0 == lane1 && lane1 == lane2 {
            Ok(())
        } else {
            Err(BootError::HardwareTestFailed)
        }
    }

    /// Clears the core's working registers.
    pub fn emergency_zeroize(&mut self)
        requires
            old(self).wf(),
        ensures
            final(self).wf(),
            final(self).device().base() == old(self).device().base(),
            forall|j: int| 0 <= j < COMPUTE_SCRATCH_WORDS ==> #[trigger] final(self).device().regs()[j] == 0,
            forall|j: int|
                COMPUTE_SCRATCH_WORDS <= j < crate::mmio::REGISTER_WORDS
                    ==> #[trigger] final(self).device().regs()[j] == old(self).device().regs()[j],
    {
        for w in 0..COMPUTE_SCRATCH_WORDS
            invariant
                self.wf(),
                old(self).wf(),
                self.device().base() == old(self).device().base(),
                forall|j: int| 0 <= j < w ==> #[trigger] self.device().regs()[j] == 0,
                forall|j: int|
                    w <= j < crate::mmio::REGISTER_WORDS ==> #[trigger] self.device().regs()[j]
                        == old(self).device().regs()[j],
        {
            self.regs.write(4 * w, 0);
        }
    }

    fn verify_all_cores(&self) -> (r: Result<(), BootError>)
        requires
            self.wf(),
        ensures
            r == if self.device().reg(0) == COMPUTE_SIGNATURE {
                Ok::<(), BootError>(())
            } else {
                Err(BootError::HardwareTestFailed)
            },
    {
        if !signature_matches(&self.regs, COMPUTE_SIGNATURE) {
            return Err(BootError::HardwareTestFailed);
        }
        Ok(())
    }
}

/// Number of continuity fuses in the mesh.
pub const FUSE_COUNT: usize = 32;

/// Fuse `i` reads closed: bit 0 of its register is set.
pub open spec fn fuse_closed(b: RegisterBlock, i: int) -> bool {
    b.regs()[12 + i] & 1 != 0
}

/// Anti-tamper fuse mesh of `FUSE_COUNT` one-way continuity fuses.
pub struct TripFuse {
    regs: RegisterBlock,
    fuse_states: [bool; 32],
}

impl TripFuse {
    pub closed spec fn device(&self) -> RegisterBlock {
        self.regs
    }

    /// The continuity of each fuse, as last read.
    pub closed spec fn states(&self) -> Seq<bool> {
        self.fuse_states@
    }

    pub closed spec fn wf(&self) -> bool {
        self.regs.wf()
    }

    /// Takes the device over after checking its signature, and reads every
    /// fuse.
    pub fn initialize(regs: RegisterBlock) -> (r: Result<Self, BootError>)
        requires
            regs.wf(),
        ensures
            r is Ok <==> regs.reg(0) == FUSE_SIGNATURE,
            r is Ok ==> {
                let f = r->Ok_0;
                &&& f.wf()
                &&& f.device() == regs
                &&& forall|i: int| 0 <= i < FUSE_COUNT ==> #[trigger] f.states()[i] == fuse_closed(regs, i)
            },
            r is Err ==> r == Err::<Self, BootError>(BootError::HardwareTestFailed),
    {
        let mut fuse = TripFuse { regs, fuse_states: [true; 32] };
        if !signature_matches(&fuse.regs, FUSE_SIGNATURE) {
            return Err(BootError::HardwareTestFailed);
        }
        fuse.read_fuse_states();
        Ok(fuse)
    }

    /// The continuity of each fuse, as last read.
    pub fn fuse_states(&self) -> (r: [bool; 32])
        ensures
            r@ == self.states(),
    {
        self.fuse_states
    }

    /// Re-reads every fuse and fails if any reads open.
    pub fn continuity_test(&mut self) -> (r: Result<(), BootError>)
        requires
            old(self).wf(),
        ensures
            final(self).wf(),
            final(self).device() == old(self).device(),
            forall|i: int| 0 <= i < FUSE_COUNT ==> #[trigger] final(self).states()[i] == fuse_closed(old(self).device(), i),
            r is Err ==> r == Err::<(), BootError>(BootError::HardwareTestFailed),
            r is Ok <==> forall|i: int| 0 <= i < FUSE_COUNT ==> #[trigger] fuse_closed(old(self).device(), i),
    {
        self.read_fuse_states();
        for i in 0..FUSE_COUNT
            invariant
                self.wf(),
                self.device() == old(self).device(),
                forall|j: int| 0 <= j < FUSE_COUNT ==> #[trigger] self.states()[j] == fuse_closed(old(self).device(), j),
                forall|j: int| 0 <= j < i ==> #[trigger] fuse_closed(old(self).device(), j),
        {
            assert(self.states()[i as int] == fuse_closed(old(self).device(), i as int));
            if !self.fuse_states[i] {
                return Err(BootError::HardwareTestFailed);
            }
        }
        Ok(())
    }

    fn read_fuse_states(&mut self)
        requires
            old(self).wf(),
        ensures
            final(self).wf(),
            final(self).device() == old(self).device(),
            forall|i: int| 0 <= i < FUSE_COUNT ==> #[trigger] final(self).states()[i] == fuse_closed(old(self).device(), i),
    {
        let mut states = [true; 32];
        for i in 0..FUSE_COUNT
            invariant
                self.wf(),
                self.device() == old(self).device(),
                forall|j: int| 0 <= j < i ==> #[trigger] states@[j] == fuse_closed(old(self).device(), j),
        {
            let fuse_reg = self.regs.read(REG_RESULT + 4 * i);
            states[i] = fuse_reg & 1 != 0;
        }
        self.fuse_states = states;
    }
}

/// A challenge answered once is answered again, bit for bit, from the cache:
/// the second call leaves the driver and its device exactly as they were.
pub proof fn lemma_repeated_challenge_is_cached(
    first: PufHeart,
    second: PufHeart,
    third: PufHeart,
    salt: [u8; 16],
    r1: Result<[u8; 64], CryptoError>,
    r2: Result<[u8; 64], CryptoError>,
)
    requires
        PufHeart::challenge_post(first, salt, second, r1),
        r1 is Ok,
        PufHeart::challenge_post(second, salt, third, r2),
    ensures
        r2 == r1,
        third == second,
{
}

/// A salt other than the cached one, or any salt while nothing is cached,
/// never hits the cache: the device gets the salt and a start strobe.
pub proof fn lemma_new_salt_misses_cache(
    first: PufHeart,
    second: PufHeart,
    salt: [u8; 16],
    r: Result<[u8; 64], CryptoError>,
)
    requires
        first.cache() is Some ==> first.cache()->Some_0.0@ != salt@,
        PufHeart::challenge_post(first, salt, second, r),
    ensures
        second.device().regs() == issue_challenge(first.device().regs(), salt@),
        r is Ok ==> r->Ok_0@ == challenge_response(first.device()),
{
}

} // verus!
