//! Typed register-block interface for memory-mapped devices.
//!
//! Every device owns one `RegisterBlock`: a window of 32-bit registers at
//! word-aligned byte offsets, plus a free-running timer whose successive
//! samples are what the device's clock yields. The block is backed by host
//! memory, so drivers can be exercised without touching real hardware.
use vstd::prelude::*;

verus! {

/// Number of 32-bit registers in one device window.
pub const REGISTER_WORDS: usize = 128;

/// Offset of the read-only class signature.
pub const REG_SIGNATURE: usize = 0x00;

/// Offset of the status register; bit 0 reports completion.
pub const REG_STATUS: usize = 0x04;

/// First request word.
pub const REG_REQUEST: usize = 0x10;

/// Start strobe.
pub const REG_START: usize = 0x20;

/// Re-seed strobe.
pub const REG_RESEED: usize = 0x24;

/// First result word.
pub const REG_RESULT: usize = 0x30;

/// First word of the re-seed output.
pub const REG_SEED: usize = 0x70;

/// Whether `offset` names a register of the window.
pub open spec fn valid_offset(offset: int) -> bool {
    0 <= offset && offset % 4 == 0 && offset / 4 < REGISTER_WORDS
}

/// Byte `k` (little-endian order) of the word `w`.
pub open spec fn word_byte(w: u32, k: int) -> u8 {
    ((w >> ((8 * k) as u32)) & 0xff) as u8
}

/// The little-endian bytes of a sequence of words.
pub open spec fn words_le_bytes(words: Seq<u32>) -> Seq<u8> {
    Seq::new(4 * words.len(), |i: int| word_byte(words[i / 4], i % 4))
}

/// The word whose little-endian bytes are `b[4 * j .. 4 * j + 4]`.
pub open spec fn le_word(b: Seq<u8>, j: int) -> u32 {
    (b[4 * j] as u32) | ((b[4 * j + 1] as u32) << 8u32) | ((b[4 * j + 2] as u32) << 16u32) | ((
    b[4 * j + 3] as u32) << 24u32)
}

/// Bit 0 of the status register is set: the device completed its request.
pub open spec fn completion_ready(b: RegisterBlock) -> bool {
    b.reg(REG_STATUS as int) & 1 != 0
}

/// Elapsed time between two timer samples; a clock that went backwards
/// counts as no time at all.
pub open spec fn elapsed(start: u32, end: u32) -> u32 {
    if end >= start {
        (end - start) as u32
    } else {
        0
    }
}

pub struct RegisterBlock {
    base_address: usize,
    words: Vec<u32>,
    timer: Vec<u32>,
    timer_pos: usize,
}

impl RegisterBlock {
    pub closed spec fn base(&self) -> usize {
        self.base_address
    }

    /// The register file, one entry per word.
    pub closed spec fn regs(&self) -> Seq<u32> {
        self.words@
    }

    /// The timer samples still to come, the current one first.
    pub closed spec fn timer_samples(&self) -> Seq<u32> {
        if self.timer@.len() == 0 {
            Seq::empty()
        } else {
            self.timer@.subrange(self.timer_pos as int, self.timer@.len() as int)
        }
    }

    pub closed spec fn timer_ok(&self) -> bool {
        self.timer@.len() == 0 || self.timer_pos < self.timer@.len()
    }

    pub open spec fn wf(&self) -> bool {
        &&& self.regs().len() == REGISTER_WORDS
        &&& self.timer_ok()
    }

    /// The `k`-th timer sample from now. The timer holds its last sample once
    /// the samples run out, and reads zero when it never had any.
    pub open spec fn sample(&self, k: int) -> u32 {
        let s = self.timer_samples();
        if s.len() == 0 {
            0
        } else if k < s.len() {
            s[k]
        } else {
            s.last()
        }
    }

    /// What a read of `offset` yields: the register, or zero off the window.
    pub open spec fn reg(&self, offset: int) -> u32 {
        if valid_offset(offset) {
            self.regs()[offset / 4]
        } else {
            0
        }
    }

    /// A cleared window at `base_address`, with a timer that reads zero.
    pub fn new(base_address: usize) -> (r: Self)
        ensures
            r.wf(),
            r.base() == base_address,
            r.regs() == Seq::new(REGISTER_WORDS as nat, |i: int| 0u32),
            r.timer_samples().len() == 0,
    {
        let words: Vec<u32> = vec![0u32; REGISTER_WORDS];
        let r = RegisterBlock { base_address, words, timer: Vec::new(), timer_pos: 0 };
        assert(r.regs() =~= Seq::new(REGISTER_WORDS as nat, |i: int| 0u32));
        r
    }

    pub fn base_address(&self) -> (r: usize)
        ensures
            r == self.base(),
    {
        self.base_address
    }

    /// Reads the register at byte `offset`; off the window it reads zero.
    pub fn read(&self, offset: usize) -> (r: u32)
        requires
            self.wf(),
        ensures
            r == self.reg(offset as int),
    {
        if offset % 4 == 0 && offset / 4 < REGISTER_WORDS {
            self.words[offset / 4]
        } else {
            0
        }
    }

    /// Writes the register at byte `offset`; off the window nothing changes.
    pub fn write(&mut self, offset: usize, value: u32)
        requires
            old(self).wf(),
        ensures
            final(self).wf(),
            final(self).base() == old(self).base(),
            final(self).timer_samples() == old(self).timer_samples(),
            valid_offset(offset as int) ==> final(self).regs() == old(self).regs().update(
                offset as int / 4,
                value,
            ),
            !valid_offset(offset as int) ==> final(self).regs() == old(self).regs(),
    {
        if offset % 4 == 0 && offset / 4 < REGISTER_WORDS {
            self.words.set(offset / 4, value);
        }
    }

    /// Replaces the timer's samples: successive reads yield `samples` in order.
    pub fn set_timer_samples(&mut self, samples: Vec<u32>)
        requires
            old(self).wf(),
        ensures
            final(self).wf(),
            final(self).base() == old(self).base(),
            final(self).regs() == old(self).regs(),
            final(self).timer_samples() == samples@,
    {
        self.timer = samples;
        self.timer_pos = 0;
        assert(self.timer@.len() > 0 ==> self.timer@.subrange(0, self.timer@.len() as int)
            =~= self.timer@);
    }

    /// Samples the timer.
    pub fn read_timer(&mut self) -> (r: u32)
        requires
            old(self).wf(),
        ensures
            final(self).wf(),
            final(self).base() == old(self).base(),
            final(self).regs() == old(self).regs(),
            r == old(self).sample(0),
            forall|k: int| 0 <= k ==> #[trigger] final(self).sample(k) == old(self).sample(k + 1),
    {
        if self.timer.len() == 0 {
            0
        } else {
            let r = self.timer[self.timer_pos];
            if self.timer_pos + 1 < self.timer.len() {
                self.timer_pos = self.timer_pos + 1;
            }
            r
        }
    }
}

} // verus!
