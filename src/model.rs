use vstd::prelude::*;

verus! {

/// First key of the unlock sequence.
pub const KEY1: u32 = 0x4567_0123;
/// Second key of the unlock sequence.
pub const KEY2: u32 = 0xCDEF_89AB;

/// Abstract state of the flash controller and of the array behind it.
pub struct FlashModel {
    /// Contents of the array, by offset from `origin`.
    pub mem: Seq<u8>,
    /// Physical address of the first byte of the array.
    pub origin: nat,
    /// What an erased word reads as.
    pub erased: u32,
    /// Bytes cleared by one sector (or 32-word block) erase.
    pub sector_size: nat,
    /// Lock bit of normal program mode.
    pub locked: bool,
    /// Lock bit of fast (buffered) program mode.
    pub fast_locked: bool,
    /// The first key was the last value written to the normal key register.
    pub key_armed: bool,
    /// The first key was the last value written to the fast-mode key register.
    pub fast_key_armed: bool,
    pub sector_erase: bool,
    pub block_erase: bool,
    pub mass_erase: bool,
    pub page_program: bool,
    /// The address register.
    pub address: u32,
    /// The write buffer, by array offset: `Some` where a byte was loaded.
    pub buf: Seq<Option<u8>>,
    /// Status reads left before the current operation completes.
    pub pending: nat,
    /// Status reads an operation takes to complete.
    pub latency: nat,
    /// End-of-operation flag.
    pub eop: bool,
    /// Write-protection error flag.
    pub wrprterr: bool,
    /// The array refuses every erase and program (write protection).
    pub protected: bool,
    /// Commits are lost: reads keep returning the previous contents.
    pub stale: bool,
}

/// One read of the status register.
#[derive(Clone, Copy, Debug, PartialEq, Eq, Structural)]
pub struct Status {
    pub busy: bool,
    pub write_busy: bool,
    pub eop: bool,
    pub protection_error: bool,
    /// The raw register bits.
    pub bits: u32,
}

/// The key registers.
#[derive(Clone, Copy, Debug, PartialEq, Eq, Structural)]
pub enum KeyBank {
    Normal,
    Fast,
}

/// Mode bits of the control register.
#[derive(Clone, Copy, Debug, PartialEq, Eq, Structural)]
pub enum ControlBit {
    SectorErase,
    BlockErase32,
    MassErase,
    PageProgram,
}

/// Self-clearing action bits of the control register.
#[derive(Clone, Copy, Debug, PartialEq, Eq, Structural)]
pub enum Trigger {
    /// Start the operation selected by the mode bits.
    Start,
    /// Start committing the write buffer (page-start bit).
    PageStart,
    /// Clear the write buffer.
    BufferReset,
    /// Latch the last written word into the write buffer.
    BufferLoad,
}

/// Little-endian word of four bytes.
pub open spec fn le_word(b0: u8, b1: u8, b2: u8, b3: u8) -> u32 {
    (b0 as u32) | ((b1 as u32) << 8u32) | ((b2 as u32) << 16u32) | ((b3 as u32) << 24u32)
}

/// Packs four bytes into a little-endian word.
pub fn pack_word(b0: u8, b1: u8, b2: u8, b3: u8) -> (r: u32)
    ensures
        r == le_word(b0, b1, b2, b3),
{
    (b0 as u32) | ((b1 as u32) << 8u32) | ((b2 as u32) << 16u32) | ((b3 as u32) << 24u32)
}

/// Byte `k` (0 to 3, least significant first) of a word.
pub open spec fn word_byte(w: u32, k: u32) -> u8 {
    ((w >> (8u32 * k)) & 0xffu32) as u8
}

/// Byte `k` (0 to 3) of a word.
pub fn unpack_byte(w: u32, k: u32) -> (r: u8)
    requires
        k < 4,
    ensures
        r == word_byte(w, k),
{
    ((w >> (8u32 * k)) & 0xffu32) as u8
}

/// The word stored at byte offset `off` of `s`.
pub open spec fn word_at(s: Seq<u8>, off: int) -> u32 {
    le_word(s[off], s[off + 1], s[off + 2], s[off + 3])
}

pub proof fn lemma_word_bytes(b0: u8, b1: u8, b2: u8, b3: u8)
    ensures
        word_byte(le_word(b0, b1, b2, b3), 0) == b0,
        word_byte(le_word(b0, b1, b2, b3), 1) == b1,
        word_byte(le_word(b0, b1, b2, b3), 2) == b2,
        word_byte(le_word(b0, b1, b2, b3), 3) == b3,
{
    assert(((((b0 as u32) | ((b1 as u32) << 8u32) | ((b2 as u32) << 16u32) | ((b3 as u32)
        << 24u32)) >> 0u32) & 0xffu32) as u8 == b0) by (bit_vector);
    assert(((((b0 as u32) | ((b1 as u32) << 8u32) | ((b2 as u32) << 16u32) | ((b3 as u32)
        << 24u32)) >> 8u32) & 0xffu32) as u8 == b1) by (bit_vector);
    assert(((((b0 as u32) | ((b1 as u32) << 8u32) | ((b2 as u32) << 16u32) | ((b3 as u32)
        << 24u32)) >> 16u32) & 0xffu32) as u8 == b2) by (bit_vector);
    assert(((((b0 as u32) | ((b1 as u32) << 8u32) | ((b2 as u32) << 16u32) | ((b3 as u32)
        << 24u32)) >> 24u32) & 0xffu32) as u8 == b3) by (bit_vector);
}

/// Equal words are made of equal bytes.
pub proof fn lemma_word_injective(s: Seq<u8>, i: int, t: Seq<u8>, j: int)
    requires
        word_at(s, i) == word_at(t, j),
    ensures
        s[i] == t[j],
        s[i + 1] == t[j + 1],
        s[i + 2] == t[j + 2],
        s[i + 3] == t[j + 3],
{
    lemma_word_bytes(s[i], s[i + 1], s[i + 2], s[i + 3]);
    lemma_word_bytes(t[j], t[j + 1], t[j + 2], t[j + 3]);
}

/// `s` with the bytes from `off` on replaced by `data`.
pub open spec fn splice(s: Seq<u8>, off: int, data: Seq<u8>) -> Seq<u8> {
    Seq::new(
        s.len(),
        |k: int|
            if off <= k < off + data.len() {
                data[k - off]
            } else {
                s[k]
            },
    )
}

/// `s` with `len` bytes from `start` on erased to words reading `w`.
pub open spec fn fill(s: Seq<u8>, start: int, len: int, w: u32) -> Seq<u8> {
    Seq::new(s.len(), |k: int| if start <= k < start + len { erased_byte(w, k) } else { s[k] })
}

/// The byte at array offset `k` of an array whose words all read `w`.
pub open spec fn erased_byte(w: u32, k: int) -> u8 {
    word_byte(w, (k % 4) as u32)
}

/// `s` with each byte for which the buffer holds a value replaced by it.
pub open spec fn commit(s: Seq<u8>, buf: Seq<Option<u8>>) -> Seq<u8> {
    Seq::new(
        s.len(),
        |k: int|
            if k < buf.len() {
                match buf[k] {
                    Some(b) => b,
                    None => s[k],
                }
            } else {
                s[k]
            },
    )
}

pub open spec fn status_bits(busy: bool, wrprterr: bool, eop: bool) -> u32 {
    ((if busy { 0x3u32 } else { 0u32 }) + (if wrprterr { 0x10u32 } else { 0u32 }) + (if eop {
        0x20u32
    } else {
        0u32
    })) as u32
}

impl FlashModel {
    /// Offset into the array of a physical address.
    pub open spec fn offset(self, phys: u32) -> int {
        phys - self.origin
    }

    /// Offset into the array of the first byte of the sector holding `off`.
    pub open spec fn sector_start(self, off: int) -> int {
        if self.sector_size == 0 {
            off
        } else {
            off - off % (self.sector_size as int)
        }
    }

    pub open spec fn status(self) -> Status {
        Status {
            busy: self.pending > 0,
            write_busy: self.pending > 0,
            eop: self.eop,
            protection_error: self.wrprterr,
            bits: status_bits(self.pending > 0, self.wrprterr, self.eop),
        }
    }

    /// The state after `n` reads of the status register.
    pub open spec fn polled(self, n: nat) -> FlashModel {
        FlashModel {
            pending: if n >= self.pending { 0 } else { (self.pending - n) as nat },
            eop: if self.pending > 0 && n >= self.pending { true } else { self.eop },
            ..self
        }
    }

    pub open spec fn key_written(self, bank: KeyBank, key: u32) -> FlashModel {
        match bank {
            KeyBank::Normal => if key == KEY1 {
                FlashModel { key_armed: true, ..self }
            } else if self.key_armed && key == KEY2 {
                FlashModel { key_armed: false, locked: false, ..self }
            } else {
                FlashModel { key_armed: false, ..self }
            },
            KeyBank::Fast => if key == KEY1 {
                FlashModel { fast_key_armed: true, ..self }
            } else if self.fast_key_armed && key == KEY2 {
                FlashModel { fast_key_armed: false, fast_locked: false, ..self }
            } else {
                FlashModel { fast_key_armed: false, ..self }
            },
        }
    }

    pub open spec fn control_set(self, bit: ControlBit, on: bool) -> FlashModel {
        match bit {
            ControlBit::SectorErase => FlashModel { sector_erase: on, ..self },
            ControlBit::BlockErase32 => FlashModel { block_erase: on, ..self },
            ControlBit::MassErase => FlashModel { mass_erase: on, ..self },
            ControlBit::PageProgram => FlashModel { page_program: on, ..self },
        }
    }

    /// A new hardware operation begins: busy for `latency` status reads.
    pub open spec fn begun(self) -> FlashModel {
        FlashModel { pending: self.latency, eop: false, ..self }
    }

    /// Effect on the array of starting the operation the mode bits select.
    pub open spec fn operation_result(self) -> FlashModel {
        if self.locked || !(self.mass_erase || self.sector_erase || self.block_erase
            || self.page_program) {
            self
        } else if self.protected {
            FlashModel { wrprterr: true, ..self }
        } else if self.mass_erase {
            FlashModel { mem: fill(self.mem, 0, self.mem.len() as int, self.erased), ..self }
        } else if self.sector_erase || self.block_erase {
            let off = self.offset(self.address);
            if 0 <= off < self.mem.len() {
                FlashModel {
                    mem: fill(self.mem, self.sector_start(off), self.sector_size as int, self.erased),
                    ..self
                }
            } else {
                self
            }
        } else if self.stale {
            self
        } else {
            FlashModel { mem: commit(self.mem, self.buf), ..self }
        }
    }

    pub open spec fn triggered(self, t: Trigger) -> FlashModel {
        match t {
            Trigger::Start | Trigger::PageStart => self.operation_result().begun(),
            Trigger::BufferReset => FlashModel {
                buf: Seq::new(self.buf.len(), |k: int| None),
                ..self
            }.begun(),
            Trigger::BufferLoad => self.begun(),
        }
    }

    /// A word written to physical address `phys` while programming goes to
    /// the write buffer.
    pub open spec fn word_written(self, phys: u32, w: u32) -> FlashModel {
        let off = self.offset(phys);
        FlashModel {
            buf: self.buf.update(off, Some(word_byte(w, 0))).update(
                off + 1,
                Some(word_byte(w, 1)),
            ).update(off + 2, Some(word_byte(w, 2))).update(off + 3, Some(word_byte(w, 3))),
            ..self
        }.begun()
    }

    /// A physical word address inside the array.
    pub open spec fn word_in_range(self, phys: u32) -> bool {
        let off = self.offset(phys);
        0 <= off && off + 4 <= self.mem.len() && off % 4 == 0
    }
}

/// Read and write access to the flash controller's registers and to the
/// array. The contracts describe the controller through `model`.
pub trait FlashRegisters {
    spec fn model(&self) -> FlashModel;

    /// Writes `key` to the key register of `bank`.
    fn write_key(&mut self, bank: KeyBank, key: u32)
        ensures
            final(self).model() == old(self).model().key_written(bank, key),
    ;

    /// Reads the lock bit of normal program mode.
    fn is_locked(&self) -> (r: bool)
        ensures
            r == self.model().locked,
    ;

    /// Reads the lock bit of fast program mode.
    fn is_fast_locked(&self) -> (r: bool)
        ensures
            r == self.model().fast_locked,
    ;

    /// Sets or clears one mode bit of the control register.
    fn set_control(&mut self, bit: ControlBit, on: bool)
        ensures
            final(self).model() == old(self).model().control_set(bit, on),
    ;

    /// Sets a self-clearing action bit of the control register.
    fn trigger(&mut self, t: Trigger)
        ensures
            final(self).model() == old(self).model().triggered(t),
    ;

    /// Writes the address register.
    fn write_address(&mut self, addr: u32)
        ensures
            final(self).model() == (FlashModel { address: addr, ..old(self).model() }),
    ;

    /// Writes one word to a physical address of the array.
    fn write_word(&mut self, phys: u32, w: u32)
        requires
            old(self).model().word_in_range(phys),
            old(self).model().buf.len() == old(self).model().mem.len(),
        ensures
            final(self).model() == old(self).model().word_written(phys, w),
    ;

    /// Reads one word at a physical address of the array.
    fn read_word(&self, phys: u32) -> (r: u32)
        requires
            self.model().word_in_range(phys),
        ensures
            r == word_at(self.model().mem, self.model().offset(phys)),
    ;

    /// Reads the status register.
    fn read_status(&mut self) -> (r: Status)
        ensures
            r == old(self).model().status(),
            final(self).model() == old(self).model().polled(1),
    ;

    /// Clears the end-of-operation flag.
    fn clear_eop(&mut self)
        ensures
            final(self).model() == (FlashModel { eop: false, ..old(self).model() }),
    ;

    /// Sets both lock bits.
    fn lock(&mut self)
        ensures
            final(self).model() == (FlashModel {
                locked: true,
                fast_locked: true,
                ..old(self).model()
            }),
    ;
}

} // verus!
