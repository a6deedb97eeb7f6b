use vstd::prelude::*;
use crate::error::FlashError;
use crate::geometry::{translate_spec, CommitMode, EraseMode, PollMode, TargetConfig};
use crate::model::{
    commit, erased_byte, fill, pack_word, lemma_word_injective, splice, status_bits, word_at, ControlBit, FlashModel,
    FlashRegisters, KeyBank, Trigger, KEY1, KEY2,
};
use crate::poll::{wait, wait_state, WaitFor};

verus! {

/// The controller agrees with the target description, and no erase or
/// program mode bit is left set between operations.
pub open spec fn fits(cfg: TargetConfig, m: FlashModel) -> bool {
    &&& m.mem.len() == cfg.geometry.flash_size
    &&& m.buf.len() == m.mem.len()
    &&& m.origin == cfg.geometry.origin()
    &&& m.sector_size == cfg.geometry.sector_size
    &&& m.erased == cfg.geometry.erased_word
    &&& !m.sector_erase && !m.block_erase && !m.mass_erase && !m.page_program
}

/// No operation is in flight, no protection error is flagged or can be, and
/// operations complete within the polling budget.
pub open spec fn healthy(cfg: TargetConfig, m: FlashModel) -> bool {
    &&& m.pending == 0
    &&& !m.wrprterr
    &&& !m.protected
    &&& m.latency < cfg.poll_budget
}

/// Healthy and unlocked in both program modes.
pub open spec fn ready(cfg: TargetConfig, m: FlashModel) -> bool {
    healthy(cfg, m) && !m.locked && !m.fast_locked
}

/// What every erase and program operation leaves as it was.
pub open spec fn keeps(m: FlashModel, m2: FlashModel) -> bool {
    &&& m2.locked == m.locked
    &&& m2.fast_locked == m.fast_locked
    &&& m2.latency == m.latency
    &&& m2.protected == m.protected
    &&& m2.stale == m.stale
}

/// Array offset of the page or sector a logical address names.
pub open spec fn target_offset(cfg: TargetConfig, addr: u32) -> int {
    cfg.geometry.offset_of(crate::geometry::translate_spec(addr))
}

/// The controller after the unlock sequence.
pub open spec fn unlocked(m: FlashModel) -> FlashModel {
    FlashModel { locked: false, fast_locked: false, key_armed: false, fast_key_armed: false, ..m }
}

/// The controller after teardown.
pub open spec fn relocked(m: FlashModel) -> FlashModel {
    FlashModel { locked: true, fast_locked: true, ..m }
}

/// The error, if any, that sector erase reports before touching hardware.
pub open spec fn erase_sector_precheck(cfg: TargetConfig, m: FlashModel, addr: u32) -> Option<
    FlashError,
> {
    if !cfg.geometry.sector_ok(addr) {
        Some(FlashError::InvalidAddress)
    } else if m.locked {
        Some(FlashError::FlashLocked)
    } else {
        None
    }
}

/// The error, if any, that page programming reports before touching hardware.
pub open spec fn program_precheck(cfg: TargetConfig, m: FlashModel, addr: u32, len: nat) -> Option<
    FlashError,
> {
    if !cfg.geometry.page_ok(addr, len) {
        Some(FlashError::InvalidAddress)
    } else if m.locked || m.fast_locked {
        Some(FlashError::FlashLocked)
    } else {
        None
    }
}

/// Status bits read on the first poll after an operation that raised the
/// protection error flag.
pub open spec fn protection_status(m: FlashModel) -> u32 {
    status_bits(m.latency > 0, true, false)
}

/// What an erase reports once its command has been issued: the protection
/// flag (already raised, or raised by the protected array), else a timeout
/// when the controller is slower than the budget, else success.
pub open spec fn erase_outcome(cfg: TargetConfig, m: FlashModel) -> Result<(), FlashError> {
    if m.wrprterr || m.protected {
        Err(FlashError::ProtectionError { status: protection_status(m) })
    } else if m.latency >= cfg.poll_budget {
        Err(FlashError::Timeout)
    } else {
        Ok(())
    }
}

/// The completion condition a target waits for after an operation.
pub open spec fn op_wait_for(cfg: TargetConfig) -> WaitFor {
    match cfg.poll {
        PollMode::Busy => WaitFor::Busy,
        PollMode::BusyUntilEop => WaitFor::BusyUntilEop,
    }
}

/// The mode bit that selects sector erase on a target.
pub open spec fn erase_bit(cfg: TargetConfig) -> ControlBit {
    match cfg.erase {
        EraseMode::Sector => ControlBit::SectorErase,
        EraseMode::Block32 => ControlBit::BlockErase32,
    }
}

/// The controller after a whole-chip erase that passed its lock check.
pub open spec fn erase_all_state(cfg: TargetConfig, m: FlashModel) -> FlashModel {
    wait_state(
        m.control_set(ControlBit::MassErase, true).triggered(Trigger::Start),
        cfg.poll_budget as nat,
        op_wait_for(cfg),
    ).control_set(ControlBit::MassErase, false)
}

/// The controller after an erase of the sector at physical address `phys`
/// that passed its checks.
pub open spec fn erase_sector_state(cfg: TargetConfig, m: FlashModel, phys: u32) -> FlashModel {
    wait_state(
        FlashModel { address: phys, ..m.control_set(erase_bit(cfg), true) }.triggered(
            Trigger::Start,
        ),
        cfg.poll_budget as nat,
        op_wait_for(cfg),
    ).control_set(erase_bit(cfg), false)
}

/// What programming reports once it has passed its checks.
pub open spec fn program_outcome(cfg: TargetConfig, m: FlashModel, off: int, data: Seq<u8>) -> Result<
    (),
    FlashError,
> {
    if m.wrprterr {
        Err(FlashError::ProtectionError { status: protection_status(m) })
    } else if m.latency >= cfg.poll_budget {
        Err(FlashError::Timeout)
    } else if m.protected {
        Err(FlashError::ProtectionError { status: protection_status(m) })
    } else if m.stale && m.mem.subrange(off, off + data.len()) != data {
        Err(FlashError::VerifyFailed)
    } else {
        Ok(())
    }
}

/// The array after programming that passed its checks: the page holds the
/// data unless the commit was never issued, refused or lost.
pub open spec fn program_mem(cfg: TargetConfig, m: FlashModel, off: int, data: Seq<u8>) -> Seq<u8> {
    if m.wrprterr || m.latency >= cfg.poll_budget || m.protected || m.stale {
        m.mem
    } else {
        splice(m.mem, off, data)
    }
}

/// Contract of whole-chip erase, from state `m` to state `m2` with result `r`.
pub open spec fn erase_all_spec(
    cfg: TargetConfig,
    m: FlashModel,
    r: Result<(), FlashError>,
    m2: FlashModel,
) -> bool {
    &&& fits(cfg, m2)
    &&& keeps(m, m2)
    &&& (r == Err::<(), FlashError>(FlashError::FlashLocked) <==> m.locked)
    &&& m.locked ==> m2 == m
    &&& !m.locked ==> r == erase_outcome(cfg, m) && m2 == erase_all_state(cfg, m)
    &&& !m.locked ==> m2.mem == (if m.protected {
        m.mem
    } else {
        Seq::new(m.mem.len(), |k: int| erased_byte(cfg.geometry.erased_word, k))
    })
    &&& r is Ok ==> m2.mem == Seq::new(
        m.mem.len(),
        |k: int| erased_byte(cfg.geometry.erased_word, k),
    )
        && healthy(cfg, m2) && !m2.eop && !m2.locked
    &&& !m.locked && healthy(cfg, m) ==> r is Ok
}

/// Contract of sector erase.
pub open spec fn erase_sector_spec(
    cfg: TargetConfig,
    m: FlashModel,
    addr: u32,
    r: Result<(), FlashError>,
    m2: FlashModel,
) -> bool {
    let off = target_offset(cfg, addr);
    let erased = fill(m.mem, off, cfg.geometry.sector_size as int, cfg.geometry.erased_word);
    &&& fits(cfg, m2)
    &&& keeps(m, m2)
    &&& (r == Err::<(), FlashError>(FlashError::InvalidAddress) <==> !cfg.geometry.sector_ok(addr))
    &&& (r == Err::<(), FlashError>(FlashError::FlashLocked) <==> cfg.geometry.sector_ok(addr)
        && m.locked)
    &&& erase_sector_precheck(cfg, m, addr) is Some ==> m2 == m
    &&& erase_sector_precheck(cfg, m, addr) is None ==> r == erase_outcome(cfg, m) && m2
        == erase_sector_state(cfg, m, translate_spec(addr))
    &&& erase_sector_precheck(cfg, m, addr) is None ==> m2.address == translate_spec(addr)
        && m2.mem == (if m.protected {
        m.mem
    } else {
        erased
    })
    &&& r is Ok ==> m2.mem == erased && healthy(cfg, m2) && !m2.eop && !m2.locked
    &&& cfg.geometry.sector_ok(addr) && !m.locked && healthy(cfg, m) ==> r is Ok
}

/// Contract of page programming.
pub open spec fn program_page_spec(
    cfg: TargetConfig,
    m: FlashModel,
    addr: u32,
    data: Seq<u8>,
    r: Result<(), FlashError>,
    m2: FlashModel,
) -> bool {
    let off = target_offset(cfg, addr);
    &&& fits(cfg, m2)
    &&& keeps(m, m2)
    &&& (r == Err::<(), FlashError>(FlashError::InvalidAddress) <==> !cfg.geometry.page_ok(
        addr,
        data.len(),
    ))
    &&& (r == Err::<(), FlashError>(FlashError::FlashLocked) <==> cfg.geometry.page_ok(
        addr,
        data.len(),
    ) && (m.locked || m.fast_locked))
    &&& program_precheck(cfg, m, addr, data.len()) is Some ==> m2 == m
    &&& program_precheck(cfg, m, addr, data.len()) is None ==> r == program_outcome(
        cfg,
        m,
        off,
        data,
    ) && m2.mem == program_mem(cfg, m, off, data)
    &&& r is Ok ==> m2.mem == splice(m.mem, off, data) && m2.mem.subrange(off, off + data.len())
        == data && healthy(cfg, m2) && !m2.eop && m2.address == translate_spec(addr)
    &&& ready(cfg, m) && cfg.geometry.page_ok(addr, data.len()) && !m.stale ==> r is Ok
    &&& ready(cfg, m) && cfg.geometry.page_ok(addr, data.len()) && m.stale ==> healthy(cfg, m2)
        && m2.mem == m.mem && (r is Ok <==> m.mem.subrange(off, off + data.len()) == data) && (
    r is Err ==> r == Err::<(), FlashError>(FlashError::VerifyFailed))
}

/// A handle on an unlocked flash controller.
pub struct Flash<R: FlashRegisters> {
    pub regs: R,
    pub config: TargetConfig,
}

impl<R: FlashRegisters> Flash<R> {
    pub open spec fn model(&self) -> FlashModel {
        self.regs.model()
    }

    pub open spec fn wf(&self) -> bool {
        self.config.valid() && fits(self.config, self.regs.model())
    }

    fn wait_for(&mut self, cond: WaitFor) -> (r: Result<(), FlashError>)
        requires
            old(self).config.valid(),
        ensures
            final(self).config == old(self).config,
            r == crate::poll::wait_result(
                old(self).model(),
                old(self).config.poll_budget as nat,
                cond,
            ),
            final(self).model() == wait_state(
                old(self).model(),
                old(self).config.poll_budget as nat,
                cond,
            ),
    {
        wait(&mut self.regs, cond, self.config.poll_budget)
    }

    fn op_wait(&self) -> (w: WaitFor)
        ensures
            w == op_wait_for(self.config),
    {
        match self.config.poll {
            PollMode::Busy => WaitFor::Busy,
            PollMode::BusyUntilEop => WaitFor::BusyUntilEop,
        }
    }

    /// Writes the two keys, in order, to the normal-mode key register and then
    /// to the fast-mode key register.
    pub fn unlock(&mut self)
        requires
            old(self).wf(),
        ensures
            final(self).wf(),
            final(self).config == old(self).config,
            final(self).model() == unlocked(old(self).model()),
    {
        self.regs.write_key(KeyBank::Normal, KEY1);
        self.regs.write_key(KeyBank::Normal, KEY2);
        self.regs.write_key(KeyBank::Fast, KEY1);
        self.regs.write_key(KeyBank::Fast, KEY2);
    }

    /// Takes ownership of the controller and unlocks it. The address, clock
    /// and function arguments of the host are accepted and not needed.
    pub fn initialize(regs: R, config: TargetConfig, address: u32, clock: u32, function: u32) -> (r:
        Result<Self, FlashError>)
        requires
            config.valid(),
            fits(config, regs.model()),
        ensures
            r is Ok,
            r matches Ok(f) ==> f.wf() && f.config == config && f.model() == unlocked(regs.model()),
    {
        let mut f = Flash { regs, config };
        f.unlock();
        Ok(f)
    }

    /// Sets both lock bits; the handle stays usable but every erase or
    /// program fails until the next `unlock`.
    pub fn teardown(&mut self)
        requires
            old(self).wf(),
        ensures
            final(self).wf(),
            final(self).config == old(self).config,
            final(self).model() == relocked(old(self).model()),
    {
        self.regs.lock();
    }

    /// Gives the controller back to the caller.
    pub fn into_registers(self) -> (r: R)
        ensures
            r == self.regs,
    {
        self.regs
    }

    /// Erases the whole array.
    pub fn erase_all(&mut self) -> (r: Result<(), FlashError>)
        requires
            old(self).wf(),
        ensures
            final(self).wf(),
            final(self).config == old(self).config,
            erase_all_spec(old(self).config, old(self).model(), r, final(self).model()),
    {
        if self.regs.is_locked() {
            return Err(FlashError::FlashLocked);
        }
        let ghost m0 = self.model();
        self.regs.set_control(ControlBit::MassErase, true);
        self.regs.trigger(Trigger::Start);
        let w = self.op_wait();
        let r = self.wait_for(w);
        self.regs.set_control(ControlBit::MassErase, false);
        proof {
            let m = self.model();
            assert(!m0.protected ==> m.mem =~= Seq::new(
                m.mem.len(),
                |k: int| erased_byte(self.config.geometry.erased_word, k),
            ));
        }
        r
    }

    /// Erases the sector at logical (or physical) address `addr`.
    pub fn erase_sector(&mut self, addr: u32) -> (r: Result<(), FlashError>)
        requires
            old(self).wf(),
        ensures
            final(self).wf(),
            final(self).config == old(self).config,
            erase_sector_spec(old(self).config, old(self).model(), addr, r, final(self).model()),
    {
        let phys = match self.config.geometry.check_sector(addr) {
            Some(p) => p,
            None => return Err(FlashError::InvalidAddress),
        };
        if self.regs.is_locked() {
            return Err(FlashError::FlashLocked);
        }
        let bit = match self.config.erase {
            EraseMode::Sector => ControlBit::SectorErase,
            EraseMode::Block32 => ControlBit::BlockErase32,
        };
        let ghost m0 = self.model();
        self.regs.set_control(bit, true);
        self.regs.write_address(phys);
        proof {
            let m = self.model();
            let off = m.offset(phys);
            assert(off % (m.sector_size as int) == 0);
            assert(m.sector_start(off) == off);
        }
        self.regs.trigger(Trigger::Start);
        let w = self.op_wait();
        let r = self.wait_for(w);
        self.regs.set_control(bit, false);
        proof {
            let m = self.model();
            assert(r is Ok ==> m.mem =~= fill(
                m0.mem,
                target_offset(self.config, addr),
                self.config.geometry.sector_size as int,
                self.config.geometry.erased_word,
            ));
        }
        r
    }

    /// Leaves page-program mode after a failed step and reports `e`.
    fn abandon_page(&mut self, e: FlashError) -> (r: Result<(), FlashError>)
        requires
            old(self).config.valid(),
            old(self).model().mem.len() == old(self).config.geometry.flash_size,
            old(self).model().buf.len() == old(self).model().mem.len(),
            old(self).model().origin == old(self).config.geometry.origin(),
            old(self).model().sector_size == old(self).config.geometry.sector_size,
            old(self).model().erased == old(self).config.geometry.erased_word,
            !old(self).model().sector_erase && !old(self).model().block_erase
                && !old(self).model().mass_erase,
        ensures
            final(self).wf(),
            final(self).config == old(self).config,
            final(self).model() == (FlashModel { page_program: false, ..old(self).model() }),
            r == Err::<(), FlashError>(e),
    {
        self.regs.set_control(ControlBit::PageProgram, false);
        Err(e)
    }

    /// Programs one page at logical (or physical) address `addr` with `data`,
    /// then reads it back.
    #[verifier::rlimit(50)]
    pub fn program_page(&mut self, addr: u32, data: &[u8]) -> (r: Result<(), FlashError>)
        requires
            old(self).wf(),
        ensures
            final(self).wf(),
            final(self).config == old(self).config,
            program_page_spec(
                old(self).config,
                old(self).model(),
                addr,
                data@,
                r,
                final(self).model(),
            ),
    {
        let phys = match self.config.geometry.check_page(addr, data.len()) {
            Some(p) => p,
            None => return Err(FlashError::InvalidAddress),
        };
        if self.regs.is_locked() || self.regs.is_fast_locked() {
            return Err(FlashError::FlashLocked);
        }
        let ghost m0 = self.model();
        let ghost off = m0.offset(phys);
        let ghost cfg = self.config;
        let page = self.config.geometry.page_size;
        let words = page / 4;
        assert(words * 4 == page);
        proof {
            vstd::arithmetic::div_mod::lemma_mod_mod(off, 4, words as int);
            assert(4 * (words as int) == page as int);
            assert(off % 4 == 0);
        }
        self.regs.set_control(ControlBit::PageProgram, true);
        self.regs.trigger(Trigger::BufferReset);
        let w = self.op_wait();
        match self.wait_for(w) {
            Ok(()) => {},
            Err(e) => return self.abandon_page(e),
        }
        let ghost m1 = self.model();
        assert(m1.buf =~= Seq::new(
            m1.buf.len(),
            |k: int|
                if off <= k < off + 4 * 0 {
                    Some(data@[k - off])
                } else {
                    None
                },
        ));
        let mut i: u32 = 0;
        while i < words
            invariant
                self.config == cfg,
                cfg == old(self).config,
                cfg.valid(),
                cfg.geometry.page_ok(addr, data@.len()),
                !m0.locked && !m0.fast_locked,
                m0 == old(self).model(),
                m1.origin + m1.mem.len() <= 0x1000_0000,
                i <= words,
                words * 4 == page,
                page == cfg.geometry.page_size,
                data@.len() == page,
                off == target_offset(cfg, addr),
                off == m1.offset(phys),
                0 <= off,
                off + page <= m1.mem.len(),
                off % 4 == 0,
                phys as int == m1.origin + off,
                fits(cfg, m0),
                m1 == (FlashModel { page_program: true, buf: m1.buf, pending: 0, eop: false, ..m0 }),
                m1.buf.len() == m0.buf.len(),
                !m0.wrprterr,
                m0.latency < cfg.poll_budget,
                self.model() == (FlashModel {
                    buf: Seq::new(
                        m1.buf.len(),
                        |k: int|
                            if off <= k < off + 4 * i {
                                Some(data@[k - off])
                            } else {
                                None
                            },
                    ),
                    ..m1
                }),
            decreases words - i,
        {
            let j = (4 * i) as usize;
            let word = pack_word(data[j], data[j + 1], data[j + 2], data[j + 3]);
            let ghost before = self.model();
            self.regs.write_word(phys + 4 * i, word);
            proof {
                crate::model::lemma_word_bytes(data@[j as int], data@[j + 1], data@[j + 2], data@[j + 3]);
                let b = self.model().buf;
                assert(b =~= Seq::new(
                    m1.buf.len(),
                    |k: int|
                        if off <= k < off + 4 * (i + 1) {
                            Some(data@[k - off])
                        } else {
                            None
                        },
                ));
            }
            let step = match self.config.commit {
                CommitMode::BufferLoad => {
                    self.regs.trigger(Trigger::BufferLoad);
                    self.wait_for(w)
                },
                CommitMode::DirectWord => self.wait_for(WaitFor::WriteBusy),
            };
            match step {
                Ok(()) => {},
                Err(e) => {
                    return self.abandon_page(e);
                },
            }
            i = i + 1;
        }
        let ghost m2 = self.model();
        assert(m2.buf =~= Seq::new(
            m1.buf.len(),
            |k: int|
                if off <= k < off + page {
                    Some(data@[k - off])
                } else {
                    None
                },
        ));
        assert(commit(m0.mem, m2.buf) =~= splice(m0.mem, off, data@));
        self.regs.set_control(ControlBit::PageProgram, true);
        self.regs.write_address(phys);
        let start = match self.config.commit {
            CommitMode::BufferLoad => Trigger::Start,
            CommitMode::DirectWord => Trigger::PageStart,
        };
        self.regs.trigger(start);
        let done = self.wait_for(w);
        self.regs.set_control(ControlBit::PageProgram, false);
        match done {
            Ok(()) => {},
            Err(e) => return Err(e),
        }
        let ghost m3 = self.model();
        let mut i: u32 = 0;
        while i < words
            invariant
                self.config == cfg,
                cfg == old(self).config,
                cfg.valid(),
                cfg.geometry.page_ok(addr, data@.len()),
                !m0.locked && !m0.fast_locked,
                self.model() == m3,
                m0 == old(self).model(),
                off == target_offset(cfg, addr),
                fits(cfg, m3),
                keeps(m0, m3),
                healthy(cfg, m3),
                !m3.eop,
                m3.address == phys,
                phys == translate_spec(addr),
                !m0.wrprterr && m0.latency < cfg.poll_budget && !m0.protected,
                !m0.stale ==> m3.mem == splice(m0.mem, off, data@),
                m0.stale ==> m3.mem == m0.mem,
                m3.origin + m3.mem.len() <= 0x1000_0000,
                off % 4 == 0,
                i <= words,
                words * 4 == page,
                data@.len() == page,
                0 <= off,
                off + page <= m3.mem.len(),
                phys as int == m3.origin + off,
                forall|k: int| off <= k < off + 4 * i ==> m3.mem[k] == data@[k - off],
            decreases words - i,
        {
            let j = (4 * i) as usize;
            let expected = pack_word(data[j], data[j + 1], data[j + 2], data[j + 3]);
            let got = self.regs.read_word(phys + 4 * i);
            if got != expected {
                proof {
                    let sub = m3.mem.subrange(off, off + page);
                    assert(sub[j as int] == m3.mem[off + j]);
                    assert(sub[j + 1] == m3.mem[off + j + 1]);
                    assert(sub[j + 2] == m3.mem[off + j + 2]);
                    assert(sub[j + 3] == m3.mem[off + j + 3]);
                    assert(sub != data@);
                    if !m0.stale {
                        assert(sub =~= data@);
                    }
                }
                return Err(FlashError::VerifyFailed);
            }
            proof {
                lemma_word_injective(m3.mem, off + 4 * i, data@, j as int);
            }
            i = i + 1;
        }
        assert(m3.mem.subrange(off, off + page) =~= data@);
        assert(m3.mem =~= splice(m0.mem, off, data@));
        Ok(())
    }
}

} // verus!
