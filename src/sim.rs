use vstd::prelude::*;
use crate::geometry::FlashGeometry;
use crate::model::{
    commit, erased_byte, fill, pack_word, status_bits, unpack_byte, word_at, ControlBit, FlashModel,
    FlashRegisters, KeyBank, Status, Trigger, KEY1, KEY2,
};

verus! {

/// A flash controller simulated in memory: the register file, the write
/// buffer and the array, with switches for write protection, lost commits
/// and operation latency.
pub struct SimFlash {
    mem: Vec<u8>,
    origin: u32,
    erased: u32,
    sector_size: u32,
    locked: bool,
    fast_locked: bool,
    key_armed: bool,
    fast_key_armed: bool,
    sector_erase: bool,
    block_erase: bool,
    mass_erase: bool,
    page_program: bool,
    address: u32,
    buf: Vec<Option<u8>>,
    pending: u32,
    latency: u32,
    eop: bool,
    wrprterr: bool,
    protected: bool,
    stale: bool,
}

/// A controller out of reset for `g`: array erased, both modes locked,
/// nothing pending.
pub open spec fn reset_model(g: FlashGeometry) -> FlashModel {
    FlashModel {
        mem: Seq::new(g.flash_size as nat, |k: int| erased_byte(g.erased_word, k)),
        origin: g.origin() as nat,
        erased: g.erased_word,
        sector_size: g.sector_size as nat,
        locked: true,
        fast_locked: true,
        key_armed: false,
        fast_key_armed: false,
        sector_erase: false,
        block_erase: false,
        mass_erase: false,
        page_program: false,
        address: 0,
        buf: Seq::new(g.flash_size as nat, |k: int| None),
        pending: 0,
        latency: 0,
        eop: false,
        wrprterr: false,
        protected: false,
        stale: false,
    }
}

/// Sets `len` bytes of `mem` from `start` on to `v`.
fn fill_vec(mem: &mut Vec<u8>, start: usize, len: usize, v: u32)
    requires
        start <= old(mem).len(),
    ensures
        final(mem)@ == fill(old(mem)@, start as int, len as int, v),
{
    let n = mem.len();
    let end: usize = if len <= n - start {
        start + len
    } else {
        n
    };
    let ghost m0 = mem@;
    let mut k: usize = start;
    assert(m0 =~= fill(m0, start as int, 0, v));
    while k < end
        invariant
            start <= k <= end <= n,
            n == m0.len(),
            end == n || end == start + len,
            mem@ == fill(m0, start as int, k - start, v),
        decreases end - k,
    {
        mem.set(k, unpack_byte(v, (k % 4) as u32));
        k = k + 1;
        assert(mem@ =~= fill(m0, start as int, k - start, v));
    }
    assert(mem@ =~= fill(m0, start as int, len as int, v));
}

/// Copies every loaded byte of `buf` into `mem`.
fn commit_vec(mem: &mut Vec<u8>, buf: &Vec<Option<u8>>)
    ensures
        final(mem)@ == commit(old(mem)@, buf@),
{
    let ghost m0 = mem@;
    let n = mem.len();
    let mut k: usize = 0;
    assert(m0 =~= Seq::new(n as nat, |j: int| if j < 0 { commit(m0, buf@)[j] } else { m0[j] }));
    while k < n
        invariant
            k <= n,
            n == m0.len(),
            mem@ == Seq::new(n as nat, |j: int| if j < k { commit(m0, buf@)[j] } else { m0[j] }),
        decreases n - k,
    {
        if k < buf.len() {
            match buf[k] {
                Some(b) => {
                    mem.set(k, b);
                },
                None => {},
            }
        }
        k = k + 1;
        assert(mem@ =~= Seq::new(
            n as nat,
            |j: int| if j < k { commit(m0, buf@)[j] } else { m0[j] },
        ));
    }
    assert(mem@ =~= commit(m0, buf@));
}

/// Empties every slot of `buf`.
fn clear_all(buf: &mut Vec<Option<u8>>)
    ensures
        final(buf)@ == Seq::new(old(buf)@.len(), |j: int| None::<u8>),
{
    let ghost m0 = buf@;
    let n = buf.len();
    let mut k: usize = 0;
    assert(m0 =~= Seq::new(n as nat, |j: int| if j < 0 { None } else { m0[j] }));
    while k < n
        invariant
            k <= n,
            n == m0.len(),
            buf@ == Seq::new(n as nat, |j: int| if j < k { None } else { m0[j] }),
        decreases n - k,
    {
        buf.set(k, None);
        k = k + 1;
        assert(buf@ =~= Seq::new(n as nat, |j: int| if j < k { None } else { m0[j] }));
    }
    assert(buf@ =~= Seq::new(n as nat, |j: int| None::<u8>));
}

impl SimFlash {
    pub fn new(g: &FlashGeometry) -> (r: SimFlash)
        requires
            g.valid(),
        ensures
            r.model() == reset_model(*g),
    {
        let size = g.flash_size as usize;
        let mut mem: Vec<u8> = Vec::new();
        let mut buf: Vec<Option<u8>> = Vec::new();
        let mut k: usize = 0;
        while k < size
            invariant
                k <= size,
                mem@ == Seq::new(k as nat, |j: int| erased_byte(g.erased_word, j)),
                buf@ == Seq::new(k as nat, |j: int| None::<u8>),
            decreases size - k,
        {
            mem.push(unpack_byte(g.erased_word, (k % 4) as u32));
            buf.push(None);
            k = k + 1;
            assert(mem@ =~= Seq::new(k as nat, |j: int| erased_byte(g.erased_word, j)));
            assert(buf@ =~= Seq::new(k as nat, |j: int| None::<u8>));
        }
        SimFlash {
            mem,
            origin: 0x0800_0000u32 + g.flash_address,
            erased: g.erased_word,
            sector_size: g.sector_size,
            locked: true,
            fast_locked: true,
            key_armed: false,
            fast_key_armed: false,
            sector_erase: false,
            block_erase: false,
            mass_erase: false,
            page_program: false,
            address: 0,
            buf,
            pending: 0,
            latency: 0,
            eop: false,
            wrprterr: false,
            protected: false,
            stale: false,
        }
    }

    /// Each later operation stays busy for `n` status reads.
    pub fn set_latency(&mut self, n: u32)
        ensures
            final(self).model() == (FlashModel { latency: n as nat, ..old(self).model() }),
    {
        self.latency = n;
    }

    /// Switches write protection of the whole array.
    pub fn set_protected(&mut self, on: bool)
        ensures
            final(self).model() == (FlashModel { protected: on, ..old(self).model() }),
    {
        self.protected = on;
    }

    /// Switches the loss of page commits: reads then return what the array
    /// held before.
    pub fn set_stale(&mut self, on: bool)
        ensures
            final(self).model() == (FlashModel { stale: on, ..old(self).model() }),
    {
        self.stale = on;
    }

    /// Raises the end-of-operation flag at once, as a controller may before
    /// its busy flag clears.
    pub fn raise_eop(&mut self)
        ensures
            final(self).model() == (FlashModel { eop: true, ..old(self).model() }),
    {
        self.eop = true;
    }

    /// The array's contents, from its first byte.
    pub fn memory(&self) -> (r: &[u8])
        ensures
            r@ == self.model().mem,
    {
        self.mem.as_slice()
    }

    /// Carries out the operation the mode bits select.
    fn run_operation(&mut self)
        ensures
            final(self).model() == old(self).model().operation_result(),
    {
        if self.locked || !(self.mass_erase || self.sector_erase || self.block_erase
            || self.page_program) {
        } else if self.protected {
            self.wrprterr = true;
        } else if self.mass_erase {
            let n = self.mem.len();
            let v = self.erased;
            fill_vec(&mut self.mem, 0, n, v);
        } else if self.sector_erase || self.block_erase {
            if self.address >= self.origin && ((self.address - self.origin) as usize)
                < self.mem.len() {
                let off = (self.address - self.origin) as usize;
                let ss = self.sector_size as usize;
                let start = if ss == 0 {
                    off
                } else {
                    assert(off % ss <= off) by (nonlinear_arith)
                        requires
                            ss > 0,
                    ;
                    off - off % ss
                };
                let v = self.erased;
                fill_vec(&mut self.mem, start, ss, v);
            }
        } else if self.stale {
        } else {
            commit_vec(&mut self.mem, &self.buf);
        }
    }

    fn begin(&mut self)
        ensures
            final(self).model() == old(self).model().begun(),
    {
        self.pending = self.latency;
        self.eop = false;
    }
}

impl FlashRegisters for SimFlash {
    closed spec fn model(&self) -> FlashModel {
        FlashModel {
            mem: self.mem@,
            origin: self.origin as nat,
            erased: self.erased,
            sector_size: self.sector_size as nat,
            locked: self.locked,
            fast_locked: self.fast_locked,
            key_armed: self.key_armed,
            fast_key_armed: self.fast_key_armed,
            sector_erase: self.sector_erase,
            block_erase: self.block_erase,
            mass_erase: self.mass_erase,
            page_program: self.page_program,
            address: self.address,
            buf: self.buf@,
            pending: self.pending as nat,
            latency: self.latency as nat,
            eop: self.eop,
            wrprterr: self.wrprterr,
            protected: self.protected,
            stale: self.stale,
        }
    }

    fn write_key(&mut self, bank: KeyBank, key: u32) {
        match bank {
            KeyBank::Normal => {
                if key == KEY1 {
                    self.key_armed = true;
                } else if self.key_armed && key == KEY2 {
                    self.key_armed = false;
                    self.locked = false;
                } else {
                    self.key_armed = false;
                }
            },
            KeyBank::Fast => {
                if key == KEY1 {
                    self.fast_key_armed = true;
                } else if self.fast_key_armed && key == KEY2 {
                    self.fast_key_armed = false;
                    self.fast_locked = false;
                } else {
                    self.fast_key_armed = false;
                }
            },
        }
    }

    fn is_locked(&self) -> (r: bool) {
        self.locked
    }

    fn is_fast_locked(&self) -> (r: bool) {
        self.fast_locked
    }

    fn set_control(&mut self, bit: ControlBit, on: bool) {
        match bit {
            ControlBit::SectorErase => self.sector_erase = on,
            ControlBit::BlockErase32 => self.block_erase = on,
            ControlBit::MassErase => self.mass_erase = on,
            ControlBit::PageProgram => self.page_program = on,
        }
    }

    fn trigger(&mut self, t: Trigger) {
        match t {
            Trigger::Start | Trigger::PageStart => {
                self.run_operation();
            },
            Trigger::BufferReset => {
                clear_all(&mut self.buf);
            },
            Trigger::BufferLoad => {},
        }
        self.begin();
    }

    fn write_address(&mut self, addr: u32) {
        self.address = addr;
    }

    fn write_word(&mut self, phys: u32, w: u32) {
        let off = (phys - self.origin) as usize;
        self.buf.set(off, Some(unpack_byte(w, 0)));
        self.buf.set(off + 1, Some(unpack_byte(w, 1)));
        self.buf.set(off + 2, Some(unpack_byte(w, 2)));
        self.buf.set(off + 3, Some(unpack_byte(w, 3)));
        self.begin();
    }

    fn read_word(&self, phys: u32) -> (r: u32) {
        let off = (phys - self.origin) as usize;
        pack_word(self.mem[off], self.mem[off + 1], self.mem[off + 2], self.mem[off + 3])
    }

    fn read_status(&mut self) -> (r: Status) {
        let busy = self.pending > 0;
        let bits: u32 = (if busy { 0x3u32 } else { 0u32 }) + (if self.wrprterr { 0x10u32 } else {
            0u32
        }) + (if self.eop { 0x20u32 } else { 0u32 });
        let s = Status {
            busy,
            write_busy: busy,
            eop: self.eop,
            protection_error: self.wrprterr,
            bits,
        };
        if self.pending > 0 {
            self.pending = self.pending - 1;
            if self.pending == 0 {
                self.eop = true;
            }
        }
        s
    }

    fn clear_eop(&mut self) {
        self.eop = false;
    }

    fn lock(&mut self) {
        self.locked = true;
        self.fast_locked = true;
    }
}

} // verus!
