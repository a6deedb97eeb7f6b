use vstd::prelude::*;

verus! {

/// Physical address at which the CH32 flash array is mapped; while code runs
/// from flash, the range starting at zero aliases it.
pub const REMAP_BASE: u32 = 0x0800_0000;

/// Static description of the flash array, as exposed to the host.
#[derive(Clone, Copy, Debug, PartialEq, Eq, Structural)]
pub struct FlashGeometry {
    /// Logical address of the first byte of the array.
    pub flash_address: u32,
    /// Total size of the array in bytes.
    pub flash_size: u32,
    /// Bytes written by one program operation.
    pub page_size: u32,
    /// Byte value reported to the host for an erased cell.
    pub empty_value: u8,
    /// What every word of an erased sector reads as.
    pub erased_word: u32,
    /// Bytes erased by one sector erase.
    pub sector_size: u32,
    /// Logical address of the first sector.
    pub sector_address: u32,
}

/// How the target erases one sector.
#[derive(Clone, Copy, Debug, PartialEq, Eq, Structural)]
pub enum EraseMode {
    /// A dedicated sector-erase control bit.
    Sector,
    /// The 32-word block-erase control bit, sized to one sector.
    Block32,
}

/// How the target moves a page into its write buffer.
#[derive(Clone, Copy, Debug, PartialEq, Eq, Structural)]
pub enum CommitMode {
    /// Each word is latched by an explicit buffer-load pulse, then the page is
    /// committed with the start bit.
    BufferLoad,
    /// Each word is written to its address and the write-busy flag polled;
    /// the page is committed with the page-start bit.
    DirectWord,
}

/// Completion predicate of the busy poller.
#[derive(Clone, Copy, Debug, PartialEq, Eq, Structural)]
pub enum PollMode {
    /// Done once the busy flag is clear.
    Busy,
    /// Done once the busy flag is clear or the end-of-operation flag is set.
    BusyUntilEop,
}

/// Everything the routine needs to know about one target.
#[derive(Clone, Copy, Debug, PartialEq, Eq, Structural)]
pub struct TargetConfig {
    pub geometry: FlashGeometry,
    pub erase: EraseMode,
    pub commit: CommitMode,
    pub poll: PollMode,
    /// Status register reads allowed before a wait reports a timeout.
    pub poll_budget: u32,
}

impl FlashGeometry {
    /// The invariant of a geometry: sectors tile the array, pages tile
    /// sectors, pages hold whole words, and the array lies below the remap
    /// threshold so that logical and physical addresses never overlap.
    pub open spec fn valid(self) -> bool {
        &&& self.page_size > 0
        &&& self.page_size % 4 == 0
        &&& self.sector_size > 0
        &&& self.sector_size % self.page_size == 0
        &&& self.flash_size > 0
        &&& self.flash_size % self.sector_size == 0
        &&& self.sector_address == self.flash_address
        &&& self.flash_address + self.flash_size <= REMAP_BASE
    }

    /// Physical address of the first byte of the array.
    pub open spec fn origin(self) -> int {
        REMAP_BASE + self.flash_address
    }

    /// Offset into the array of a physical address.
    pub open spec fn offset_of(self, phys: u32) -> int {
        phys - self.origin()
    }

    pub open spec fn sector_ok(self, addr: u32) -> bool {
        let off = self.offset_of(translate_spec(addr));
        0 <= off < self.flash_size && off % (self.sector_size as int) == 0
    }

    pub open spec fn page_ok(self, addr: u32, len: nat) -> bool {
        let off = self.offset_of(translate_spec(addr));
        &&& len == self.page_size
        &&& 0 <= off
        &&& off + self.page_size <= self.flash_size
        &&& off % (self.page_size as int) == 0
    }
}

impl TargetConfig {
    pub open spec fn valid(self) -> bool {
        self.geometry.valid() && self.poll_budget > 0
    }
}

/// Maps a logical address to the physical address space of the controller.
pub open spec fn translate_spec(addr: u32) -> u32 {
    if addr < REMAP_BASE {
        (addr + REMAP_BASE) as u32
    } else {
        addr
    }
}

/// Translates a logical address to a physical one; an address that is already
/// physical is returned unchanged.
pub fn translate(addr: u32) -> (r: u32)
    ensures
        r == translate_spec(addr),
        r >= REMAP_BASE,
        addr < REMAP_BASE ==> r == addr + REMAP_BASE,
        addr >= REMAP_BASE ==> r == addr,
{
    if addr < REMAP_BASE {
        addr + REMAP_BASE
    } else {
        addr
    }
}

/// Translating an address that was already translated changes nothing.
pub proof fn translate_idempotent(addr: u32)
    ensures
        translate_spec(translate_spec(addr)) == translate_spec(addr),
{
}

impl FlashGeometry {
    /// Validates a sector-erase address; on success returns its physical
    /// address.
    pub fn check_sector(&self, addr: u32) -> (r: Option<u32>)
        requires
            self.valid(),
        ensures
            r is Some <==> self.sector_ok(addr),
            r is Some ==> r->0 == translate_spec(addr),
    {
        let phys = translate(addr);
        let origin = REMAP_BASE + self.flash_address;
        if phys < origin {
            return None;
        }
        let off = phys - origin;
        if off < self.flash_size && off % self.sector_size == 0 {
            Some(phys)
        } else {
            None
        }
    }

    /// Validates a program address and the length of its data; on success
    /// returns the physical address.
    pub fn check_page(&self, addr: u32, len: usize) -> (r: Option<u32>)
        requires
            self.valid(),
        ensures
            r is Some <==> self.page_ok(addr, len as nat),
            r is Some ==> r->0 == translate_spec(addr),
    {
        let phys = translate(addr);
        let origin = REMAP_BASE + self.flash_address;
        if phys < origin || len != self.page_size as usize {
            return None;
        }
        let off = phys - origin;
        if off <= self.flash_size && self.page_size <= self.flash_size - off
            && off % self.page_size == 0 {
            Some(phys)
        } else {
            None
        }
    }
}

} // verus!
