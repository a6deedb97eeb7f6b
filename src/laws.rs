use vstd::prelude::*;
use crate::error::FlashError;
use crate::flash::{
    erase_all_spec, erase_sector_spec, fits, healthy, program_page_spec, ready, relocked,
    target_offset, unlocked,
};
use crate::geometry::{translate_spec, TargetConfig, REMAP_BASE};
use crate::model::FlashModel;

verus! {

/// On a ready controller whose commits are not lost, erasing a sector and
/// then programming a page inside it both succeed, and the page then reads
/// back exactly the programmed bytes.
pub proof fn program_after_erase_reads_back(
    cfg: TargetConfig,
    m0: FlashModel,
    sector_addr: u32,
    r1: Result<(), FlashError>,
    m1: FlashModel,
    page_addr: u32,
    data: Seq<u8>,
    r2: Result<(), FlashError>,
    m2: FlashModel,
)
    requires
        cfg.valid(),
        fits(cfg, m0),
        ready(cfg, m0),
        !m0.stale,
        cfg.geometry.sector_ok(sector_addr),
        cfg.geometry.page_ok(page_addr, data.len()),
        target_offset(cfg, sector_addr) <= target_offset(cfg, page_addr) < target_offset(
            cfg,
            sector_addr,
        ) + cfg.geometry.sector_size,
        erase_sector_spec(cfg, m0, sector_addr, r1, m1),
        program_page_spec(cfg, m1, page_addr, data, r2, m2),
    ensures
        r1 is Ok,
        r2 is Ok,
        m2.mem.subrange(
            target_offset(cfg, page_addr),
            target_offset(cfg, page_addr) + data.len(),
        ) == data,
{
    let off = target_offset(cfg, page_addr);
    assert(ready(cfg, m1));
    assert(m2.mem.subrange(off, off + data.len()) =~= data);
}

/// Once the controller is locked again by teardown, whole-chip erase, erase
/// of a valid sector and programming of a valid page all fail with
/// `FlashLocked` and leave the controller as it was.
pub proof fn teardown_locks_out(
    cfg: TargetConfig,
    m: FlashModel,
    r_all: Result<(), FlashError>,
    m_all: FlashModel,
    sector_addr: u32,
    r_sector: Result<(), FlashError>,
    m_sector: FlashModel,
    page_addr: u32,
    data: Seq<u8>,
    r_page: Result<(), FlashError>,
    m_page: FlashModel,
)
    requires
        erase_all_spec(cfg, relocked(m), r_all, m_all),
        cfg.geometry.sector_ok(sector_addr),
        erase_sector_spec(cfg, relocked(m), sector_addr, r_sector, m_sector),
        cfg.geometry.page_ok(page_addr, data.len()),
        program_page_spec(cfg, relocked(m), page_addr, data, r_page, m_page),
    ensures
        r_all == Err::<(), FlashError>(FlashError::FlashLocked),
        m_all == relocked(m),
        r_sector == Err::<(), FlashError>(FlashError::FlashLocked),
        m_sector == relocked(m),
        r_page == Err::<(), FlashError>(FlashError::FlashLocked),
        m_page == relocked(m),
{
}

/// Erasing at a logical address and at the physical address it maps to give
/// the same result and leave the controller in the same state: the remap
/// offset is never applied twice.
pub proof fn erase_sector_logical_matches_physical(
    cfg: TargetConfig,
    m: FlashModel,
    addr: u32,
    r1: Result<(), FlashError>,
    m1: FlashModel,
    r2: Result<(), FlashError>,
    m2: FlashModel,
)
    requires
        addr < REMAP_BASE,
        erase_sector_spec(cfg, m, addr, r1, m1),
        erase_sector_spec(cfg, m, (addr + REMAP_BASE) as u32, r2, m2),
    ensures
        r1 == r2,
        m1 == m2,
{
    assert(translate_spec(addr) == translate_spec((addr + REMAP_BASE) as u32));
}

/// Once unlocked (as `initialize` and `unlock` leave it), no erase or program
/// with valid arguments is refused with `FlashLocked`.
pub proof fn unlocked_operations_are_not_refused(
    cfg: TargetConfig,
    m: FlashModel,
    r_all: Result<(), FlashError>,
    m_all: FlashModel,
    sector_addr: u32,
    r_sector: Result<(), FlashError>,
    m_sector: FlashModel,
    page_addr: u32,
    data: Seq<u8>,
    r_page: Result<(), FlashError>,
    m_page: FlashModel,
)
    requires
        erase_all_spec(cfg, unlocked(m), r_all, m_all),
        erase_sector_spec(cfg, unlocked(m), sector_addr, r_sector, m_sector),
        program_page_spec(cfg, unlocked(m), page_addr, data, r_page, m_page),
    ensures
        r_all != Err::<(), FlashError>(FlashError::FlashLocked),
        r_sector != Err::<(), FlashError>(FlashError::FlashLocked),
        r_page != Err::<(), FlashError>(FlashError::FlashLocked),
{
}

/// A whole-chip erase that succeeded leaves the controller able to erase
/// again: the second erase succeeds and the array stays erased.
pub proof fn erase_all_repeats(
    cfg: TargetConfig,
    m0: FlashModel,
    r1: Result<(), FlashError>,
    m1: FlashModel,
    r2: Result<(), FlashError>,
    m2: FlashModel,
)
    requires
        erase_all_spec(cfg, m0, r1, m1),
        r1 is Ok,
        erase_all_spec(cfg, m1, r2, m2),
    ensures
        r2 is Ok,
        m2.mem == m1.mem,
        m2.locked == m1.locked,
        healthy(cfg, m2),
{
}

} // verus!
