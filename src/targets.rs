use vstd::prelude::*;
use crate::geometry::{CommitMode, EraseMode, FlashGeometry, PollMode, TargetConfig};

verus! {

/// Status reads allowed per wait on the supported targets.
pub const POLL_BUDGET: u32 = 0xF0_0000;

/// CH32V003: 16 KiB in 1 KiB sectors, 64-byte pages loaded word by word
/// through the write buffer.
pub fn ch32v003() -> (r: TargetConfig)
    ensures
        r.valid(),
        r == (TargetConfig {
            geometry: FlashGeometry {
                flash_address: 0,
                flash_size: 0x4000,
                page_size: 64,
                empty_value: 0xFF,
                erased_word: 0xFFFF_FFFF,
                sector_size: 1024,
                sector_address: 0,
            },
            erase: EraseMode::Sector,
            commit: CommitMode::BufferLoad,
            poll: PollMode::Busy,
            poll_budget: POLL_BUDGET,
        }),
{
    TargetConfig {
        geometry: FlashGeometry {
            flash_address: 0,
            flash_size: 0x4000,
            page_size: 64,
            empty_value: 0xFF,
            erased_word: 0xFFFF_FFFF,
            sector_size: 1024,
            sector_address: 0,
        },
        erase: EraseMode::Sector,
        commit: CommitMode::BufferLoad,
        poll: PollMode::Busy,
        poll_budget: POLL_BUDGET,
    }
}

/// CH32V307: 256 KiB erased in 32 KiB blocks, 256-byte pages written word by
/// word. An erased word of this part reads 0xe339e339; the host descriptor
/// holds a single byte and reports 0x39.
pub fn ch32v307() -> (r: TargetConfig)
    ensures
        r.valid(),
        r == (TargetConfig {
            geometry: FlashGeometry {
                flash_address: 0,
                flash_size: 0x40000,
                page_size: 0x100,
                empty_value: 0x39,
                erased_word: 0xE339_E339,
                sector_size: 0x8000,
                sector_address: 0,
            },
            erase: EraseMode::Block32,
            commit: CommitMode::DirectWord,
            poll: PollMode::BusyUntilEop,
            poll_budget: POLL_BUDGET,
        }),
{
    TargetConfig {
        geometry: FlashGeometry {
            flash_address: 0,
            flash_size: 0x40000,
            page_size: 0x100,
            empty_value: 0x39,
            erased_word: 0xE339_E339,
            sector_size: 0x8000,
            sector_address: 0,
        },
        erase: EraseMode::Block32,
        commit: CommitMode::DirectWord,
        poll: PollMode::BusyUntilEop,
        poll_budget: POLL_BUDGET,
    }
}

} // verus!
