use ch32_flash::error::FlashError;
use ch32_flash::flash::Flash;
use ch32_flash::geometry::{translate, CommitMode, EraseMode, PollMode, TargetConfig};
use ch32_flash::model::{FlashRegisters, Trigger};
use ch32_flash::poll::{wait, WaitFor};
use ch32_flash::sim::SimFlash;
use ch32_flash::targets::{ch32v003, ch32v307};

fn open(cfg: TargetConfig) -> Flash<SimFlash> {
    let sim = SimFlash::new(&cfg.geometry);
    Flash::initialize(sim, cfg, 0, 0, 2).unwrap()
}

fn small_budget() -> TargetConfig {
    let mut cfg = ch32v003();
    cfg.poll_budget = 4;
    cfg
}

#[test]
fn erase_then_program_reads_back_page() {
    let mut f = open(ch32v003());
    assert_eq!(f.erase_sector(0x0), Ok(()));
    assert_eq!(f.program_page(0x0, &[0xAA; 64]), Ok(()));
    assert_eq!(&f.regs.memory()[0..0x40], &[0xAA; 64][..]);
    assert!(f.regs.memory()[0x40..].iter().all(|b| *b == 0xFF));
}

#[test]
fn program_misaligned_address_is_rejected() {
    let mut f = open(ch32v003());
    let before = f.regs.memory().to_vec();
    assert_eq!(f.program_page(0x1, &[0x12; 64]), Err(FlashError::InvalidAddress));
    assert_eq!(f.regs.memory(), &before[..]);
}

#[test]
fn stale_read_back_reports_verify_failed() {
    let mut f = open(ch32v003());
    f.regs.set_stale(true);
    assert_eq!(f.erase_sector(0x400), Ok(()));
    assert_eq!(f.program_page(0x400, &[0xAA; 64]), Err(FlashError::VerifyFailed));
    assert!(f.regs.memory()[0x400..0x440].iter().all(|b| *b == 0xFF));
}

#[test]
fn stale_read_back_of_identical_data_passes() {
    let mut f = open(ch32v003());
    f.regs.set_stale(true);
    assert_eq!(f.program_page(0x0, &[0xFF; 64]), Ok(()));
}

#[test]
fn program_reads_back_every_page_of_a_sector() {
    let mut f = open(ch32v003());
    assert_eq!(f.erase_sector(0x800), Ok(()));
    for p in 0..16u32 {
        let data: Vec<u8> = (0..64u32).map(|i| (i * 3 + p) as u8).collect();
        let addr = 0x800 + p * 64;
        assert_eq!(f.program_page(addr, &data), Ok(()));
        let off = addr as usize;
        assert_eq!(&f.regs.memory()[off..off + 64], &data[..]);
    }
}

#[test]
fn erase_sector_misaligned_changes_nothing() {
    let mut f = open(ch32v003());
    assert_eq!(f.program_page(0x0, &[0x11; 64]), Ok(()));
    let before = f.regs.memory().to_vec();
    for addr in [0x1u32, 0x40, 0x3FF, 0x401] {
        assert_eq!(f.erase_sector(addr), Err(FlashError::InvalidAddress));
        assert_eq!(f.regs.memory(), &before[..]);
    }
}

#[test]
fn erase_sector_out_of_range_is_rejected() {
    let mut f = open(ch32v003());
    assert_eq!(f.erase_sector(0x4000), Err(FlashError::InvalidAddress));
    assert_eq!(f.program_page(0x4000, &[0; 64]), Err(FlashError::InvalidAddress));
}

#[test]
fn erase_sector_clears_only_its_sector() {
    let mut f = open(ch32v003());
    assert_eq!(f.program_page(0x3C0, &[0x00; 64]), Ok(()));
    assert_eq!(f.program_page(0x400, &[0x00; 64]), Ok(()));
    assert_eq!(f.erase_sector(0x400), Ok(()));
    assert!(f.regs.memory()[0x3C0..0x400].iter().all(|b| *b == 0x00));
    assert!(f.regs.memory()[0x400..0x440].iter().all(|b| *b == 0xFF));
}

#[test]
fn erase_all_fills_with_empty_value() {
    let mut f = open(ch32v003());
    assert_eq!(f.program_page(0x0, &[0x5A; 64]), Ok(()));
    assert_eq!(f.program_page(0x3FC0, &[0x00; 64]), Ok(()));
    assert_eq!(f.erase_all(), Ok(()));
    assert_eq!(f.regs.memory().len(), 0x4000);
    assert!(f.regs.memory().iter().all(|b| *b == 0xFF));
}

#[test]
fn erase_all_uses_configured_erased_word() {
    let mut f = open(ch32v307());
    assert_eq!(f.program_page(0x100, &[0x00; 256]), Ok(()));
    assert_eq!(f.erase_all(), Ok(()));
    let expected = [0x39u8, 0xE3, 0x39, 0xE3];
    assert!(f.regs.memory().iter().enumerate().all(|(k, b)| *b == expected[k % 4]));
    assert_eq!(f.regs.read_word(0x0800_0100), 0xE339_E339);
}

#[test]
fn teardown_locks_every_operation() {
    let mut f = open(ch32v003());
    f.teardown();
    assert!(f.regs.is_locked());
    assert!(f.regs.is_fast_locked());
    let before = f.regs.memory().to_vec();
    assert_eq!(f.erase_all(), Err(FlashError::FlashLocked));
    assert_eq!(f.erase_sector(0x0), Err(FlashError::FlashLocked));
    assert_eq!(f.program_page(0x0, &[0x00; 64]), Err(FlashError::FlashLocked));
    assert_eq!(f.regs.memory(), &before[..]);
    f.unlock();
    assert_eq!(f.program_page(0x0, &[0x00; 64]), Ok(()));
}

#[test]
fn locked_controller_is_refused() {
    let cfg = ch32v003();
    let mut f = Flash { regs: SimFlash::new(&cfg.geometry), config: cfg };
    assert_eq!(f.erase_all(), Err(FlashError::FlashLocked));
    assert_eq!(f.erase_sector(0x0), Err(FlashError::FlashLocked));
    assert_eq!(f.program_page(0x0, &[0x00; 64]), Err(FlashError::FlashLocked));
}

#[test]
fn wrong_page_length_is_rejected() {
    let mut f = open(ch32v003());
    let before = f.regs.memory().to_vec();
    assert_eq!(f.program_page(0x0, &[0x00; 63]), Err(FlashError::InvalidAddress));
    assert_eq!(f.program_page(0x0, &[0x00; 65]), Err(FlashError::InvalidAddress));
    assert_eq!(f.program_page(0x0, &[]), Err(FlashError::InvalidAddress));
    assert_eq!(f.regs.memory(), &before[..]);
}

#[test]
fn physical_and_logical_addresses_agree() {
    let mut f = open(ch32v307());
    let data: Vec<u8> = (0..256u32).map(|i| i as u8).collect();
    assert_eq!(f.erase_sector(0x0800_8000), Ok(()));
    assert_eq!(f.program_page(0x0800_8100, &data), Ok(()));
    assert_eq!(&f.regs.memory()[0x8100..0x8200], &data[..]);
    assert_eq!(f.program_page(0x8200, &data), Ok(()));
    assert_eq!(&f.regs.memory()[0x8200..0x8300], &data[..]);
}

#[test]
fn block_erase_target_rejects_sub_block_address() {
    let mut f = open(ch32v307());
    assert_eq!(f.erase_sector(0x400), Err(FlashError::InvalidAddress));
    assert_eq!(f.erase_sector(0x8000), Ok(()));
}

#[test]
fn translate_is_idempotent() {
    assert_eq!(translate(0x0), 0x0800_0000);
    assert_eq!(translate(0x40), 0x0800_0040);
    assert_eq!(translate(translate(0x40)), 0x0800_0040);
    assert_eq!(translate(0x0800_1000), 0x0800_1000);
}

#[test]
fn slow_operation_within_budget_succeeds() {
    let mut f = open(small_budget());
    f.regs.set_latency(3);
    assert_eq!(f.erase_sector(0x0), Ok(()));
    assert_eq!(f.program_page(0x0, &[0x42; 64]), Ok(()));
    assert_eq!(&f.regs.memory()[0..64], &[0x42; 64][..]);
}

#[test]
fn slow_operation_past_budget_times_out() {
    let mut f = open(small_budget());
    f.regs.set_latency(4);
    assert_eq!(f.erase_sector(0x0), Err(FlashError::Timeout));
    assert_eq!(f.erase_all(), Err(FlashError::Timeout));
}

#[test]
fn write_protection_is_reported_with_status() {
    let mut f = open(ch32v003());
    assert_eq!(f.program_page(0x0, &[0x00; 64]), Ok(()));
    f.regs.set_protected(true);
    let r = f.erase_sector(0x0);
    assert_eq!(r, Err(FlashError::ProtectionError { status: 0x10 }));
    assert!(f.regs.memory()[0..64].iter().all(|b| *b == 0x00));
    assert_eq!(f.erase_all(), Err(FlashError::ProtectionError { status: 0x10 }));
}

#[test]
fn direct_word_target_with_eop_poll_programs() {
    let mut cfg = ch32v307();
    cfg.poll_budget = 8;
    let mut f = open(cfg);
    f.regs.set_latency(5);
    assert_eq!(cfg.commit, CommitMode::DirectWord);
    assert_eq!(cfg.poll, PollMode::BusyUntilEop);
    assert_eq!(cfg.erase, EraseMode::Block32);
    assert_eq!(f.erase_sector(0x10000), Ok(()));
    assert_eq!(f.program_page(0x10000, &[0xC3; 256]), Ok(()));
    assert_eq!(&f.regs.memory()[0x10000..0x10100], &[0xC3; 256][..]);
}

#[test]
fn words_are_little_endian() {
    let mut f = open(ch32v003());
    let data: Vec<u8> = (0..64u32).map(|i| i as u8).collect();
    assert_eq!(f.program_page(0x40, &data), Ok(()));
    assert_eq!(f.regs.read_word(0x0800_0040), 0x0302_0100);
    assert_eq!(f.regs.read_word(0x0800_007C), 0x3F3E_3D3C);
}

#[test]
fn error_codes_are_distinct_and_nonzero() {
    assert_eq!(FlashError::InvalidAddress.code(), 0x1000);
    assert_eq!(FlashError::FlashLocked.code(), 0x1001);
    assert_eq!(FlashError::Timeout.code(), 0x1002);
    assert_eq!(FlashError::VerifyFailed.code(), 0x1003);
    assert_eq!(FlashError::ProtectionError { status: 0x10 }.code(), 0x1004);
}

#[test]
fn initialize_unlocks_both_modes() {
    let cfg = ch32v003();
    let sim = SimFlash::new(&cfg.geometry);
    assert!(sim.is_locked());
    assert!(sim.is_fast_locked());
    let f = Flash::initialize(sim, cfg, 0x0800_0000, 8_000_000, 1).unwrap();
    let regs = f.into_registers();
    assert!(!regs.is_locked());
    assert!(!regs.is_fast_locked());
}

#[test]
fn end_of_operation_while_busy_ends_only_the_eop_wait() {
    let cfg = ch32v307();
    let mut sim = SimFlash::new(&cfg.geometry);
    sim.set_latency(10);
    sim.trigger(Trigger::BufferLoad);
    sim.raise_eop();
    assert_eq!(wait(&mut sim, WaitFor::BusyUntilEop, 2), Ok(()));
    sim.trigger(Trigger::BufferLoad);
    sim.raise_eop();
    assert_eq!(wait(&mut sim, WaitFor::Busy, 2), Err(FlashError::Timeout));
    sim.raise_eop();
    assert_eq!(wait(&mut sim, WaitFor::WriteBusy, 2), Err(FlashError::Timeout));
}

#[test]
fn erase_sector_writes_physical_address() {
    let mut f = open(ch32v003());
    assert_eq!(f.erase_sector(0x0), Ok(()));
    assert!(f.regs.memory()[0..0x400].iter().all(|b| *b == 0xFF));
    let mut g = open(ch32v003());
    assert_eq!(g.erase_sector(0x0800_0000), Ok(()));
    assert_eq!(f.regs.memory(), g.regs.memory());
}

#[test]
fn protection_flag_left_set_fails_program_with_status() {
    let mut f = open(small_budget());
    f.regs.set_latency(2);
    f.regs.set_protected(true);
    assert_eq!(f.erase_sector(0x0), Err(FlashError::ProtectionError { status: 0x13 }));
    f.regs.set_protected(false);
    let before = f.regs.memory().to_vec();
    assert_eq!(
        f.program_page(0x0, &[0x00; 64]),
        Err(FlashError::ProtectionError { status: 0x13 })
    );
    assert_eq!(f.regs.memory(), &before[..]);
}
