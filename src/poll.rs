use vstd::prelude::*;
use crate::error::FlashError;
use crate::model::{FlashModel, FlashRegisters};

verus! {

/// Completion condition of one wait.
#[derive(Clone, Copy, Debug, PartialEq, Eq, Structural)]
pub enum WaitFor {
    /// The busy flag is clear.
    Busy,
    /// The busy flag is clear or the end-of-operation flag is set.
    BusyUntilEop,
    /// The per-word write-busy flag is clear.
    WriteBusy,
}

/// `cond` accepts a status showing the end-of-operation flag while busy.
pub open spec fn stops_on_eop(m: FlashModel, cond: WaitFor) -> bool {
    cond == WaitFor::BusyUntilEop && m.eop
}

/// What a wait for `cond` with budget `budget` returns on a controller in
/// state `m`.
pub open spec fn wait_result(m: FlashModel, budget: nat, cond: WaitFor) -> Result<(), FlashError> {
    if m.wrprterr {
        Err(FlashError::ProtectionError { status: m.status().bits })
    } else if stops_on_eop(m, cond) || m.pending < budget {
        Ok(())
    } else {
        Err(FlashError::Timeout)
    }
}

/// The controller state a wait leaves behind.
pub open spec fn wait_state(m: FlashModel, budget: nat, cond: WaitFor) -> FlashModel {
    if m.wrprterr {
        m.polled(1)
    } else if stops_on_eop(m, cond) {
        FlashModel { eop: false, ..m.polled(1) }
    } else if m.pending < budget {
        FlashModel { eop: false, ..m.polled(m.pending + 1) }
    } else {
        m.polled(budget)
    }
}

/// Polls the status register until the pending operation completes, a
/// protection violation is flagged, or `budget` reads have been spent. On
/// completion the end-of-operation flag is cleared.
pub fn wait<R: FlashRegisters>(regs: &mut R, cond: WaitFor, budget: u32) -> (r: Result<(), FlashError>)
    requires
        budget > 0,
    ensures
        r == wait_result(old(regs).model(), budget as nat, cond),
        final(regs).model() == wait_state(old(regs).model(), budget as nat, cond),
{
    let ghost m0 = regs.model();
    let mut i: u32 = 0;
    assert(m0.polled(0) == m0);
    while i < budget
        invariant
            0 < budget,
            i <= budget,
            i <= m0.pending,
            i > 0 ==> !m0.wrprterr,
            i > 0 ==> !stops_on_eop(m0, cond),
            regs.model() == m0.polled(i as nat),
            m0.polled(0) == m0,
            m0 == old(regs).model(),
        decreases budget - i,
    {
        let s = regs.read_status();
        assert(m0.polled(i as nat).polled(1) == m0.polled(i as nat + 1));
        if s.protection_error {
            return Err(FlashError::ProtectionError { status: s.bits });
        }
        let done = match cond {
            WaitFor::Busy => !s.busy,
            WaitFor::BusyUntilEop => !s.busy || s.eop,
            WaitFor::WriteBusy => !s.write_busy,
        };
        if done {
            regs.clear_eop();
            return Ok(());
        }
        i = i + 1;
    }
    Err(FlashError::Timeout)
}

} // verus!
