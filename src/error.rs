use vstd::prelude::*;

verus! {

/// Outcome of a failed flash operation.
#[derive(Clone, Copy, Debug, PartialEq, Eq, Structural)]
pub enum FlashError {
    /// The address fails alignment or range validation, or the data is not
    /// exactly one page; nothing was touched.
    InvalidAddress,
    /// The controller's lock bit was set; nothing was touched.
    FlashLocked,
    /// The controller reported a write-protection violation; `status` holds
    /// the raw status register bits that were read.
    ProtectionError { status: u32 },
    /// The busy flag did not clear within the polling budget.
    Timeout,
    /// Read-back after programming did not match the source data.
    VerifyFailed,
}

impl FlashError {
    /// The nonzero code reported to the host.
    pub open spec fn spec_code(self) -> u32 {
        match self {
            FlashError::InvalidAddress => 0x1000,
            FlashError::FlashLocked => 0x1001,
            FlashError::Timeout => 0x1002,
            FlashError::VerifyFailed => 0x1003,
            FlashError::ProtectionError { .. } => 0x1004,
        }
    }

    pub fn code(&self) -> (r: u32)
        ensures
            r == self.spec_code(),
            r != 0,
    {
        match self {
            FlashError::InvalidAddress => 0x1000,
            FlashError::FlashLocked => 0x1001,
            FlashError::Timeout => 0x1002,
            FlashError::VerifyFailed => 0x1003,
            FlashError::ProtectionError { .. } => 0x1004,
        }
    }
}

} // verus!
