//! Basic firmware ABI values: status codes, GUIDs, memory types.

use vstd::prelude::*;

verus! {

/// A firmware status code. Zero is success; a non-zero code names a specific
/// failure, optionally with the top bit set to flag an error class.
pub type EfiStatus = u64;

/// The top bit of a status code, set by the firmware to flag an error class.
pub const STATUS_ERROR_BIT: u64 = 0x8000_0000_0000_0000;

/// The status code with its error-class bit stripped, so the remaining bits
/// name the failure itself.
pub open spec fn spec_format_efi_status(status: u64) -> u64 {
    if status & STATUS_ERROR_BIT == STATUS_ERROR_BIT {
        status & !STATUS_ERROR_BIT
    } else {
        status
    }
}

/// Strips the error-class bit from a status code, leaving the failure number.
pub fn format_efi_status(status: EfiStatus) -> (r: u64)
    ensures
        r == spec_format_efi_status(status),
{
    if status & STATUS_ERROR_BIT == STATUS_ERROR_BIT {
        status & !STATUS_ERROR_BIT
    } else {
        status
    }
}

/// A firmware protocol identifier in its four-part wire layout.
#[derive(Debug, Clone, Copy, PartialEq, Eq)]
pub struct EfiGuid {
    pub data1: u32,
    pub data2: u16,
    pub data3: u16,
    pub data4: [u8; 8],
}

impl EfiGuid {
    pub fn new(data1: u32, data2: u16, data3: u16, data4: [u8; 8]) -> (r: EfiGuid)
        ensures
            r == (EfiGuid { data1, data2, data3, data4 }),
    {
        EfiGuid { data1, data2, data3, data4 }
    }
}

/// How a firmware handle search selects handles.
#[derive(Debug, Clone, Copy, PartialEq, Eq, Structural)]
pub struct SearchType(pub u32);

pub const SEARCH_ALL_HANDLES: u32 = 0;
pub const SEARCH_BY_REGISTER_NOTIFY: u32 = 1;
pub const SEARCH_BY_PROTOCOL: u32 = 2;

} // verus!
