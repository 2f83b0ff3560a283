//! The boot error taxonomy: firmware-protocol failures, image-validation
//! failures, layout failures, and handoff-protocol failures. All of them are
//! fatal to the boot except a stale map key, which permits a bounded retry.

use vstd::prelude::*;

verus! {

/// Why a boot step failed.
#[derive(Debug, Clone, Copy, PartialEq, Eq, Structural)]
pub enum BootError {
    /// A firmware call returned this non-zero status.
    Firmware(u64),
    /// A chunked read returned fewer bytes than requested before the end of
    /// the file, distinct from an outright firmware failure.
    ShortRead,
    /// The kernel image is malformed or not of the expected format.
    InvalidImage,
    /// A loadable segment asks for an alignment other than the platform page
    /// size, which the chosen layout cannot represent.
    UnsupportedAlignment,
    /// Services-exit was invoked with a key that does not match the most
    /// recent memory-map query.
    StaleMapKey,
}

/// The diagnostic text that `BootError::message` returns.
pub open spec fn spec_error_message(e: BootError) -> Seq<char> {
    match e {
        BootError::Firmware(_) => "firmware call failed"@,
        BootError::ShortRead => "short read from boot volume"@,
        BootError::InvalidImage => "kernel image is not a valid executable"@,
        BootError::UnsupportedAlignment => "unsupported segment alignment"@,
        BootError::StaleMapKey => "memory map key is stale"@,
    }
}

impl BootError {
    /// A fixed diagnostic line for the console.
    pub fn message(&self) -> (r: &'static str)
        ensures
            r@ == spec_error_message(*self),
    {
        match self {
            BootError::Firmware(_) => "firmware call failed",
            BootError::ShortRead => "short read from boot volume",
            BootError::InvalidImage => "kernel image is not a valid executable",
            BootError::UnsupportedAlignment => "unsupported segment alignment",
            BootError::StaleMapKey => "memory map key is stale",
        }
    }
}

} // verus!
