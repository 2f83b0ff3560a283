//! Firmware boot library: page-table entry codec and builders, memory-map
//! parsing, the firmware-exit protocol, the boot state machine, and the
//! framebuffer console used for diagnostics.

pub mod boot;
pub mod efi;
pub mod error;
pub mod handoff;
pub mod log;
pub mod mapping;
pub mod memmap;
pub mod paging;
