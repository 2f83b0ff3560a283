//! The firmware memory map: the descriptor model, and the parser that
//! materializes descriptors from a raw buffer by striding the firmware-reported
//! descriptor size — never the structure's own declared size, since the
//! firmware may append vendor fields after each descriptor.

use vstd::prelude::*;

verus! {

use vstd::arithmetic::div_mod::lemma_fundamental_div_mod;
use vstd::arithmetic::div_mod::lemma_mod_bound;
use vstd::arithmetic::mul::lemma_mul_inequality;
use vstd::arithmetic::mul::lemma_mul_is_distributive_add_other_way;

/// The type of a physical memory region, as the firmware reports it.
#[derive(Debug, Clone, Copy, PartialEq, Eq, Structural)]
pub struct EfiMemoryType(pub u32);

pub const EFI_RESERVED_MEMORY_TYPE: u32 = 0;
pub const EFI_LOADER_CODE: u32 = 1;
pub const EFI_LOADER_DATA: u32 = 2;
pub const EFI_BOOT_SERVICES_CODE: u32 = 3;
pub const EFI_BOOT_SERVICES_DATA: u32 = 4;
pub const EFI_RUNTIME_SERVICES_CODE: u32 = 5;
pub const EFI_RUNTIME_SERVICES_DATA: u32 = 6;
pub const EFI_CONVENTIONAL_MEMORY: u32 = 7;
pub const EFI_UNUSABLE_MEMORY: u32 = 8;
pub const EFI_ACPIRECLAIM_MEMORY: u32 = 9;
pub const EFI_ACPIMEMORY_NVS: u32 = 10;
pub const EFI_MEMORY_MAPPED_IO: u32 = 11;
pub const EFI_MEMORY_MAPPED_IOPORT_SPACE: u32 = 12;
pub const EFI_PAL_CODE: u32 = 13;
pub const EFI_PERSISTENT_MEMORY: u32 = 14;
pub const EFI_UNNACCEPTED_MEMORY_TYPE: u32 = 15;
pub const EFI_MAX_MEMORY_TYPE: u32 = 16;

/// One physical memory region as the firmware reports it: a typed, contiguous
/// page range with its attribute flags.
#[derive(Debug, Clone, Copy, PartialEq, Eq, Structural)]
pub struct EfiMemoryDescriptor {
    pub memory_type: EfiMemoryType,
    pub physical_start: u64,
    pub virtual_start: u64,
    pub num_pages: u64,
    pub attribute: u64,
}

impl Default for EfiMemoryDescriptor {
    /// An empty loader-code region.
    fn default() -> (r: EfiMemoryDescriptor)
        ensures
            r == (EfiMemoryDescriptor {
                memory_type: EfiMemoryType(EFI_LOADER_CODE),
                physical_start: 0,
                virtual_start: 0,
                num_pages: 0,
                attribute: 0,
            }),
    {
        EfiMemoryDescriptor {
            memory_type: EfiMemoryType(EFI_LOADER_CODE),
            physical_start: 0,
            virtual_start: 0,
            num_pages: 0,
            attribute: 0,
        }
    }
}

/// The declared byte size of the descriptor structure itself: a type word,
/// four bytes of padding, and four 64-bit fields. The firmware-reported
/// descriptor size may be larger, never smaller.
pub const DESCRIPTOR_BYTES: usize = 40;

/// The 32-bit little-endian value at byte offset `o`.
pub open spec fn spec_u32_le(b: Seq<u8>, o: int) -> u32 {
    (b[o] as u32) | ((b[o + 1] as u32) << 8) | ((b[o + 2] as u32) << 16) | ((b[o + 3] as u32)
        << 24)
}

/// The 64-bit little-endian value at byte offset `o`.
pub open spec fn spec_u64_le(b: Seq<u8>, o: int) -> u64 {
    (b[o] as u64) | ((b[o + 1] as u64) << 8) | ((b[o + 2] as u64) << 16) | ((b[o + 3] as u64)
        << 24) | ((b[o + 4] as u64) << 32) | ((b[o + 5] as u64) << 40) | ((b[o + 6] as u64) << 48)
        | ((b[o + 7] as u64) << 56)
}

/// The descriptor whose bytes start at offset `o`: the type word first, the
/// 64-bit fields from offset 8 on.
pub open spec fn spec_descriptor_at(b: Seq<u8>, o: int) -> EfiMemoryDescriptor {
    EfiMemoryDescriptor {
        memory_type: EfiMemoryType(spec_u32_le(b, o)),
        physical_start: spec_u64_le(b, o + 8),
        virtual_start: spec_u64_le(b, o + 16),
        num_pages: spec_u64_le(b, o + 24),
        attribute: spec_u64_le(b, o + 32),
    }
}

/// Reads the 32-bit little-endian value at byte offset `offset`.
pub fn read_u32_le(bytes: &Vec<u8>, offset: usize) -> (r: u32)
    requires
        offset + 4 <= bytes.len(),
    ensures
        r == spec_u32_le(bytes@, offset as int),
{
    (bytes[offset] as u32) | ((bytes[offset + 1] as u32) << 8u32) | ((bytes[offset + 2] as u32)
        << 16u32) | ((bytes[offset + 3] as u32) << 24u32)
}

/// Reads the 64-bit little-endian value at byte offset `offset`.
pub fn read_u64_le(bytes: &Vec<u8>, offset: usize) -> (r: u64)
    requires
        offset + 8 <= bytes.len(),
    ensures
        r == spec_u64_le(bytes@, offset as int),
{
    (bytes[offset] as u64) | ((bytes[offset + 1] as u64) << 8u64) | ((bytes[offset + 2] as u64)
        << 16u64) | ((bytes[offset + 3] as u64) << 24u64) | ((bytes[offset + 4] as u64) << 32u64)
        | ((bytes[offset + 5] as u64) << 40u64) | ((bytes[offset + 6] as u64) << 48u64) | ((
    bytes[offset + 7] as u64) << 56u64)
}

/// Within the first `len / d` strides of size `d`, a whole declared
/// descriptor fits inside the buffer.
proof fn lemma_stride_bounds(len: int, d: int, i: int)
    requires
        d >= 1,
        len >= 0,
        0 <= i < len / d,
    ensures
        0 <= i * d,
        i * d + d <= len,
{
    lemma_fundamental_div_mod(len, d);
    lemma_mod_bound(len, d);
    lemma_mul_inequality(i + 1, len / d, d);
    lemma_mul_is_distributive_add_other_way(d, i, 1);
    lemma_mul_inequality(0, i, d);
}

/// Parses a raw memory-map buffer into descriptors, striding by the
/// firmware-reported `descriptor_size`. The buffer yields exactly
/// `bytes.len() / descriptor_size` descriptors; bytes past each declared
/// structure (firmware-appended vendor fields) and any trailing partial
/// stride are skipped.
pub fn parse_memory_map(bytes: &Vec<u8>, descriptor_size: usize) -> (map: Vec<EfiMemoryDescriptor>)
    requires
        descriptor_size >= DESCRIPTOR_BYTES,
    ensures
        map@.len() == bytes@.len() as int / descriptor_size as int,
        forall|k: int|
            0 <= k < map@.len() ==> map@[k] == spec_descriptor_at(bytes@, k * descriptor_size),
{
    let count = bytes.len() / descriptor_size;
    let mut map: Vec<EfiMemoryDescriptor> = Vec::new();
    let mut i: usize = 0;
    proof {
        assert(bytes.len() == bytes@.len());
    }
    while i < count
        invariant
            descriptor_size >= 40,
            bytes@.len() <= usize::MAX,
            count == bytes@.len() as int / descriptor_size as int,
            i <= count,
            map@.len() == i,
            forall|k: int|
                0 <= k < i ==> map@[k] == spec_descriptor_at(bytes@, k * descriptor_size),
        decreases count - i,
    {
        proof {
            lemma_stride_bounds(bytes@.len() as int, descriptor_size as int, i as int);
        }
        let pos = i * descriptor_size;
        let descriptor = EfiMemoryDescriptor {
            memory_type: EfiMemoryType(read_u32_le(bytes, pos)),
            physical_start: read_u64_le(bytes, pos + 8),
            virtual_start: read_u64_le(bytes, pos + 16),
            num_pages: read_u64_le(bytes, pos + 24),
            attribute: read_u64_le(bytes, pos + 32),
        };
        map.push(descriptor);
        i = i + 1;
    }
    map
}

/// The number of descriptors implied by a buffer size and the
/// firmware-reported descriptor size.
pub fn descriptor_count(map_size: u64, descriptor_size: u64) -> (r: u64)
    requires
        descriptor_size >= 1,
    ensures
        r == map_size as int / descriptor_size as int,
{
    map_size / descriptor_size
}

/// The human-readable name of a memory-region type, for diagnostics.
pub fn memory_type_name(t: EfiMemoryType) -> (r: &'static str)
    ensures
        r@ == spec_memory_type_name(t),
{
    match t.0 {
        0u32 => "EfiReservedMemoryType",
        1u32 => "EfiLoaderCode",
        2u32 => "EfiLoaderData",
        3u32 => "EfiBootServicesCode",
        4u32 => "EfiBootServicesData",
        5u32 => "EfiRuntimeServicesCode",
        6u32 => "EfiRuntimeServicesData",
        7u32 => "EfiConventionalMemory",
        8u32 => "EfiUnusableMemory",
        9u32 => "EfiAcpiReclaimMemory",
        10u32 => "EfiAcpiMemoryNVS",
        11u32 => "EfiMemoryMappedIO",
        12u32 => "EfiMemoryMappedIOPortSpace",
        13u32 => "EfiPalCode",
        14u32 => "EfiPersistentMemory",
        15u32 => "EfiUnacceptedMemoryType",
        16u32 => "EfiMaxMemoryType",
        _ => "Undefined",
    }
}

/// The name that `memory_type_name` returns for each region type.
pub open spec fn spec_memory_type_name(t: EfiMemoryType) -> Seq<char> {
    match t.0 {
        0u32 => "EfiReservedMemoryType"@,
        1u32 => "EfiLoaderCode"@,
        2u32 => "EfiLoaderData"@,
        3u32 => "EfiBootServicesCode"@,
        4u32 => "EfiBootServicesData"@,
        5u32 => "EfiRuntimeServicesCode"@,
        6u32 => "EfiRuntimeServicesData"@,
        7u32 => "EfiConventionalMemory"@,
        8u32 => "EfiUnusableMemory"@,
        9u32 => "EfiAcpiReclaimMemory"@,
        10u32 => "EfiAcpiMemoryNVS"@,
        11u32 => "EfiMemoryMappedIO"@,
        12u32 => "EfiMemoryMappedIOPortSpace"@,
        13u32 => "EfiPalCode"@,
        14u32 => "EfiPersistentMemory"@,
        15u32 => "EfiUnacceptedMemoryType"@,
        16u32 => "EfiMaxMemoryType"@,
        _ => "Undefined"@,
    }
}

} // verus!
