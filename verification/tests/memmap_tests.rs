use efiboot::memmap::descriptor_count;
use efiboot::memmap::memory_type_name;
use efiboot::memmap::parse_memory_map;
use efiboot::memmap::read_u32_le;
use efiboot::memmap::read_u64_le;
use efiboot::memmap::EfiMemoryType;

/// Builds a buffer of `n` descriptors at the given stride. Each descriptor
/// holds distinctive field values; the bytes past the declared 40-byte
/// structure are filled with 0xEE, standing in for firmware-appended fields.
fn descriptor_buffer(n: usize, stride: usize) -> Vec<u8> {
    let mut bytes = vec![0xEEu8; n * stride];
    for i in 0..n {
        let base = i * stride;
        bytes[base..base + 4].copy_from_slice(&((i as u32) + 1).to_le_bytes());
        bytes[base + 4..base + 8].copy_from_slice(&[0, 0, 0, 0]);
        bytes[base + 8..base + 16].copy_from_slice(&(0x1000u64 * (i as u64)).to_le_bytes());
        bytes[base + 16..base + 24].copy_from_slice(&0u64.to_le_bytes());
        bytes[base + 24..base + 32].copy_from_slice(&(16u64 + i as u64).to_le_bytes());
        bytes[base + 32..base + 40].copy_from_slice(&0xFu64.to_le_bytes());
    }
    bytes
}

#[test]
fn five_descriptors_at_reported_stride() {
    // Five declared-size-40 descriptors at a reported stride of 48 bytes:
    // iterating at the reported stride recovers exactly five, not six or
    // four.
    let bytes = descriptor_buffer(5, 48);
    assert_eq!(bytes.len(), 240);
    let map = parse_memory_map(&bytes, 48);
    assert_eq!(map.len(), 5);
    for i in 0..5 {
        assert_eq!(map[i].memory_type, EfiMemoryType((i as u32) + 1));
        assert_eq!(map[i].physical_start, 0x1000 * (i as u64));
        assert_eq!(map[i].virtual_start, 0);
        assert_eq!(map[i].num_pages, 16 + i as u64);
        assert_eq!(map[i].attribute, 0xF);
    }
}

#[test]
fn declared_stride_misparses_padded_buffer() {
    // Striding the same buffer by the declared structure size instead of the
    // reported one yields six descriptors, and from the second one on the
    // fields are garbage read out of the appended vendor bytes.
    let bytes = descriptor_buffer(5, 48);
    let map = parse_memory_map(&bytes, 40);
    assert_eq!(map.len(), 6);
    assert_eq!(map[0].memory_type, EfiMemoryType(1)); // only the first survives
    assert_eq!(map[1].memory_type, EfiMemoryType(0xEEEE_EEEE));
    assert_ne!(map[1].physical_start, 0x1000);
}

#[test]
fn trailing_partial_stride_is_ignored()
{
    let mut bytes = descriptor_buffer(2, 48);
    bytes.extend_from_slice(&[1, 2, 3]);
    let map = parse_memory_map(&bytes, 48);
    assert_eq!(map.len(), 2);
}

#[test]
fn little_endian_readers() {
    let bytes = vec![0x78, 0x56, 0x34, 0x12, 0xEF, 0xCD, 0xAB, 0x89, 0x67, 0x45, 0x23, 0x01];
    assert_eq!(read_u32_le(&bytes, 0), 0x1234_5678);
    assert_eq!(read_u32_le(&bytes, 4), 0x89AB_CDEF);
    assert_eq!(read_u64_le(&bytes, 0), 0x89AB_CDEF_1234_5678);
    assert_eq!(read_u64_le(&bytes, 4), 0x0123_4567_89AB_CDEF);
}

#[test]
fn descriptor_count_divides() {
    assert_eq!(descriptor_count(240, 48), 5);
    assert_eq!(descriptor_count(240, 40), 6);
    assert_eq!(descriptor_count(39, 40), 0);
    assert_eq!(descriptor_count(0, 48), 0);
}

#[test]
fn default_descriptor_is_empty_loader_code() {
    let d = efiboot::memmap::EfiMemoryDescriptor::default();
    assert_eq!(d.memory_type, EfiMemoryType(1));
    assert_eq!(d.physical_start, 0);
    assert_eq!(d.virtual_start, 0);
    assert_eq!(d.num_pages, 0);
    assert_eq!(d.attribute, 0);
}

#[test]
fn memory_type_names() {
    assert_eq!(memory_type_name(EfiMemoryType(7)), "EfiConventionalMemory");
    assert_eq!(memory_type_name(EfiMemoryType(1)), "EfiLoaderCode");
    assert_eq!(memory_type_name(EfiMemoryType(16)), "EfiMaxMemoryType");
    assert_eq!(memory_type_name(EfiMemoryType(99)), "Undefined");
}
