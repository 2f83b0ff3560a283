use efiboot::paging::PageMapTable;
use efiboot::paging::PageMapTableBuilder;

#[test]
fn entry_round_trip_page_aligned() {
    let entry: u64 = PageMapTableBuilder::from(0u64)
        .address(0x1234_5000)
        .page_size(true)
        .write_allowed(true)
        .present(true)
        .into();
    let decoded = PageMapTable::from(entry);
    assert!(decoded.present());
    assert!(decoded.write_allowed());
    assert!(decoded.page_size());
    assert_eq!(decoded.address(12), 0x1234_5000);
    assert!(!decoded.execute_disable());
    assert!(!decoded.global());
    assert!(!decoded.user_allowed());
    assert!(!decoded.cache_disable());
    assert!(!decoded.write_through());
    assert!(!decoded.accessed());
    assert!(!decoded.written());
}

#[test]
fn misaligned_address_corrupts_only_flag_bits() {
    // A misaligned address leaks its low twelve bits into the flag bits; the
    // decoded address keeps only the aligned part. The result is corrupt, and
    // the corruption is confined below the alignment boundary.
    let entry: u64 = PageMapTableBuilder::from(0u64).address(0x1003).into();
    assert_eq!(entry, 0x1003);
    let decoded = PageMapTable::from(entry);
    assert!(decoded.present()); // corrupted flag bit, never set on purpose
    assert!(decoded.write_allowed()); // corrupted flag bit
    assert_eq!(decoded.address(12), 0x1000); // only bits above the boundary
    assert_eq!(entry >> 12, 0x1003u64 >> 12); // nothing above bit 11 differs
}

#[test]
fn flag_setters_round_trip() {
    let entry: u64 = PageMapTableBuilder::from(0u64)
        .execute_disable(true)
        .cache_disable(true)
        .write_through(true)
        .user_allowed(true)
        .present(true)
        .into();
    let decoded = PageMapTable::from(entry);
    assert!(decoded.execute_disable());
    assert!(decoded.cache_disable());
    assert!(decoded.write_through());
    assert!(decoded.user_allowed());
    assert!(decoded.present());
    assert!(!decoded.write_allowed());
    assert!(!decoded.page_size());
}

#[test]
fn flag_setters_clear() {
    let entry: u64 = PageMapTableBuilder::from(0xFFFF_FFFF_FFFF_FFFFu64)
        .present(false)
        .write_allowed(false)
        .page_size(false)
        .execute_disable(false)
        .cache_disable(false)
        .write_through(false)
        .user_allowed(false)
        .into();
    let decoded = PageMapTable::from(entry);
    assert!(!decoded.present());
    assert!(!decoded.write_allowed());
    assert!(!decoded.page_size());
    assert!(!decoded.execute_disable());
    assert!(!decoded.cache_disable());
    assert!(!decoded.write_through());
    assert!(!decoded.user_allowed());
    assert!(decoded.global()); // untouched bits stay set
    assert!(decoded.accessed());
    assert!(decoded.written());
}

#[test]
fn protection_key_within_width() {
    let entry: u64 = PageMapTableBuilder::from(0u64).protection_key(0xF).into();
    let decoded = PageMapTable::from(entry);
    assert_eq!(decoded.protection_key(), 0xF);
    assert!(!decoded.execute_disable());
}

#[test]
fn protection_key_truncates_above_width() {
    // A key wider than four bits spills into the execute-disable bit; the
    // getter reads that spilled bit back as bit four of the key.
    let entry: u64 = PageMapTableBuilder::from(0u64).protection_key(0x1F).into();
    let decoded = PageMapTable::from(entry);
    assert_eq!(decoded.protection_key(), 0x1F);
    assert!(decoded.execute_disable());
}

#[test]
fn address_masks_high_flag_bits() {
    // Without the mask around the maximum physical-address boundary, the
    // execute-disable and protection-key bits would be absorbed into the
    // address field.
    let entry: u64 = PageMapTableBuilder::from(0u64)
        .address(0x7000)
        .execute_disable(true)
        .protection_key(0xF)
        .into();
    let decoded = PageMapTable::from(entry);
    assert_eq!(decoded.address(12), 0x7000);
}

#[test]
fn builder_entry_conversions() {
    let entry = PageMapTable::from(0x83u64);
    let builder = PageMapTableBuilder::from(entry);
    let raw: u64 = builder.into();
    assert_eq!(raw, 0x83);
    let rebuilt: u64 = PageMapTableBuilder::from(PageMapTable::from(0x42u64)).into();
    assert_eq!(rebuilt, 0x42);
}
