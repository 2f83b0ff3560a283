use efiboot::error::BootError;
use efiboot::handoff::ExitCoordinator;
use efiboot::handoff::ExitPhase;
use efiboot::memmap::EfiMemoryType;

#[test]
fn exit_protocol_happy_path() {
    let mut c = ExitCoordinator::new(3);
    assert_eq!(c.phase, ExitPhase::Idle);
    let buffer_len = c.record_size_report(400, 48);
    // The allocated buffer carries a two-descriptor safety margin.
    assert_eq!(buffer_len, 400 + 96);
    assert_eq!(c.phase, ExitPhase::Sized);
    c.record_map_report(42, 48, 432);
    assert_eq!(c.phase, ExitPhase::Captured);
    assert_eq!(c.authorize_exit(42), Ok(42));
    let retry = c.record_exit_outcome(true);
    assert!(!retry);
    assert_eq!(c.phase, ExitPhase::Done);
}

#[test]
fn stale_key_is_a_handoff_error_not_success() {
    // Services-exit invoked with a key that does not match the most recent
    // query is reported as a handoff-protocol error.
    let mut c = ExitCoordinator::new(3);
    c.record_size_report(400, 48);
    c.record_map_report(42, 48, 432);
    c.record_exit_outcome(false);
    c.record_map_report(43, 48, 432);
    assert_eq!(c.authorize_exit(42), Err(BootError::StaleMapKey));
    assert_eq!(c.authorize_exit(43), Ok(43));
}

#[test]
fn allocation_invalidates_captured_key() {
    let mut c = ExitCoordinator::new(3);
    c.record_size_report(100, 40);
    c.record_map_report(7, 40, 120);
    assert_eq!(c.phase, ExitPhase::Captured);
    c.note_allocation();
    // The key is gone; the map must be queried again before the exit.
    assert_eq!(c.phase, ExitPhase::Sized);
    c.record_map_report(8, 40, 160);
    assert_eq!(c.authorize_exit(8), Ok(8));
}

#[test]
fn allocation_before_capture_changes_nothing() {
    let mut c = ExitCoordinator::new(3);
    c.note_allocation();
    assert_eq!(c.phase, ExitPhase::Idle);
    c.record_size_report(100, 40);
    c.note_allocation();
    assert_eq!(c.phase, ExitPhase::Sized);
}

#[test]
fn rejected_exit_retries_until_budget_is_spent() {
    let mut c = ExitCoordinator::new(1);
    c.record_size_report(100, 40);
    c.record_map_report(7, 40, 120);
    let retry = c.record_exit_outcome(false);
    assert!(retry);
    assert_eq!(c.phase, ExitPhase::Sized);
    assert_eq!(c.retries_left, 0);
    c.record_map_report(9, 40, 120);
    let retry = c.record_exit_outcome(false);
    assert!(!retry);
    assert_eq!(c.phase, ExitPhase::Failed);
}

#[test]
fn snapshot_carries_key_and_parsed_descriptors() {
    let mut c = ExitCoordinator::new(0);
    c.record_size_report(80, 40);
    c.record_map_report(55, 40, 80);
    let mut bytes = vec![0u8; 80];
    bytes[0..4].copy_from_slice(&7u32.to_le_bytes());
    bytes[8..16].copy_from_slice(&0x9000u64.to_le_bytes());
    bytes[24..32].copy_from_slice(&4u64.to_le_bytes());
    bytes[40..44].copy_from_slice(&2u32.to_le_bytes());
    let snapshot = c.capture_snapshot(&bytes);
    assert_eq!(snapshot.map_key, 55);
    assert_eq!(snapshot.descriptors.len(), 2);
    assert_eq!(snapshot.descriptors[0].memory_type, EfiMemoryType(7));
    assert_eq!(snapshot.descriptors[0].physical_start, 0x9000);
    assert_eq!(snapshot.descriptors[0].num_pages, 4);
    assert_eq!(snapshot.descriptors[1].memory_type, EfiMemoryType(2));
}
