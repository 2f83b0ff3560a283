use efiboot::boot::boot_start;
use efiboot::boot::boot_step;
use efiboot::boot::image_magic_ok;
use efiboot::boot::BootAction;
use efiboot::boot::BootEvent;
use efiboot::boot::BootStage;
use efiboot::boot::ChunkReader;
use efiboot::boot::KernelArgs;
use efiboot::boot::regions_disjoint;
use efiboot::error::BootError;
use efiboot::log::FrameBufferInfo;

#[test]
fn boot_walks_every_stage_to_transfer() {
    let (mut stage, mut action) = boot_start();
    assert_eq!(stage, BootStage::Init);
    assert_eq!(action, BootAction::LocateGraphics);
    let steps = [
        (BootEvent::GraphicsReady, BootStage::LoggerReady, BootAction::LoadKernelImage),
        (BootEvent::KernelLoaded, BootStage::ImageLoaded, BootAction::ValidateImage),
        (BootEvent::ImageValid, BootStage::LayoutPlanned, BootAction::AllocateStack),
        (BootEvent::StackAllocated, BootStage::StackReady, BootAction::ExitFirmwareServices),
        (BootEvent::ExitSucceeded, BootStage::ServicesExited, BootAction::PlaceSegments),
        (BootEvent::SegmentsPlaced, BootStage::ImagePlaced, BootAction::BuildKernelArgs),
        (BootEvent::ArgsBuilt, BootStage::ArgsReady, BootAction::TransferControl),
    ];
    for (event, expected_stage, expected_action) in steps {
        let (next, next_action) = boot_step(stage, event);
        assert_eq!(next, expected_stage);
        assert_eq!(next_action, expected_action);
        stage = next;
        action = next_action;
    }
    assert_eq!(action, BootAction::TransferControl);
}

#[test]
fn any_fault_halts() {
    for stage in [
        BootStage::Init,
        BootStage::LoggerReady,
        BootStage::ImageLoaded,
        BootStage::LayoutPlanned,
        BootStage::StackReady,
        BootStage::ServicesExited,
        BootStage::ImagePlaced,
    ] {
        let (next, action) = boot_step(stage, BootEvent::Fault(BootError::Firmware(14)));
        assert_eq!(next, BootStage::Halted);
        assert_eq!(action, BootAction::HaltProcessor);
    }
}

#[test]
fn out_of_order_event_halts() {
    let (next, action) = boot_step(BootStage::Init, BootEvent::ArgsBuilt);
    assert_eq!(next, BootStage::Halted);
    assert_eq!(action, BootAction::HaltProcessor);
    let (next, _) = boot_step(BootStage::StackReady, BootEvent::GraphicsReady);
    assert_eq!(next, BootStage::Halted);
    let _ = action;
}

#[test]
fn image_magic_check() {
    assert!(image_magic_ok(&vec![0x7f, 0x45, 0x4c, 0x46, 0, 0, 0, 0]));
    assert!(image_magic_ok(&vec![0x7f, 0x45, 0x4c, 0x46]));
    assert!(!image_magic_ok(&vec![0x7f, 0x45, 0x4c]));
    assert!(!image_magic_ok(&vec![0x4d, 0x5a, 0, 0]));
    assert!(!image_magic_ok(&Vec::new()));
}

#[test]
fn chunked_read_runs_to_completion() {
    let mut reader = ChunkReader::new(600, 256);
    assert_eq!(reader.next_request(), Some((0, 256)));
    assert_eq!(reader.on_read(256), Ok(false));
    assert_eq!(reader.next_request(), Some((256, 256)));
    assert_eq!(reader.on_read(256), Ok(false));
    // The final request is bounded by what is left of the file.
    assert_eq!(reader.next_request(), Some((512, 88)));
    assert_eq!(reader.on_read(88), Ok(true));
    assert_eq!(reader.next_request(), None);
}

#[test]
fn short_read_is_its_own_error() {
    let mut reader = ChunkReader::new(600, 256);
    assert_eq!(reader.on_read(100), Err(BootError::ShortRead));
    // The failed request is not consumed.
    assert_eq!(reader.next_request(), Some((0, 256)));
}

#[test]
fn empty_file_needs_no_read() {
    let reader = ChunkReader::new(0, 256);
    assert_eq!(reader.next_request(), None);
}

#[test]
fn kernel_args_layout() {
    let framebuffer = FrameBufferInfo {
        address: 0x8000_0000,
        len: 0x20_0000,
        screen_width: 1024,
        screen_height: 768,
        pixels_per_scan_line: 1024,
    };
    let args = KernelArgs::build(framebuffer, 0x7F00_0000, 432, 0x10_0000, 0x4_0000);
    assert_eq!(args.kernel_ptr, 0x10_0000);
    assert_eq!(args.kernel_len, 0x4_0000);
    assert_eq!(args.memory_map, 0x7F00_0000);
    assert_eq!(args.memory_map_size, 432);
    assert_eq!(args.memory_map_type, 1);
    // The root-pointer slot is reserved but always absent.
    assert_eq!(args.rsd_ptr, 0);
    assert_eq!(args.framebuffer, framebuffer);
}

#[test]
fn disjoint_regions_are_recognized() {
    assert!(regions_disjoint(0x1000, 0x1000, 0x2000, 0x1000));
    assert!(regions_disjoint(0x2000, 0x1000, 0x1000, 0x1000));
    assert!(!regions_disjoint(0x1000, 0x1001, 0x2000, 0x1000));
    assert!(!regions_disjoint(0x1000, 0x4000, 0x2000, 0x1000));
    assert!(regions_disjoint(0x1000, 0, 0x1000, 0x1000));
}

#[test]
fn error_messages_name_the_failure() {
    assert_eq!(BootError::StaleMapKey.message(), "memory map key is stale");
    assert_eq!(BootError::ShortRead.message(), "short read from boot volume");
    assert_eq!(
        BootError::InvalidImage.message(),
        "kernel image is not a valid executable"
    );
    assert_eq!(BootError::UnsupportedAlignment.message(), "unsupported segment alignment");
    assert_eq!(BootError::Firmware(5).message(), "firmware call failed");
}
