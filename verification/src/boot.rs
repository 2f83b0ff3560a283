//! The boot orchestrator: the state machine that sequences firmware protocol
//! discovery, kernel image acquisition, layout planning, stack allocation,
//! the memory-map/exit protocol, image placement and the final control
//! transfer; the chunked-read protocol for the kernel file; the image format
//! check; and the argument record handed to the kernel.

use vstd::prelude::*;

use crate::error::BootError;
use crate::log::FrameBufferInfo;

verus! {

/// Where the boot stands. Every fatal failure leads to `Halted`; a completed
/// boot ends in `ArgsReady`, after which control transfers and nothing of
/// this process is observable anymore.
#[derive(Debug, Clone, Copy, PartialEq, Eq, Structural)]
pub enum BootStage {
    /// Nothing discovered yet.
    Init,
    /// The graphics output is found and the console can log.
    LoggerReady,
    /// The kernel file is read into memory in full.
    ImageLoaded,
    /// The image is validated and its loadable segments are enumerated.
    LayoutPlanned,
    /// The dedicated kernel stack is reserved.
    StackReady,
    /// The firmware services are exited; no firmware call is valid anymore.
    ServicesExited,
    /// Every loadable segment sits at its final physical location.
    ImagePlaced,
    /// The kernel argument record is populated; control transfers next.
    ArgsReady,
    /// A fatal failure: the processor halts after a diagnostic.
    Halted,
}

/// What happened during the action the current stage asked for.
#[derive(Debug, Clone, Copy, PartialEq, Eq, Structural)]
pub enum BootEvent {
    /// The graphics output protocol was located and opened.
    GraphicsReady,
    /// The kernel file was read in full.
    KernelLoaded,
    /// The image format check passed and the segments are enumerated.
    ImageValid,
    /// The dedicated stack region is reserved.
    StackAllocated,
    /// The memory-map/exit protocol completed.
    ExitSucceeded,
    /// Every loadable segment was copied and relocated.
    SegmentsPlaced,
    /// The kernel argument record is populated.
    ArgsBuilt,
    /// The step failed for this reason; the boot cannot continue.
    Fault(BootError),
}

/// What the caller must do next in a given stage.
#[derive(Debug, Clone, Copy, PartialEq, Eq, Structural)]
pub enum BootAction {
    /// Locate and open the graphics output protocol.
    LocateGraphics,
    /// Open the boot volume and read the kernel file in chunks.
    LoadKernelImage,
    /// Check the image format and enumerate loadable segments.
    ValidateImage,
    /// Reserve the dedicated kernel stack region.
    AllocateStack,
    /// Run the memory-map query and services-exit protocol.
    ExitFirmwareServices,
    /// Copy each loadable segment to its final location and relocate.
    PlaceSegments,
    /// Populate the kernel argument record.
    BuildKernelArgs,
    /// Switch to the kernel stack and jump to the entry point — never returns.
    TransferControl,
    /// Emit a diagnostic and halt the processor — never returns.
    HaltProcessor,
}

/// A stage after which no further event is ever consumed.
pub open spec fn stage_is_terminal(stage: BootStage) -> bool {
    stage is ArgsReady || stage is Halted
}

/// The action a stage asks for.
pub open spec fn spec_stage_action(stage: BootStage) -> BootAction {
    match stage {
        BootStage::Init => BootAction::LocateGraphics,
        BootStage::LoggerReady => BootAction::LoadKernelImage,
        BootStage::ImageLoaded => BootAction::ValidateImage,
        BootStage::LayoutPlanned => BootAction::AllocateStack,
        BootStage::StackReady => BootAction::ExitFirmwareServices,
        BootStage::ServicesExited => BootAction::PlaceSegments,
        BootStage::ImagePlaced => BootAction::BuildKernelArgs,
        BootStage::ArgsReady => BootAction::TransferControl,
        BootStage::Halted => BootAction::HaltProcessor,
    }
}

/// The transition relation: each stage advances on exactly the event its own
/// action produces; any fault, and any event out of order, is fatal.
pub open spec fn spec_boot_step(stage: BootStage, event: BootEvent) -> BootStage {
    match (stage, event) {
        (BootStage::Init, BootEvent::GraphicsReady) => BootStage::LoggerReady,
        (BootStage::LoggerReady, BootEvent::KernelLoaded) => BootStage::ImageLoaded,
        (BootStage::ImageLoaded, BootEvent::ImageValid) => BootStage::LayoutPlanned,
        (BootStage::LayoutPlanned, BootEvent::StackAllocated) => BootStage::StackReady,
        (BootStage::StackReady, BootEvent::ExitSucceeded) => BootStage::ServicesExited,
        (BootStage::ServicesExited, BootEvent::SegmentsPlaced) => BootStage::ImagePlaced,
        (BootStage::ImagePlaced, BootEvent::ArgsBuilt) => BootStage::ArgsReady,
        _ => BootStage::Halted,
    }
}

/// The action to take when the boot begins, before any event.
pub fn boot_start() -> (r: (BootStage, BootAction))
    ensures
        r.0 == BootStage::Init,
        r.1 == spec_stage_action(BootStage::Init),
{
    (BootStage::Init, BootAction::LocateGraphics)
}

/// Consumes the outcome of the current stage's action and returns the next
/// stage with the action it asks for.
pub fn boot_step(stage: BootStage, event: BootEvent) -> (r: (BootStage, BootAction))
    requires
        !stage_is_terminal(stage),
    ensures
        r.0 == spec_boot_step(stage, event),
        r.1 == spec_stage_action(r.0),
{
    let next = match (stage, event) {
        (BootStage::Init, BootEvent::GraphicsReady) => BootStage::LoggerReady,
        (BootStage::LoggerReady, BootEvent::KernelLoaded) => BootStage::ImageLoaded,
        (BootStage::ImageLoaded, BootEvent::ImageValid) => BootStage::LayoutPlanned,
        (BootStage::LayoutPlanned, BootEvent::StackAllocated) => BootStage::StackReady,
        (BootStage::StackReady, BootEvent::ExitSucceeded) => BootStage::ServicesExited,
        (BootStage::ServicesExited, BootEvent::SegmentsPlaced) => BootStage::ImagePlaced,
        (BootStage::ImagePlaced, BootEvent::ArgsBuilt) => BootStage::ArgsReady,
        _ => BootStage::Halted,
    };
    let action = match next {
        BootStage::Init => BootAction::LocateGraphics,
        BootStage::LoggerReady => BootAction::LoadKernelImage,
        BootStage::ImageLoaded => BootAction::ValidateImage,
        BootStage::LayoutPlanned => BootAction::AllocateStack,
        BootStage::StackReady => BootAction::ExitFirmwareServices,
        BootStage::ServicesExited => BootAction::PlaceSegments,
        BootStage::ImagePlaced => BootAction::BuildKernelArgs,
        BootStage::ArgsReady => BootAction::TransferControl,
        BootStage::Halted => BootAction::HaltProcessor,
    };
    (next, action)
}

/// Boot progress law: a step never leaves the machine where it was — every
/// event either advances the boot one stage or ends it in `Halted` — and a
/// faulted step always halts.
pub proof fn lemma_boot_step_progress(stage: BootStage, event: BootEvent)
    requires
        !stage_is_terminal(stage),
    ensures
        spec_boot_step(stage, event) != stage,
        (event matches BootEvent::Fault(_)) ==> spec_boot_step(stage, event) is Halted,
{
}

/// The expected first bytes of a kernel image: the magic of an executable in
/// the expected format.
pub open spec fn spec_image_magic_ok(b: Seq<u8>) -> bool {
    &&& b.len() >= 4
    &&& b[0] == 0x7f
    &&& b[1] == 0x45
    &&& b[2] == 0x4c
    &&& b[3] == 0x46
}

/// Checks the magic number of a loaded kernel image.
pub fn image_magic_ok(bytes: &Vec<u8>) -> (r: bool)
    ensures
        r == spec_image_magic_ok(bytes@),
{
    bytes.len() >= 4 && bytes[0] == 0x7f && bytes[1] == 0x45 && bytes[2] == 0x4c && bytes[3]
        == 0x46
}

/// The chunked-read protocol for the kernel file: hands out bounded read
/// requests in order and checks each answer, reporting a short read
/// distinctly from an outright failure.
#[derive(Debug, Clone, Copy, PartialEq, Eq, Structural)]
pub struct ChunkReader {
    /// Bytes the file holds in total.
    pub total: u64,
    /// The bound on one read request.
    pub chunk: u64,
    /// Bytes read so far; the offset of the next request.
    pub offset: u64,
}

impl ChunkReader {
    /// A reader that has not run past the end.
    pub open spec fn wf(self) -> bool {
        &&& self.chunk >= 1
        &&& self.offset <= self.total
    }

    /// The length the next read request asks for: a whole chunk, or the
    /// remainder at the end of the file.
    pub open spec fn spec_request_len(self) -> u64 {
        if self.total - self.offset < self.chunk {
            (self.total - self.offset) as u64
        } else {
            self.chunk
        }
    }

    pub fn new(total: u64, chunk: u64) -> (r: ChunkReader)
        requires
            chunk >= 1,
        ensures
            r == (ChunkReader { total, chunk, offset: 0 }),
            r.wf(),
    {
        ChunkReader { total, chunk, offset: 0 }
    }

    /// The next read request as offset and length, or nothing once the whole
    /// file is read.
    pub fn next_request(&self) -> (r: Option<(u64, u64)>)
        requires
            self.wf(),
        ensures
            r == if self.offset < self.total {
                Some((self.offset, self.spec_request_len()))
            } else {
                None::<(u64, u64)>
            },
    {
        if self.offset < self.total {
            let remaining = self.total - self.offset;
            let len = if remaining < self.chunk {
                remaining
            } else {
                self.chunk
            };
            Some((self.offset, len))
        } else {
            None
        }
    }

    /// Consumes the answer to the outstanding request: `read` is the byte
    /// count the firmware reported. A full answer advances the offset and
    /// says whether the file is now complete; fewer bytes than requested is a
    /// short read, reported as its own error, distinct from a firmware
    /// status error.
    pub fn on_read(&mut self, read: u64) -> (r: Result<bool, BootError>)
        requires
            old(self).wf(),
            old(self).offset < old(self).total,
        ensures
            final(self).wf(),
            read == old(self).spec_request_len() ==> r == Ok::<bool, BootError>(
                old(self).offset + read == old(self).total,
            ) && *final(self) == (ChunkReader {
                offset: (old(self).offset + read) as u64,
                ..*old(self)
            }),
            read != old(self).spec_request_len() ==> r == Err::<bool, BootError>(
                BootError::ShortRead,
            ) && *final(self) == *old(self),
    {
        let remaining = self.total - self.offset;
        let expected = if remaining < self.chunk {
            remaining
        } else {
            self.chunk
        };
        if read == expected {
            self.offset = self.offset + read;
            Ok(self.offset == self.total)
        } else {
            Err(BootError::ShortRead)
        }
    }
}

/// Two byte ranges that share no address.
pub open spec fn spec_regions_disjoint(a_start: u64, a_len: u64, b_start: u64, b_len: u64) -> bool {
    a_start + a_len <= b_start || b_start + b_len <= a_start
}

/// Checks that two byte ranges share no address: the kernel stack must not
/// overlap the kernel's load region or the page tables at the moment of
/// control transfer.
pub fn regions_disjoint(a_start: u64, a_len: u64, b_start: u64, b_len: u64) -> (r: bool)
    requires
        a_start + a_len <= u64::MAX,
        b_start + b_len <= u64::MAX,
    ensures
        r == spec_regions_disjoint(a_start, a_len, b_start, b_len),
{
    a_start + a_len <= b_start || b_start + b_len <= a_start
}

/// The memory-map format tag for a firmware-supplied map.
pub const MEMORY_MAP_TYPE_UEFI: u8 = 1;

/// The argument record delivered to the kernel: the framebuffer, the final
/// memory-map snapshot, the reserved root-table slot, and where the kernel
/// image sits. Addresses are plain numbers; the adapter that owns real
/// memory turns them into pointers at the boundary.
#[derive(Debug, Clone, Copy, PartialEq, Eq, Structural)]
pub struct KernelArgs {
    pub kernel_ptr: u64,
    pub kernel_len: u64,
    pub rsd_ptr: u64,
    pub memory_map: u64,
    pub memory_map_size: u64,
    pub memory_map_type: u8,
    pub framebuffer: FrameBufferInfo,
}

impl KernelArgs {
    /// Populates the record once, just before control transfer. The root
    /// pointer slot is reserved but always absent: no discovery logic exists
    /// for it.
    pub fn build(
        framebuffer: FrameBufferInfo,
        memory_map: u64,
        memory_map_size: u64,
        kernel_ptr: u64,
        kernel_len: u64,
    ) -> (r: KernelArgs)
        ensures
            r == (KernelArgs {
                kernel_ptr,
                kernel_len,
                rsd_ptr: 0,
                memory_map,
                memory_map_size,
                memory_map_type: MEMORY_MAP_TYPE_UEFI,
                framebuffer,
            }),
    {
        KernelArgs {
            kernel_ptr,
            kernel_len,
            rsd_ptr: 0,
            memory_map,
            memory_map_size,
            memory_map_type: MEMORY_MAP_TYPE_UEFI,
            framebuffer,
        }
    }
}

} // verus!
