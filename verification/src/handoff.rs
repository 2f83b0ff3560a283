//! The memory-map/exit coordinator: sizes the map buffer with a safety
//! margin, tracks the one map key a services-exit may use, treats every
//! firmware allocation as invalidating that key, and bounds the
//! re-query-and-retry loop after a rejected exit.
//!
//! The firmware protocol must run in order: query the needed size, allocate
//! the buffer, query the map into it, then exit with the key that query
//! returned — with no allocation in between. Each step is a method whose
//! precondition admits only the right phase, so a caller cannot run the
//! protocol out of order, and nothing can be recorded once the exit is done.

use vstd::prelude::*;

use crate::error::BootError;
use crate::memmap::DESCRIPTOR_BYTES;
use crate::memmap::EfiMemoryDescriptor;
use crate::memmap::parse_memory_map;
use crate::memmap::spec_descriptor_at;

verus! {

/// How far the exit protocol has come.
#[derive(Debug, Clone, Copy, PartialEq, Eq, Structural)]
pub enum ExitPhase {
    /// Nothing queried yet; the next step is the size query.
    Idle,
    /// The needed buffer size is known; the next step is to allocate and
    /// query the map into the buffer.
    Sized,
    /// A map snapshot and its key are captured; the next step is the exit
    /// call, with no allocation in between.
    Captured,
    /// The exit succeeded: no firmware call is valid anymore.
    Done,
    /// The retry budget is exhausted; the boot must halt.
    Failed,
}

/// An ordered memory-map snapshot together with the key that binds it to the
/// one permitted services-exit call.
pub struct MemoryMapSnapshot {
    pub descriptors: Vec<EfiMemoryDescriptor>,
    pub map_key: u64,
}

/// The coordinator for the memory-map query and services-exit protocol.
#[derive(Debug, Clone, Copy, PartialEq, Eq, Structural)]
pub struct ExitCoordinator {
    pub phase: ExitPhase,
    /// Buffer size the firmware asked for in the size query.
    pub needed: u64,
    /// Stride of one descriptor, as the firmware reports it.
    pub descriptor_size: u64,
    /// Allocated buffer length: the needed size plus a two-descriptor margin.
    pub buffer_len: u64,
    /// The key of the most recent map query; the only key an exit may use.
    pub map_key: u64,
    /// Bytes of the buffer the firmware filled in the map query.
    pub map_size: u64,
    /// Exit attempts left after a stale-key rejection.
    pub retries_left: u32,
}

impl ExitCoordinator {
    /// True until the exit succeeds; afterwards no firmware-backed call, and
    /// in particular no allocation, is permitted.
    pub open spec fn firmware_calls_allowed(self) -> bool {
        !(self.phase is Done)
    }

    pub fn new(retry_budget: u32) -> (c: ExitCoordinator)
        ensures
            c == (ExitCoordinator {
                phase: ExitPhase::Idle,
                needed: 0,
                descriptor_size: 0,
                buffer_len: 0,
                map_key: 0,
                map_size: 0,
                retries_left: retry_budget,
            }),
    {
        ExitCoordinator {
            phase: ExitPhase::Idle,
            needed: 0,
            descriptor_size: 0,
            buffer_len: 0,
            map_key: 0,
            map_size: 0,
            retries_left: retry_budget,
        }
    }

    /// Records the firmware's answer to the size query and returns the buffer
    /// length to allocate: the reported size plus a two-descriptor margin, to
    /// tolerate the map growth that the allocation itself causes.
    pub fn record_size_report(&mut self, needed: u64, descriptor_size: u64) -> (buffer_len: u64)
        requires
            old(self).phase is Idle,
            needed + 2 * descriptor_size <= u64::MAX,
        ensures
            buffer_len == needed + 2 * descriptor_size,
            *final(self) == (ExitCoordinator {
                phase: ExitPhase::Sized,
                needed,
                descriptor_size,
                buffer_len,
                ..*old(self)
            }),
    {
        let buffer_len = needed + 2 * descriptor_size;
        self.phase = ExitPhase::Sized;
        self.needed = needed;
        self.descriptor_size = descriptor_size;
        self.buffer_len = buffer_len;
        buffer_len
    }

    /// Records the firmware's answer to the map query: the key that the one
    /// permitted exit call must present, the descriptor stride, and how many
    /// bytes of the buffer were filled.
    pub fn record_map_report(&mut self, map_key: u64, descriptor_size: u64, map_size: u64)
        requires
            old(self).phase is Sized,
        ensures
            *final(self) == (ExitCoordinator {
                phase: ExitPhase::Captured,
                map_key,
                descriptor_size,
                map_size,
                ..*old(self)
            }),
    {
        self.phase = ExitPhase::Captured;
        self.map_key = map_key;
        self.descriptor_size = descriptor_size;
        self.map_size = map_size;
    }

    /// Records an allocation or deallocation in the firmware-managed heap.
    /// Any such call invalidates a captured map key: the map must be queried
    /// again before the exit. After a successful exit no allocation is
    /// permitted at all, which this method's precondition enforces.
    pub fn note_allocation(&mut self)
        requires
            old(self).firmware_calls_allowed(),
        ensures
            *final(self) == (ExitCoordinator {
                phase: if old(self).phase is Captured {
                    ExitPhase::Sized
                } else {
                    old(self).phase
                },
                ..*old(self)
            }),
    {
        if let ExitPhase::Captured = self.phase {
            self.phase = ExitPhase::Sized;
        }
    }

    /// The check before the one services-exit call: approves exactly the key
    /// of the most recent map query, and reports any other key as a
    /// handoff-protocol error rather than letting the exit proceed.
    pub fn authorize_exit(&self, presented_key: u64) -> (r: Result<u64, BootError>)
        requires
            self.phase is Captured,
        ensures
            r == if presented_key == self.map_key {
                Ok::<u64, BootError>(presented_key)
            } else {
                Err::<u64, BootError>(BootError::StaleMapKey)
            },
    {
        if presented_key == self.map_key {
            Ok(presented_key)
        } else {
            Err(BootError::StaleMapKey)
        }
    }

    /// Records whether the firmware accepted the exit call. On success the
    /// protocol is done and firmware calls are over. On a rejection the key
    /// was stale: the coordinator returns to the query phase while the retry
    /// budget lasts, and fails once it is spent.
    pub fn record_exit_outcome(&mut self, accepted: bool) -> (retry: bool)
        requires
            old(self).phase is Captured,
        ensures
            accepted ==> *final(self) == (ExitCoordinator { phase: ExitPhase::Done, ..*old(self) })
                && !retry,
            !accepted && old(self).retries_left > 0 ==> *final(self) == (ExitCoordinator {
                phase: ExitPhase::Sized,
                retries_left: (old(self).retries_left - 1) as u32,
                ..*old(self)
            }) && retry,
            !accepted && old(self).retries_left == 0 ==> *final(self) == (ExitCoordinator {
                phase: ExitPhase::Failed,
                ..*old(self)
            }) && !retry,
    {
        if accepted {
            self.phase = ExitPhase::Done;
            false
        } else if self.retries_left > 0 {
            self.retries_left = self.retries_left - 1;
            self.phase = ExitPhase::Sized;
            true
        } else {
            self.phase = ExitPhase::Failed;
            false
        }
    }

    /// Materializes the captured buffer into the definitive snapshot handed
    /// to the kernel: the descriptors parsed at the firmware-reported stride,
    /// and the key of the query that produced them.
    pub fn capture_snapshot(&self, bytes: &Vec<u8>) -> (snap: MemoryMapSnapshot)
        requires
            self.phase is Captured || self.phase is Done,
            DESCRIPTOR_BYTES <= self.descriptor_size <= usize::MAX,
        ensures
            snap.map_key == self.map_key,
            snap.descriptors@.len() == bytes@.len() as int / self.descriptor_size as int,
            forall|k: int|
                0 <= k < snap.descriptors@.len() ==> snap.descriptors@[k] == spec_descriptor_at(
                    bytes@,
                    k * self.descriptor_size,
                ),
    {
        MemoryMapSnapshot {
            descriptors: parse_memory_map(bytes, self.descriptor_size as usize),
            map_key: self.map_key,
        }
    }
}

} // verus!
