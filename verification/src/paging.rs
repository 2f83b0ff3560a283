//! Page-table entry codec: decodes an opaque 64-bit paging-structure entry
//! into queryable fields, and builds one field-by-field with a fluent builder.
//!
//! An entry holds flag bits in its low twelve bits and above bit 58, and a
//! 4 KiB-aligned physical byte address in the bits between. The builder never
//! validates alignment: a misaligned address silently corrupts the flag bits
//! below the alignment boundary (a documented hazard, not a runtime error).

use vstd::prelude::*;

verus! {

pub const PRESENT_BIT: u64 = 0x1;
pub const WRITE_ALLOWED_BIT: u64 = 0x2;
pub const USER_ALLOWED_BIT: u64 = 0x4;
pub const WRITE_THROUGH_BIT: u64 = 0x8;
pub const CACHE_DISABLE_BIT: u64 = 0x10;
pub const ACCESSED_BIT: u64 = 0x20;
pub const WRITTEN_BIT: u64 = 0x40;
pub const PAGE_SIZE_BIT: u64 = 0x80;
pub const GLOBAL_BIT: u64 = 0x100;
pub const EXECUTE_DISABLE_BIT: u64 = 0x8000_0000_0000_0000;

/// True when every bit of `mask` is set in `v`.
pub open spec fn flag_set(v: u64, mask: u64) -> bool {
    v & mask == mask
}

/// `v` with the bits of `mask` forced to `set`.
pub open spec fn with_flag(v: u64, mask: u64, set: bool) -> u64 {
    if set {
        v | mask
    } else {
        v & !mask
    }
}

/// `v` with the bits of a physical byte address merged in. The caller must
/// keep the address 4 KiB-aligned; stray low bits land in the flag bits.
pub open spec fn with_address(v: u64, address: u64) -> u64 {
    v | address
}

/// `v` with a protection key merged into the four bits above bit 58. A key
/// wider than four bits spills into the execute-disable bit.
pub open spec fn with_protection_key(v: u64, key: u64) -> u64 {
    v | (key << 59)
}

/// The physical byte address stored in an entry, read with the top `max` bits
/// masked away first so that flag bits above the maximum physical-address
/// boundary are not absorbed into the address field.
pub open spec fn entry_address(v: u64, max: u8) -> u64 {
    ((v << max) >> ((12 + max) as u64)) << 12
}

/// The protection key stored in the bits above bit 58; bit four of the result
/// is the execute-disable bit, beyond the key's own width.
pub open spec fn entry_protection_key(v: u64) -> u8 {
    (v >> 59) as u8
}

/// A decoded 64-bit paging-structure entry.
#[derive(Debug, Clone, Copy)]
pub struct PageMapTable(pub u64);

impl View for PageMapTable {
    type V = u64;

    open spec fn view(&self) -> u64 {
        self.0
    }
}

impl PageMapTable {
    pub fn execute_disable(&self) -> (r: bool)
        ensures
            r == flag_set(self@, EXECUTE_DISABLE_BIT),
    {
        self.0 & EXECUTE_DISABLE_BIT == EXECUTE_DISABLE_BIT
    }

    pub fn protection_key(&self) -> (r: u8)
        ensures
            r == entry_protection_key(self@),
    {
        (self.0 >> 59) as u8
    }

    pub fn global(&self) -> (r: bool)
        ensures
            r == flag_set(self@, GLOBAL_BIT),
    {
        self.0 & GLOBAL_BIT == GLOBAL_BIT
    }

    /// The stored physical byte address, masked around the platform's maximum
    /// physical-address-bit boundary: `max` is 64 minus that bit count.
    pub fn address(&self, max: u8) -> (r: u64)
        requires
            max <= 51,
        ensures
            r == entry_address(self@, max),
    {
        ((self.0 << max) >> ((12 + max) as u64)) << 12
    }

    pub fn page_size(&self) -> (r: bool)
        ensures
            r == flag_set(self@, PAGE_SIZE_BIT),
    {
        self.0 & PAGE_SIZE_BIT == PAGE_SIZE_BIT
    }

    pub fn written(&self) -> (r: bool)
        ensures
            r == flag_set(self@, WRITTEN_BIT),
    {
        self.0 & WRITTEN_BIT == WRITTEN_BIT
    }

    pub fn accessed(&self) -> (r: bool)
        ensures
            r == flag_set(self@, ACCESSED_BIT),
    {
        self.0 & ACCESSED_BIT == ACCESSED_BIT
    }

    pub fn cache_disable(&self) -> (r: bool)
        ensures
            r == flag_set(self@, CACHE_DISABLE_BIT),
    {
        self.0 & CACHE_DISABLE_BIT == CACHE_DISABLE_BIT
    }

    pub fn write_through(&self) -> (r: bool)
        ensures
            r == flag_set(self@, WRITE_THROUGH_BIT),
    {
        self.0 & WRITE_THROUGH_BIT == WRITE_THROUGH_BIT
    }

    pub fn user_allowed(&self) -> (r: bool)
        ensures
            r == flag_set(self@, USER_ALLOWED_BIT),
    {
        self.0 & USER_ALLOWED_BIT == USER_ALLOWED_BIT
    }

    pub fn write_allowed(&self) -> (r: bool)
        ensures
            r == flag_set(self@, WRITE_ALLOWED_BIT),
    {
        self.0 & WRITE_ALLOWED_BIT == WRITE_ALLOWED_BIT
    }

    pub fn present(&self) -> (r: bool)
        ensures
            r == flag_set(self@, PRESENT_BIT),
    {
        self.0 & PRESENT_BIT == PRESENT_BIT
    }
}

impl From<u64> for PageMapTable {
    fn from(value: u64) -> (r: Self) {
        PageMapTable(value)
    }
}

impl vstd::std_specs::convert::FromSpecImpl<u64> for PageMapTable {
    open spec fn obeys_from_spec() -> bool {
        true
    }

    open spec fn from_spec(value: u64) -> Self {
        PageMapTable(value)
    }
}

impl From<PageMapTableBuilder> for PageMapTable {
    fn from(value: PageMapTableBuilder) -> (r: Self) {
        PageMapTable(value.0)
    }
}

impl vstd::std_specs::convert::FromSpecImpl<PageMapTableBuilder> for PageMapTable {
    open spec fn obeys_from_spec() -> bool {
        true
    }

    open spec fn from_spec(value: PageMapTableBuilder) -> Self {
        PageMapTable(value.0)
    }
}

/// Builds a 64-bit paging-structure entry field-by-field, without hand-rolled
/// bit arithmetic at each use site.
#[derive(Debug, Clone, Copy)]
pub struct PageMapTableBuilder(pub u64);

impl View for PageMapTableBuilder {
    type V = u64;

    open spec fn view(&self) -> u64 {
        self.0
    }
}

impl PageMapTableBuilder {
    pub fn execute_disable(self, set: bool) -> (r: PageMapTableBuilder)
        ensures
            r@ == with_flag(self@, EXECUTE_DISABLE_BIT, set),
    {
        if set {
            PageMapTableBuilder(self.0 | EXECUTE_DISABLE_BIT)
        } else {
            PageMapTableBuilder(self.0 & !EXECUTE_DISABLE_BIT)
        }
    }

    /// Merges a protection key into the bits above bit 58. A key wider than
    /// four bits spills into the execute-disable bit.
    pub fn protection_key(self, key: u64) -> (r: PageMapTableBuilder)
        ensures
            r@ == with_protection_key(self@, key),
    {
        PageMapTableBuilder(self.0 | (key << 59u64))
    }

    /// Merges a physical byte address into the entry. The caller must pass a
    /// 4 KiB-aligned address: the builder does not validate alignment, and the
    /// low twelve bits of a misaligned address silently corrupt the flag bits.
    pub fn address(self, address: u64) -> (r: PageMapTableBuilder)
        ensures
            r@ == with_address(self@, address),
    {
        PageMapTableBuilder(self.0 | address)
    }

    pub fn cache_disable(self, set: bool) -> (r: PageMapTableBuilder)
        ensures
            r@ == with_flag(self@, CACHE_DISABLE_BIT, set),
    {
        if set {
            PageMapTableBuilder(self.0 | CACHE_DISABLE_BIT)
        } else {
            PageMapTableBuilder(self.0 & !CACHE_DISABLE_BIT)
        }
    }

    pub fn write_through(self, set: bool) -> (r: PageMapTableBuilder)
        ensures
            r@ == with_flag(self@, WRITE_THROUGH_BIT, set),
    {
        if set {
            PageMapTableBuilder(self.0 | WRITE_THROUGH_BIT)
        } else {
            PageMapTableBuilder(self.0 & !WRITE_THROUGH_BIT)
        }
    }

    pub fn user_allowed(self, set: bool) -> (r: PageMapTableBuilder)
        ensures
            r@ == with_flag(self@, USER_ALLOWED_BIT, set),
    {
        if set {
            PageMapTableBuilder(self.0 | USER_ALLOWED_BIT)
        } else {
            PageMapTableBuilder(self.0 & !USER_ALLOWED_BIT)
        }
    }

    pub fn write_allowed(self, set: bool) -> (r: PageMapTableBuilder)
        ensures
            r@ == with_flag(self@, WRITE_ALLOWED_BIT, set),
    {
        if set {
            PageMapTableBuilder(self.0 | WRITE_ALLOWED_BIT)
        } else {
            PageMapTableBuilder(self.0 & !WRITE_ALLOWED_BIT)
        }
    }

    pub fn present(self, set: bool) -> (r: PageMapTableBuilder)
        ensures
            r@ == with_flag(self@, PRESENT_BIT, set),
    {
        if set {
            PageMapTableBuilder(self.0 | PRESENT_BIT)
        } else {
            PageMapTableBuilder(self.0 & !PRESENT_BIT)
        }
    }

    pub fn page_size(self, set: bool) -> (r: PageMapTableBuilder)
        ensures
            r@ == with_flag(self@, PAGE_SIZE_BIT, set),
    {
        if set {
            PageMapTableBuilder(self.0 | PAGE_SIZE_BIT)
        } else {
            PageMapTableBuilder(self.0 & !PAGE_SIZE_BIT)
        }
    }
}

impl From<PageMapTable> for PageMapTableBuilder {
    fn from(value: PageMapTable) -> (r: Self) {
        PageMapTableBuilder(value.0)
    }
}

impl vstd::std_specs::convert::FromSpecImpl<PageMapTable> for PageMapTableBuilder {
    open spec fn obeys_from_spec() -> bool {
        true
    }

    open spec fn from_spec(value: PageMapTable) -> Self {
        PageMapTableBuilder(value.0)
    }
}

impl From<u64> for PageMapTableBuilder {
    fn from(value: u64) -> (r: Self) {
        PageMapTableBuilder(value)
    }
}

impl vstd::std_specs::convert::FromSpecImpl<u64> for PageMapTableBuilder {
    open spec fn obeys_from_spec() -> bool {
        true
    }

    open spec fn from_spec(value: u64) -> Self {
        PageMapTableBuilder(value)
    }
}

impl From<PageMapTableBuilder> for u64 {
    fn from(value: PageMapTableBuilder) -> (r: Self) {
        value.0
    }
}

impl vstd::std_specs::convert::FromSpecImpl<PageMapTableBuilder> for u64 {
    open spec fn obeys_from_spec() -> bool {
        true
    }

    open spec fn from_spec(value: PageMapTableBuilder) -> Self {
        value.0
    }
}

/// Round-trip law: an entry built from a present/writable/huge choice and a
/// page-aligned address that fits below the maximum physical-address boundary
/// decodes back to exactly those fields.
pub proof fn lemma_entry_round_trip(present: bool, writable: bool, huge: bool, addr: u64, max: u8)
    requires
        addr % 0x1000 == 0,
        12 <= max <= 51,
        addr < (1u64 << ((64 - max) as u64)),
    ensures
        ({
            let e = with_flag(
                with_flag(with_flag(with_address(0, addr), PAGE_SIZE_BIT, huge), WRITE_ALLOWED_BIT, writable),
                PRESENT_BIT,
                present,
            );
            &&& flag_set(e, PRESENT_BIT) == present
            &&& flag_set(e, WRITE_ALLOWED_BIT) == writable
            &&& flag_set(e, PAGE_SIZE_BIT) == huge
            &&& entry_address(e, max) == addr
        }),
{
    let e = with_flag(
        with_flag(with_flag(with_address(0, addr), PAGE_SIZE_BIT, huge), WRITE_ALLOWED_BIT, writable),
        PRESENT_BIT,
        present,
    );
    assert((flag_set(e, PRESENT_BIT) == present) && (flag_set(e, WRITE_ALLOWED_BIT) == writable)
        && (flag_set(e, PAGE_SIZE_BIT) == huge) && (entry_address(e, max) == addr)) by (bit_vector)
        requires
            addr % 0x1000 == 0,
            12 <= max <= 51,
            addr < (1u64 << ((64 - max) as u64)),
            e == with_flag(
                with_flag(with_flag(with_address(0, addr), PAGE_SIZE_BIT, huge), WRITE_ALLOWED_BIT, writable),
                PRESENT_BIT,
                present,
            ),
    ;
}

/// Misalignment hazard: merging a misaligned address is the same as merging
/// its aligned part after folding the stray low bits into the flag bits, and
/// the corruption is confined to the twelve bits below the alignment boundary.
pub proof fn lemma_misaligned_address_corrupts_flags_only(v: u64, addr: u64)
    ensures
        with_address(v, addr) == with_address(v | (addr & 0xfff), addr & !0xfff),
        with_address(v, addr) >> 12 == with_address(v, addr & !0xfff) >> 12,
{
    assert(with_address(v, addr) == with_address(v | (addr & 0xfff), addr & !0xfff)
        && with_address(v, addr) >> 12 == with_address(v, addr & !0xfff) >> 12) by (bit_vector);
}

} // verus!
