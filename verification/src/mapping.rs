//! Page-table builders: an identity mapping of the first N gigabytes with
//! large pages, and a minimal mapping covering only a kernel's loadable
//! segments, one leaf entry per page.

use vstd::prelude::*;

use crate::error::BootError;
use crate::paging::EXECUTE_DISABLE_BIT;
use crate::paging::PAGE_SIZE_BIT;
use crate::paging::PRESENT_BIT;
use crate::paging::WRITE_ALLOWED_BIT;
use crate::paging::PageMapTableBuilder;
use crate::paging::entry_address;
use crate::paging::flag_set;
use crate::paging::with_address;
use crate::paging::with_flag;

verus! {

use vstd::arithmetic::div_mod::lemma_fundamental_div_mod;
use vstd::arithmetic::div_mod::lemma_fundamental_div_mod_converse_div;
use vstd::arithmetic::div_mod::lemma_mod_bound;

/// Bytes in one leaf page.
pub const PAGE_BYTES: u64 = 0x1000;

/// Bytes in one gigabyte, the span of one large second-level entry.
pub const GIGABYTE_BYTES: u64 = 0x4000_0000;

/// Entries in one table level.
pub const TABLE_ENTRIES: usize = 512;

/// The top-level entry of the identity mapping: it points at the second-level
/// table, which lives one page above the table's own base address.
pub open spec fn spec_top_entry(base: u64) -> u64 {
    with_flag(with_address(0, (base + PAGE_BYTES) as u64), PRESENT_BIT, true)
}

/// The second-level entry mapping gigabyte `i` onto itself: present, writable,
/// executable, with the page-size bit marking it as one large page.
pub open spec fn spec_gig_entry(i: int) -> u64 {
    with_flag(
        with_flag(
            with_flag(
                with_flag(with_address(0, (i * GIGABYTE_BYTES) as u64), WRITE_ALLOWED_BIT, true),
                EXECUTE_DISABLE_BIT,
                false,
            ),
            PAGE_SIZE_BIT,
            true,
        ),
        PRESENT_BIT,
        true,
    )
}

/// Builds a two-level identity mapping of the first `gigabytes` gigabytes of
/// physical memory, using one large page per gigabyte. The result holds the
/// top-level table in its first 512 slots and the second level in the next
/// 512; `base` is the physical address the table will be installed at, needed
/// because the top level points at the second.
pub fn identity_paging(base: u64, gigabytes: usize) -> (table: Vec<u64>)
    requires
        base % PAGE_BYTES == 0,
        base + PAGE_BYTES < 0x10_0000_0000_0000,
        8 <= gigabytes <= TABLE_ENTRIES,
    ensures
        table@.len() == 2 * TABLE_ENTRIES,
        table@[0] == spec_top_entry(base),
        forall|i: int| 1 <= i < 512 ==> table@[i] == 0,
        forall|i: int| 512 <= i < 512 + gigabytes ==> table@[i] == spec_gig_entry(i - 512),
        forall|i: int| 512 + gigabytes <= i < 1024 ==> table@[i] == 0,
{
    let mut table: Vec<u64> = Vec::new();
    while table.len() < 1024
        invariant
            table@.len() <= 1024,
            forall|i: int| 0 <= i < table@.len() ==> table@[i] == 0,
        decreases 1024 - table@.len(),
    {
        table.push(0);
    }

    let top_entry: u64 = u64::from(
        PageMapTableBuilder::from(0u64).address(base + PAGE_BYTES).present(true),
    );
    table.set(0, top_entry);

    let mut i: usize = 0;
    while i < gigabytes
        invariant
            8 <= gigabytes <= 512,
            i <= gigabytes,
            table@.len() == 1024,
            table@[0] == spec_top_entry(base),
            forall|j: int| 1 <= j < 512 ==> table@[j] == 0,
            forall|j: int| 512 <= j < 512 + i ==> table@[j] == spec_gig_entry(j - 512),
            forall|j: int| 512 + i <= j < 1024 ==> table@[j] == 0,
        decreases gigabytes - i,
    {
        let entry: u64 = u64::from(
            PageMapTableBuilder::from(0u64)
                .address((i as u64) * GIGABYTE_BYTES)
                .write_allowed(true)
                .execute_disable(false)
                .page_size(true)
                .present(true),
        );
        table.set(512 + i, entry);
        i = i + 1;
    }

    table
}

/// Identity-mapping entry law: every second-level entry of the identity
/// mapping is present, writable, executable and marked as a large page, and
/// its stored address is exactly the base of its own gigabyte.
pub proof fn lemma_gigabyte_entry_fields(i: int, max: u8)
    requires
        0 <= i < 512,
        12 <= max <= 25,
    ensures
        flag_set(spec_gig_entry(i), PRESENT_BIT),
        flag_set(spec_gig_entry(i), WRITE_ALLOWED_BIT),
        flag_set(spec_gig_entry(i), PAGE_SIZE_BIT),
        !flag_set(spec_gig_entry(i), EXECUTE_DISABLE_BIT),
        entry_address(spec_gig_entry(i), max) == i * GIGABYTE_BYTES,
{
    let a = (i * GIGABYTE_BYTES) as u64;
    assert(0 <= i * 0x4000_0000 <= 511 * 0x4000_0000);
    assert(i * 0x4000_0000 == 0x1000 * (i * 0x4_0000)) by (nonlinear_arith);
    assert(a == 0x1000 * (i * 0x4_0000));
    assert(a % 0x1000 == 0) by {
        vstd::arithmetic::div_mod::lemma_mod_multiples_basic(i * 0x4_0000, 0x1000);
    }
    let e = spec_gig_entry(i);
    assert(flag_set(e, PRESENT_BIT) && flag_set(e, WRITE_ALLOWED_BIT) && flag_set(e, PAGE_SIZE_BIT)
        && !flag_set(e, EXECUTE_DISABLE_BIT) && entry_address(e, max) == a) by (bit_vector)
        requires
            a % 0x1000 == 0,
            a < 0x80_0000_0000,
            12 <= max <= 25,
            e == with_flag(
                with_flag(
                    with_flag(with_flag(with_address(0, a), WRITE_ALLOWED_BIT, true), EXECUTE_DISABLE_BIT, false),
                    PAGE_SIZE_BIT,
                    true,
                ),
                PRESENT_BIT,
                true,
            ),
    ;
}

/// An all-zero entry is not present.
pub proof fn lemma_zero_entry_not_present()
    ensures
        !flag_set(0u64, PRESENT_BIT),
{
    assert(!flag_set(0u64, PRESENT_BIT)) by (bit_vector);
}

/// Identity-mapping coverage law: every physical address below the mapped
/// bound falls inside the gigabyte range of exactly one second-level entry —
/// no gaps, no overlaps.
pub proof fn lemma_identity_mapping_covers(t: Seq<u64>, n: int, p: u64, max: u8)
    requires
        t.len() == 1024,
        8 <= n <= 512,
        forall|i: int| 512 <= i < 512 + n ==> t[i] == spec_gig_entry(i - 512),
        p < n * GIGABYTE_BYTES,
        12 <= max <= 25,
    ensures
        ({
            let i = (p as int) / (GIGABYTE_BYTES as int);
            &&& 0 <= i < n
            &&& flag_set(t[512 + i], PRESENT_BIT)
            &&& flag_set(t[512 + i], WRITE_ALLOWED_BIT)
            &&& flag_set(t[512 + i], PAGE_SIZE_BIT)
            &&& entry_address(t[512 + i], max) <= p < entry_address(t[512 + i], max) + GIGABYTE_BYTES
            &&& forall|j: int|
                512 <= j < 512 + n && j != 512 + i ==> !(#[trigger] entry_address(t[j], max) <= p
                    < entry_address(t[j], max) + GIGABYTE_BYTES)
        }),
{
    let c = GIGABYTE_BYTES as int;
    let i = (p as int) / c;
    lemma_fundamental_div_mod(p as int, c);
    lemma_mod_bound(p as int, c);
    assert(c * i <= p < c * i + c);
    assert(0 <= i < n);
    lemma_gigabyte_entry_fields(i, max);
    assert forall|j: int|
        512 <= j < 512 + n && j != 512 + i implies !(#[trigger] entry_address(t[j], max) <= p
            < entry_address(t[j], max) + GIGABYTE_BYTES) by {
        lemma_gigabyte_entry_fields(j - 512, max);
        if entry_address(t[j], max) <= p < entry_address(t[j], max) + GIGABYTE_BYTES {
            lemma_fundamental_div_mod_converse_div(p as int, c, j - 512, p - (j - 512) * c);
        }
    }
}

/// One loadable segment of a kernel image, reduced to the plain values the
/// layout logic reads: virtual address, load-time physical address, sizes and
/// the segment's required alignment.
#[derive(Debug, Clone, Copy, PartialEq, Eq, Structural)]
pub struct Segment {
    pub v_addr: u64,
    pub p_addr: u64,
    pub file_size: u64,
    pub memory_size: u64,
    pub alignment: u64,
}

/// One installed leaf mapping: the virtual page address and the leaf entry
/// holding its physical page.
#[derive(Debug, Clone, Copy, PartialEq, Eq, Structural)]
pub struct LeafMapping {
    pub virt: u64,
    pub entry: u64,
}

/// A segment the minimal mapping can lay out: page-aligned addresses, and an
/// extent that stays below the address-space limit.
pub open spec fn segment_wf(s: Segment) -> bool {
    &&& s.v_addr % PAGE_BYTES == 0
    &&& s.p_addr % PAGE_BYTES == 0
    &&& s.v_addr + s.memory_size <= u64::MAX
    &&& s.p_addr + s.memory_size <= u64::MAX
}

/// Pages needed to hold `memory_size` bytes: the size divided by the page
/// size, rounded up.
pub open spec fn spec_page_count(memory_size: u64) -> int {
    (memory_size + (PAGE_BYTES - 1)) as int / (PAGE_BYTES as int)
}

/// The leaf entry for page `j` of a segment loaded at `p_addr`: present,
/// writable, holding the physical address of that page.
pub open spec fn spec_leaf_entry(p_addr: u64, j: int) -> u64 {
    with_flag(
        with_flag(with_address(0, (p_addr + j * PAGE_BYTES) as u64), WRITE_ALLOWED_BIT, true),
        PRESENT_BIT,
        true,
    )
}

/// The leaf mappings of one segment, one per page, in ascending page order.
pub open spec fn seg_leaves(s: Segment) -> Seq<LeafMapping> {
    Seq::new(
        spec_page_count(s.memory_size) as nat,
        |j: int|
            LeafMapping {
                virt: (s.v_addr + j * PAGE_BYTES) as u64,
                entry: spec_leaf_entry(s.p_addr, j),
            },
    )
}

/// The leaf mappings of a segment list, segment by segment.
pub open spec fn all_leaves(segs: Seq<Segment>) -> Seq<LeafMapping>
    decreases segs.len(),
{
    if segs.len() == 0 {
        Seq::empty()
    } else {
        all_leaves(segs.drop_last()) + seg_leaves(segs.last())
    }
}

/// The total page count of a segment list.
pub open spec fn total_pages(segs: Seq<Segment>) -> int
    decreases segs.len(),
{
    if segs.len() == 0 {
        0
    } else {
        total_pages(segs.drop_last()) + spec_page_count(segs.last().memory_size)
    }
}

/// Ceiling division law for the page count: rounding up adds one page exactly
/// when the size is not a whole number of pages.
proof fn lemma_page_count_split(memory_size: u64)
    ensures
        spec_page_count(memory_size) == memory_size as int / 0x1000 + if memory_size % 0x1000 != 0 {
            1int
        } else {
            0int
        },
        memory_size > 0 ==> (spec_page_count(memory_size) - 1) * 0x1000 < memory_size,
        spec_page_count(memory_size) * 0x1000 < memory_size + 0x1000,
{
    let q = memory_size as int / 0x1000;
    let r = memory_size as int % 0x1000;
    lemma_fundamental_div_mod(memory_size as int, 0x1000);
    lemma_mod_bound(memory_size as int, 0x1000);
    if r == 0 {
        lemma_fundamental_div_mod_converse_div(memory_size as int + 0xfff, 0x1000, q, 0xfff);
    } else {
        lemma_fundamental_div_mod_converse_div(memory_size as int + 0xfff, 0x1000, q + 1, r - 1);
    }
}

/// Computes the pages needed to hold `memory_size` bytes.
pub fn page_count(memory_size: u64) -> (r: u64)
    ensures
        r == spec_page_count(memory_size),
{
    proof {
        lemma_page_count_split(memory_size);
        lemma_fundamental_div_mod(memory_size as int, 0x1000);
        lemma_mod_bound(memory_size as int, 0x1000);
    }
    memory_size / PAGE_BYTES + if memory_size % PAGE_BYTES != 0 {
        1
    } else {
        0
    }
}

/// Walks a kernel's loadable segments and installs one leaf entry per page,
/// each pointing at the segment's load-time physical address plus the page's
/// offset. Construction aborts on any segment whose alignment is not exactly
/// the platform page size: the layout cannot represent it.
pub fn minimal_mapping(segments: &Vec<Segment>) -> (r: Result<Vec<LeafMapping>, BootError>)
    requires
        forall|i: int| 0 <= i < segments@.len() ==> segment_wf(#[trigger] segments@[i]),
    ensures
        match r {
            Ok(leaves) => {
                &&& leaves@ == all_leaves(segments@)
                &&& forall|i: int|
                    0 <= i < segments@.len() ==> (#[trigger] segments@[i]).alignment == PAGE_BYTES
            },
            Err(e) => {
                &&& e == BootError::UnsupportedAlignment
                &&& exists|i: int|
                    0 <= i < segments@.len() && (#[trigger] segments@[i]).alignment != PAGE_BYTES
            },
        },
{
    let mut leaves: Vec<LeafMapping> = Vec::new();
    let mut i: usize = 0;
    while i < segments.len()
        invariant
            i <= segments@.len(),
            forall|k: int| 0 <= k < segments@.len() ==> segment_wf(#[trigger] segments@[k]),
            forall|k: int| 0 <= k < i ==> (#[trigger] segments@[k]).alignment == PAGE_BYTES,
            leaves@ == all_leaves(segments@.subrange(0, i as int)),
        decreases segments@.len() - i,
    {
        let seg = segments[i];
        if seg.alignment != PAGE_BYTES {
            return Err(BootError::UnsupportedAlignment);
        }
        let pages = page_count(seg.memory_size);
        proof {
            lemma_page_count_split(seg.memory_size);
        }
        let mut j: u64 = 0;
        while j < pages
            invariant
                j <= pages,
                pages == spec_page_count(seg.memory_size),
                segment_wf(seg),
                seg.memory_size > 0 ==> (pages - 1) * 0x1000 < seg.memory_size,
                leaves@ == all_leaves(segments@.subrange(0, i as int)) + seg_leaves(seg).subrange(
                    0,
                    j as int,
                ),
            decreases pages - j,
        {
            let virt = seg.v_addr + j * PAGE_BYTES;
            let entry: u64 = u64::from(
                PageMapTableBuilder::from(0u64)
                    .address(seg.p_addr + j * PAGE_BYTES)
                    .write_allowed(true)
                    .present(true),
            );
            leaves.push(LeafMapping { virt, entry });
            proof {
                assert(seg_leaves(seg).subrange(0, j + 1) =~= seg_leaves(seg).subrange(0, j as int)
                    + seq![seg_leaves(seg)[j as int]]);
            }
            j = j + 1;
        }
        proof {
            assert(seg_leaves(seg).subrange(0, pages as int) =~= seg_leaves(seg));
            let sub = segments@.subrange(0, i as int + 1);
            assert(sub.drop_last() =~= segments@.subrange(0, i as int));
            assert(sub.last() == segments@[i as int]);
        }
        i = i + 1;
    }
    proof {
        assert(segments@.subrange(0, segments@.len() as int) =~= segments@);
    }
    Ok(leaves)
}

/// One past the highest virtual address any segment occupies.
pub open spec fn spec_kernel_footprint(segs: Seq<Segment>) -> int
    decreases segs.len(),
{
    if segs.len() == 0 {
        0
    } else {
        let rest = spec_kernel_footprint(segs.drop_last());
        let this = segs.last().v_addr + segs.last().memory_size;
        if this > rest {
            this
        } else {
            rest
        }
    }
}

/// Computes the kernel's total memory footprint: one past the highest
/// virtual address any loadable segment occupies.
pub fn kernel_footprint(segments: &Vec<Segment>) -> (r: u64)
    requires
        forall|i: int| 0 <= i < segments@.len() ==> segment_wf(#[trigger] segments@[i]),
    ensures
        r == spec_kernel_footprint(segments@),
{
    let mut r: u64 = 0;
    let mut i: usize = 0;
    while i < segments.len()
        invariant
            i <= segments@.len(),
            forall|k: int| 0 <= k < segments@.len() ==> segment_wf(#[trigger] segments@[k]),
            r == spec_kernel_footprint(segments@.subrange(0, i as int)),
        decreases segments@.len() - i,
    {
        proof {
            assert(segments@.subrange(0, i as int + 1).drop_last() =~= segments@.subrange(
                0,
                i as int,
            ));
        }
        let this = segments[i].v_addr + segments[i].memory_size;
        if this > r {
            r = this;
        }
        i = i + 1;
    }
    proof {
        assert(segments@.subrange(0, segments@.len() as int) =~= segments@);
    }
    r
}

/// Minimal-mapping count law: the number of installed leaf entries equals the
/// sum over the segments of their memory sizes divided by the page size,
/// rounded up.
pub proof fn lemma_minimal_mapping_count(segs: Seq<Segment>)
    ensures
        all_leaves(segs).len() == total_pages(segs),
    decreases segs.len(),
{
    if segs.len() > 0 {
        lemma_minimal_mapping_count(segs.drop_last());
    }
}

/// The entry that links one table level to the next, or maps the table's own
/// page in the self-map slot: present, writable, holding the child page's
/// physical address.
pub open spec fn spec_table_link(addr: u64) -> u64 {
    spec_leaf_entry(addr, 0)
}

/// The flat index of the leaf-table entry for a virtual page address below
/// one gigabyte: the three upper levels occupy the first three pages of the
/// assembled table, and the leaf pages follow in order.
pub open spec fn leaf_slot(virt: u64) -> int {
    3 * 512 + (virt >> 12)
}

/// Leaves an assembled four-level table can hold: each virtual address below
/// one gigabyte, page-aligned, and no two leaves on the same virtual page.
pub open spec fn leaves_valid(s: Seq<LeafMapping>) -> bool {
    &&& forall|i: int|
        0 <= i < s.len() ==> (#[trigger] s[i]).virt < 0x4000_0000 && s[i].virt % 0x1000 == 0
    &&& forall|i: int, j: int| 0 <= i < j < s.len() ==> s[i].virt != s[j].virt
}

/// How many leaf-level pages the assembled table needs: one past the highest
/// two-megabyte slot any leaf touches.
pub open spec fn l1_page_count(s: Seq<LeafMapping>) -> int
    decreases s.len(),
{
    if s.len() == 0 {
        0
    } else {
        let rest = l1_page_count(s.drop_last());
        let this = (s.last().virt >> 21) as int + 1;
        if this > rest {
            this
        } else {
            rest
        }
    }
}

/// The exact shape of an assembled four-level table over its leaves: the top
/// level links the third level and self-maps its own page in the last
/// reserved slot, each level links the next, every leaf entry sits in its
/// slot, and everything else is zero.
pub open spec fn minimal_tables_shape(t: Seq<u64>, base: u64, s: Seq<LeafMapping>) -> bool {
    &&& t.len() == (3 + l1_page_count(s)) * 512
    &&& t[0] == spec_table_link((base + 0x1000) as u64)
    &&& t[511] == spec_table_link(base)
    &&& forall|idx: int| 1 <= idx < 511 ==> t[idx] == 0
    &&& t[512] == spec_table_link((base + 0x2000) as u64)
    &&& forall|idx: int| 513 <= idx < 1024 ==> t[idx] == 0
    &&& forall|idx: int|
        1024 <= idx < 1024 + l1_page_count(s) ==> t[idx] == spec_table_link(
            (base + 0x3000 + (idx - 1024) * 0x1000) as u64,
        )
    &&& forall|idx: int| 1024 + l1_page_count(s) <= idx < 1536 ==> t[idx] == 0
    &&& forall|k: int|
        0 <= k < s.len() ==> t[leaf_slot((#[trigger] s[k]).virt)] == s[k].entry
    &&& forall|idx: int|
        1536 <= idx < t.len() && (forall|k: int|
            0 <= k < s.len() ==> leaf_slot((#[trigger] s[k]).virt) != idx) ==> #[trigger] t[idx]
            == 0
}

/// The structural leaf index — leaf page by the two-megabyte slot, entry by
/// the page bits — collapses to the flat slot, and every piece is in range.
proof fn lemma_leaf_slot_flat(v: u64)
    requires
        v < 0x4000_0000,
    ensures
        (v >> 21) < 512,
        ((v >> 12) & 0x1ff) < 512,
        (v >> 12) < 0x40000,
        (v >> 21) * 512 + ((v >> 12) & 0x1ff) == (v >> 12),
{
    assert((v >> 21) < 512 && ((v >> 12) & 0x1ff) < 512 && (v >> 12) < 0x40000 && (v >> 21) * 512
        + ((v >> 12) & 0x1ff) == (v >> 12)) by (bit_vector)
        requires
            v < 0x4000_0000,
    ;
}

/// Distinct page-aligned addresses lie on distinct virtual pages.
proof fn lemma_distinct_pages(v1: u64, v2: u64)
    requires
        v1 % 0x1000 == 0,
        v2 % 0x1000 == 0,
        v1 != v2,
    ensures
        (v1 >> 12) != (v2 >> 12),
{
    assert((v1 >> 12) != (v2 >> 12)) by (bit_vector)
        requires
            v1 % 0x1000 == 0,
            v2 % 0x1000 == 0,
            v1 != v2,
    ;
}

/// Every leaf's two-megabyte slot lies below the leaf-page count.
proof fn lemma_l1_count_covers(s: Seq<LeafMapping>, k: int)
    requires
        0 <= k < s.len(),
    ensures
        (s[k].virt >> 21) as int + 1 <= l1_page_count(s),
    decreases s.len(),
{
    if k < s.len() - 1 {
        lemma_l1_count_covers(s.drop_last(), k);
    }
}

/// Composes the minimal mapping's leaves into a four-level table (each level
/// one 4 KiB page of 512 entries), assuming installation at `base`: the top
/// level's first entry links the third level, the third links the second,
/// the second links one leaf page per two-megabyte slot, and every leaf entry
/// sits at its page's index. The table's own top page is additionally
/// self-mapped into the last reserved slot of the top level, so the table
/// remains addressable once paging is enabled. Leaves outside the first
/// gigabyte, misaligned, or sharing a virtual page cannot be represented and
/// yield nothing.
pub fn assemble_minimal_tables(leaves: &Vec<LeafMapping>, base: u64) -> (r: Option<Vec<u64>>)
    requires
        base % 0x1000 == 0,
        base + 0x204000 < 0x10_0000_0000_0000,
    ensures
        match r {
            Some(t) => leaves_valid(leaves@) && minimal_tables_shape(t@, base, leaves@),
            None => !leaves_valid(leaves@),
        },
{
    let n = leaves.len();
    let mut i: usize = 0;
    while i < n
        invariant
            n == leaves@.len(),
            i <= n,
            forall|k: int|
                0 <= k < i ==> (#[trigger] leaves@[k]).virt < 0x4000_0000 && leaves@[k].virt
                    % 0x1000 == 0,
        decreases n - i,
    {
        if leaves[i].virt >= 0x4000_0000 || leaves[i].virt % 0x1000 != 0 {
            return None;
        }
        i = i + 1;
    }
    let mut i: usize = 0;
    while i < n
        invariant
            n == leaves@.len(),
            i <= n,
            forall|a: int, b: int| 0 <= a < b < n && a < i ==> leaves@[a].virt != leaves@[b].virt,
        decreases n - i,
    {
        let mut j: usize = i + 1;
        while j < n
            invariant
                n == leaves@.len(),
                i < n,
                i < j,
                forall|b: int| i < b < j ==> leaves@[i as int].virt != leaves@[b].virt,
            decreases n - j,
        {
            if leaves[i].virt == leaves[j].virt {
                return None;
            }
            j = j + 1;
        }
        i = i + 1;
    }

    let mut num_l1: u64 = 0;
    let mut i: usize = 0;
    while i < n
        invariant
            n == leaves@.len(),
            i <= n,
            forall|k: int|
                0 <= k < n ==> (#[trigger] leaves@[k]).virt < 0x4000_0000 && leaves@[k].virt
                    % 0x1000 == 0,
            num_l1 == l1_page_count(leaves@.subrange(0, i as int)),
            num_l1 <= 512,
        decreases n - i,
    {
        proof {
            lemma_leaf_slot_flat(leaves@[i as int].virt);
            assert(leaves@.subrange(0, i as int + 1).drop_last() =~= leaves@.subrange(0, i as int));
        }
        let cand = (leaves[i].virt >> 21u64) + 1;
        if cand > num_l1 {
            num_l1 = cand;
        }
        i = i + 1;
    }
    proof {
        assert(leaves@.subrange(0, n as int) =~= leaves@);
    }

    let total: usize = (3 + num_l1 as usize) * 512;
    let mut t: Vec<u64> = Vec::new();
    while t.len() < total
        invariant
            t@.len() <= total,
            forall|idx: int| 0 <= idx < t@.len() ==> t@[idx] == 0,
        decreases total - t@.len(),
    {
        t.push(0);
    }

    let l3_link: u64 = u64::from(
        PageMapTableBuilder::from(0u64).address(base + 0x1000).write_allowed(true).present(true),
    );
    t.set(0, l3_link);
    let self_link: u64 = u64::from(
        PageMapTableBuilder::from(0u64).address(base).write_allowed(true).present(true),
    );
    t.set(511, self_link);
    let l2_link: u64 = u64::from(
        PageMapTableBuilder::from(0u64).address(base + 0x2000).write_allowed(true).present(true),
    );
    t.set(512, l2_link);

    let mut j: u64 = 0;
    while j < num_l1
        invariant
            j <= num_l1,
            num_l1 <= 512,
            base + 0x204000 < 0x10_0000_0000_0000,
            t@.len() == total,
            total == (3 + num_l1) * 512,
            t@[0] == spec_table_link((base + 0x1000) as u64),
            t@[511] == spec_table_link(base),
            forall|idx: int| 1 <= idx < 511 ==> t@[idx] == 0,
            t@[512] == spec_table_link((base + 0x2000) as u64),
            forall|idx: int| 513 <= idx < 1024 ==> t@[idx] == 0,
            forall|idx: int|
                1024 <= idx < 1024 + j ==> t@[idx] == spec_table_link(
                    (base + 0x3000 + (idx - 1024) * 0x1000) as u64,
                ),
            forall|idx: int| 1024 + j <= idx < t@.len() ==> t@[idx] == 0,
        decreases num_l1 - j,
    {
        let link: u64 = u64::from(
            PageMapTableBuilder::from(0u64)
                .address(base + 0x3000 + j * 0x1000)
                .write_allowed(true)
                .present(true),
        );
        t.set(1024 + j as usize, link);
        j = j + 1;
    }

    let mut i: usize = 0;
    while i < n
        invariant
            n == leaves@.len(),
            i <= n,
            leaves_valid(leaves@),
            base + 0x204000 < 0x10_0000_0000_0000,
            num_l1 == l1_page_count(leaves@),
            num_l1 <= 512,
            t@.len() == total,
            total == (3 + num_l1) * 512,
            t@[0] == spec_table_link((base + 0x1000) as u64),
            t@[511] == spec_table_link(base),
            forall|idx: int| 1 <= idx < 511 ==> t@[idx] == 0,
            t@[512] == spec_table_link((base + 0x2000) as u64),
            forall|idx: int| 513 <= idx < 1024 ==> t@[idx] == 0,
            forall|idx: int|
                1024 <= idx < 1024 + num_l1 ==> t@[idx] == spec_table_link(
                    (base + 0x3000 + (idx - 1024) * 0x1000) as u64,
                ),
            forall|idx: int| 1024 + num_l1 <= idx < 1536 ==> t@[idx] == 0,
            forall|k: int|
                0 <= k < i ==> t@[leaf_slot((#[trigger] leaves@[k]).virt)] == leaves@[k].entry,
            forall|idx: int|
                1536 <= idx < t@.len() && (forall|k: int|
                    0 <= k < i ==> leaf_slot((#[trigger] leaves@[k]).virt) != idx)
                    ==> #[trigger] t@[idx] == 0,
        decreases n - i,
    {
        let virt = leaves[i].virt;
        let l1_page: u64 = virt >> 21u64;
        let l1_idx: u64 = (virt >> 12u64) & 0x1ff;
        proof {
            lemma_leaf_slot_flat(virt);
            lemma_l1_count_covers(leaves@, i as int);
        }
        let slot: usize = (3 + l1_page as usize) * 512 + l1_idx as usize;
        assert(slot == leaf_slot(virt));
        assert(slot < total);
        let ghost prev = t@;
        t.set(slot, leaves[i].entry);
        proof {
            assert forall|k: int|
                0 <= k < i + 1 implies t@[leaf_slot((#[trigger] leaves@[k]).virt)]
                == leaves@[k].entry by {
                if k < i {
                    lemma_leaf_slot_flat(leaves@[k].virt);
                    lemma_l1_count_covers(leaves@, k);
                    assert(1536 <= leaf_slot(leaves@[k].virt) < t@.len());
                    assert(leaves@[k].virt != leaves@[i as int].virt);
                    lemma_distinct_pages(leaves@[k].virt, virt);
                    assert(leaf_slot(leaves@[k].virt) != leaf_slot(virt));
                    assert(t@[leaf_slot(leaves@[k].virt)] == prev[leaf_slot(leaves@[k].virt)]);
                }
            }
        }
        i = i + 1;
    }
    Some(t)
}

/// Segments the whole minimal-mapping pipeline can represent: page-aligned
/// and well-formed, contained in the first gigabyte of virtual addresses,
/// and laid out in ascending order without overlap.
pub open spec fn segments_fit_low_memory(segs: Seq<Segment>) -> bool {
    &&& forall|i: int|
        0 <= i < segs.len() ==> segment_wf(#[trigger] segs[i]) && segs[i].v_addr
            + segs[i].memory_size <= 0x4000_0000
    &&& forall|i: int|
        0 <= i < segs.len() - 1 ==> (#[trigger] segs[i]).v_addr + segs[i].memory_size <= segs[i
            + 1].v_addr
}

/// One past the last virtual address any leaf of the segment list can touch.
pub open spec fn segs_virtual_end(segs: Seq<Segment>) -> int {
    if segs.len() == 0 {
        0
    } else {
        segs.last().v_addr + segs.last().memory_size
    }
}

/// Pipeline law: the leaves installed for ordered, non-overlapping segments
/// within the first gigabyte are exactly what the four-level assembly
/// accepts — in range, page-aligned, and one per virtual page.
pub proof fn lemma_minimal_leaves_assemblable(segs: Seq<Segment>)
    requires
        segments_fit_low_memory(segs),
    ensures
        leaves_valid(all_leaves(segs)),
        forall|k: int|
            0 <= k < all_leaves(segs).len() ==> (#[trigger] all_leaves(segs)[k]).virt
                < segs_virtual_end(segs),
    decreases segs.len(),
{
    if segs.len() == 0 {
        return ;
    }
    let rest = segs.drop_last();
    let t = segs.last();
    lemma_minimal_leaves_assemblable(rest);
    let old_leaves = all_leaves(rest);
    let new_leaves = seg_leaves(t);
    let s = all_leaves(segs);
    assert(s == old_leaves + new_leaves);
    lemma_page_count_split(t.memory_size);
    let pc = spec_page_count(t.memory_size);

    assert forall|j: int| 0 <= j < pc implies t.v_addr <= (#[trigger] new_leaves[j]).virt
        < t.v_addr + t.memory_size && new_leaves[j].virt % 0x1000 == 0 && new_leaves[j].virt == t.v_addr
        + j * 0x1000 by {
        assert(j * 0x1000 <= (pc - 1) * 0x1000);
        assert((pc - 1) * 0x1000 < t.memory_size);
        assert(j * 0x1000 == 0x1000 * j);
        vstd::arithmetic::div_mod::lemma_mod_multiples_vanish(j, t.v_addr as int, 0x1000);
    }
    assert(segs_virtual_end(rest) <= t.v_addr || rest.len() == 0);

    assert forall|a: int, b: int| 0 <= a < b < s.len() implies s[a].virt != s[b].virt by {
        if b < old_leaves.len() {
        } else if a >= old_leaves.len() {
            let ja = a - old_leaves.len();
            let jb = b - old_leaves.len();
            assert(s[a].virt == t.v_addr + ja * 0x1000);
            assert(s[b].virt == t.v_addr + jb * 0x1000);
        } else {
            assert(s[a].virt < segs_virtual_end(rest));
            assert(s[b].virt >= t.v_addr);
        }
    }
}

/// Four-level walk law: walking any leaf's virtual address through the
/// assembled table — top level by bits 39 and up, then each level by its own
/// nine index bits, following the stored physical address down — lands on
/// exactly that leaf's entry, with every entry on the path present and
/// writable.
pub proof fn lemma_minimal_tables_walk(t: Seq<u64>, base: u64, s: Seq<LeafMapping>, k: int, max: u8)
    requires
        leaves_valid(s),
        minimal_tables_shape(t, base, s),
        0 <= k < s.len(),
        base % 0x1000 == 0,
        12 <= max <= 51,
        base + 0x204000 < (1u64 << ((64 - max) as u64)),
    ensures
        ({
            let va = s[k].virt;
            let l4 = t[((va >> 39) & 0x1ff) as int];
            let l3_page = (entry_address(l4, max) - base) / 0x1000;
            let l3 = t[l3_page * 512 + ((va >> 30) & 0x1ff) as int];
            let l2_page = (entry_address(l3, max) - base) / 0x1000;
            let l2 = t[l2_page * 512 + ((va >> 21) & 0x1ff) as int];
            let l1_page = (entry_address(l2, max) - base) / 0x1000;
            let l1 = t[l1_page * 512 + ((va >> 12) & 0x1ff) as int];
            &&& flag_set(l4, PRESENT_BIT) && flag_set(l4, WRITE_ALLOWED_BIT)
            &&& flag_set(l3, PRESENT_BIT) && flag_set(l3, WRITE_ALLOWED_BIT)
            &&& flag_set(l2, PRESENT_BIT) && flag_set(l2, WRITE_ALLOWED_BIT)
            &&& l1 == s[k].entry
        }),
{
    let va = s[k].virt;
    assert(va < 0x4000_0000 && va % 0x1000 == 0);
    assert(((va >> 39) & 0x1ff) == 0 && ((va >> 30) & 0x1ff) == 0 && ((va >> 21) & 0x1ff) == (va
        >> 21)) by (bit_vector)
        requires
            va < 0x4000_0000,
    ;
    lemma_leaf_slot_flat(va);
    lemma_l1_count_covers(s, k);

    let l4 = t[((va >> 39) & 0x1ff) as int];
    assert(l4 == spec_table_link((base + 0x1000) as u64));
    lemma_leaf_entry_fields((base + 0x1000) as u64, 0, max);
    assert(entry_address(l4, max) == base + 0x1000);

    let l3 = t[1 * 512 + ((va >> 30) & 0x1ff) as int];
    assert(l3 == spec_table_link((base + 0x2000) as u64));
    lemma_leaf_entry_fields((base + 0x2000) as u64, 0, max);
    assert(entry_address(l3, max) == base + 0x2000);

    let l2 = t[2 * 512 + ((va >> 21) & 0x1ff) as int];
    assert(1024 <= 1024 + ((va >> 21) & 0x1ff) < 1024 + l1_page_count(s));
    let l1_base = (base + 0x3000 + (va >> 21) * 0x1000) as u64;
    assert(l2 == spec_table_link(l1_base));
    assert((va >> 21) * 0x1000 == 0x1000 * ((va >> 21) as int));
    assert(l1_base % 0x1000 == 0) by {
        vstd::arithmetic::div_mod::lemma_mod_multiples_vanish(
            (va >> 21) as int,
            (base + 0x3000) as int,
            0x1000,
        );
        assert((0x1000 * ((va >> 21) as int) + (base + 0x3000)) % 0x1000 == (base + 0x3000) % 0x1000);
    }
    lemma_leaf_entry_fields(l1_base, 0, max);
    assert(entry_address(l2, max) == l1_base);

    let l1_page = (entry_address(l2, max) - base) / 0x1000;
    assert(l1_page == 3 + (va >> 21)) by {
        lemma_fundamental_div_mod_converse_div(
            (l1_base - base) as int,
            0x1000,
            3 + (va >> 21) as int,
            0,
        );
    }
    assert(l1_page * 512 + ((va >> 12) & 0x1ff) as int == leaf_slot(va));
}

/// Minimal-mapping placement law: each installed leaf entry is present and
/// writable, and its stored physical address is the segment's load address
/// plus the page's offset within the segment.
pub proof fn lemma_leaf_entry_fields(p_addr: u64, j: int, max: u8)
    requires
        p_addr % PAGE_BYTES == 0,
        0 <= j,
        12 <= max <= 51,
        p_addr + j * PAGE_BYTES < (1u64 << ((64 - max) as u64)),
    ensures
        flag_set(spec_leaf_entry(p_addr, j), PRESENT_BIT),
        flag_set(spec_leaf_entry(p_addr, j), WRITE_ALLOWED_BIT),
        entry_address(spec_leaf_entry(p_addr, j), max) == p_addr + j * PAGE_BYTES,
{
    let a = (p_addr + j * PAGE_BYTES) as u64;
    assert(j * 0x1000 == 0x1000 * j);
    assert(a % 0x1000 == 0) by {
        vstd::arithmetic::div_mod::lemma_mod_multiples_vanish(j, p_addr as int, 0x1000);
    }
    let e = spec_leaf_entry(p_addr, j);
    assert(flag_set(e, PRESENT_BIT) && flag_set(e, WRITE_ALLOWED_BIT) && entry_address(e, max)
        == a) by (bit_vector)
        requires
            a % 0x1000 == 0,
            12 <= max <= 51,
            a < (1u64 << ((64 - max) as u64)),
            e == with_flag(
                with_flag(with_address(0, a), WRITE_ALLOWED_BIT, true),
                PRESENT_BIT,
                true,
            ),
    ;
}

} // verus!
