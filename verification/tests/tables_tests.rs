use efiboot::mapping::assemble_minimal_tables;
use efiboot::mapping::minimal_mapping;
use efiboot::mapping::LeafMapping;
use efiboot::mapping::Segment;
use efiboot::paging::PageMapTable;

#[test]
fn assembles_four_levels_with_self_map() {
    let segments = vec![
        Segment {
            v_addr: 0x1000,
            p_addr: 0x100000,
            file_size: 0x1000,
            memory_size: 0x1000,
            alignment: 0x1000,
        },
        Segment {
            v_addr: 0x3000,
            p_addr: 0x101000,
            file_size: 0x1800,
            memory_size: 0x2000,
            alignment: 0x1000,
        },
    ];
    let leaves = minimal_mapping(&segments).unwrap();
    let table = assemble_minimal_tables(&leaves, 0x20000).unwrap();
    // Three upper-level pages and one leaf page.
    assert_eq!(table.len(), 4 * 512);
    // The top level links the third level and self-maps its own page into
    // the last reserved slot.
    assert_eq!(table[0], 0x21003);
    assert_eq!(table[511], 0x20003);
    // Each level links the next.
    assert_eq!(table[512], 0x22003);
    assert_eq!(table[1024], 0x23003);
    // Each leaf entry sits at its page's slot in the leaf table.
    assert_eq!(table[1536 + 1], 0x100003);
    assert_eq!(table[1536 + 3], 0x101003);
    assert_eq!(table[1536 + 4], 0x102003);
    // Nothing else is mapped.
    assert_eq!(table[1536], 0);
    assert_eq!(table[1536 + 2], 0);
    assert_eq!(table[1536 + 5], 0);
    for idx in 1..511 {
        assert_eq!(table[idx], 0);
    }
}

#[test]
fn hardware_walk_lands_on_each_leaf() {
    let base: u64 = 0x20000;
    let leaves = vec![
        LeafMapping { virt: 0x1000, entry: 0x100003 },
        LeafMapping { virt: 0x3000, entry: 0x101003 },
        LeafMapping { virt: 0x40_0000, entry: 0x205003 },
    ];
    let table = assemble_minimal_tables(&leaves, base).unwrap();
    for leaf in &leaves {
        let va = leaf.virt;
        let l4 = PageMapTable::from(table[((va >> 39) & 0x1ff) as usize]);
        assert!(l4.present());
        let l3_page = (l4.address(12) - base) / 0x1000;
        let l3 =
            PageMapTable::from(table[(l3_page * 512 + ((va >> 30) & 0x1ff)) as usize]);
        assert!(l3.present());
        let l2_page = (l3.address(12) - base) / 0x1000;
        let l2 =
            PageMapTable::from(table[(l2_page * 512 + ((va >> 21) & 0x1ff)) as usize]);
        assert!(l2.present());
        let l1_page = (l2.address(12) - base) / 0x1000;
        let l1 = table[(l1_page * 512 + ((va >> 12) & 0x1ff)) as usize];
        assert_eq!(l1, leaf.entry);
    }
}

#[test]
fn rejects_leaves_the_layout_cannot_hold() {
    // Past the first gigabyte.
    let far = vec![LeafMapping { virt: 0x4000_0000, entry: 0x3 }];
    assert!(assemble_minimal_tables(&far, 0x20000).is_none());
    // Off a page boundary.
    let misaligned = vec![LeafMapping { virt: 0x1800, entry: 0x3 }];
    assert!(assemble_minimal_tables(&misaligned, 0x20000).is_none());
    // Two leaves on one virtual page.
    let duplicated = vec![
        LeafMapping { virt: 0x1000, entry: 0x100003 },
        LeafMapping { virt: 0x1000, entry: 0x200003 },
    ];
    assert!(assemble_minimal_tables(&duplicated, 0x20000).is_none());
}

#[test]
fn empty_leaf_list_builds_upper_levels_only() {
    let leaves: Vec<LeafMapping> = Vec::new();
    let table = assemble_minimal_tables(&leaves, 0x20000).unwrap();
    assert_eq!(table.len(), 3 * 512);
    assert_eq!(table[0], 0x21003);
    assert_eq!(table[511], 0x20003);
    assert_eq!(table[512], 0x22003);
    for idx in 1024..1536 {
        assert_eq!(table[idx], 0);
    }
}
