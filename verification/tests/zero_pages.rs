use cloud_hypervisor::guest_memory::GuestMemoryError;
use cloud_hypervisor::memory_range::{MemoryRange, MemoryRangeTable};
use cloud_hypervisor::zero_pages::{
    bytes_equal, cut_at_pages, guest_memory_is_equal, is_all_zero, keep_nonzero, PAGE_SIZE,
};
use vm_memory::bitmap::AtomicBitmap;
use vm_memory::{
    Address, Bytes, GuestAddress, GuestAddressSpace, GuestMemory, GuestMemoryAtomic, GuestMemoryMmap,
};

#[test]
fn test_guest_memory_is_equal_success() {
    let start_gpa = 0x1000;
    let page_size = PAGE_SIZE;

    let expected_regions = vec![MemoryRange {
        gpa: start_gpa,
        length: page_size * 2,
    }];

    let memory_range_table = MemoryRangeTable::from_ranges(expected_regions);

    let ranges: Vec<_> = memory_range_table
        .ranges()
        .iter()
        .map(|range| (GuestAddress(range.gpa), range.length as usize))
        .collect();

    let guest_memory_map: GuestMemoryMmap<AtomicBitmap> =
        GuestMemoryMmap::from_ranges(&ranges).unwrap();

    let atomic_guest_memory_map = GuestMemoryAtomic::new(guest_memory_map);

    let result = guest_memory_is_equal(
        start_gpa,
        &vec![0; page_size as usize],
        &atomic_guest_memory_map.memory(),
    )
    .unwrap();

    assert!(result);
}

#[test]
fn test_guest_memory_is_equal_invalid_memory_range() {
    let start_gpa = 0x1000;
    let page_size = PAGE_SIZE;

    let memory_ranges = vec![MemoryRange {
        gpa: start_gpa,
        length: page_size * 2,
    }];

    let memory_range_table = MemoryRangeTable::from_ranges(memory_ranges);

    let ranges: Vec<_> = memory_range_table
        .ranges()
        .iter()
        .map(|range| (GuestAddress(range.gpa), range.length as usize))
        .collect();

    let guest_memory_map: GuestMemoryMmap<AtomicBitmap> =
        GuestMemoryMmap::from_ranges(&ranges).unwrap();
    let atomic_guest_memory_map = GuestMemoryAtomic::new(guest_memory_map);

    let result = guest_memory_is_equal(
        start_gpa - 10,
        &vec![0; page_size as usize],
        &atomic_guest_memory_map.memory(),
    )
    .unwrap_err();

    if let GuestMemoryError::InvalidGuestAddress(guest_address) = result {
        assert_eq!(guest_address, 4086);
    } else {
        panic!("`guest_memory_is_equal` returned wrong error")
    }
}

#[test]
fn test_memory_range_table_remove_zero_pages() {
    let start_gpa = 0x1000;
    let page_size = PAGE_SIZE;

    let expected_regions = vec![MemoryRange {
        gpa: start_gpa,
        length: page_size * 2,
    }];

    let memory_range_table = MemoryRangeTable::from_ranges(expected_regions);

    let ranges: Vec<_> = memory_range_table
        .ranges()
        .iter()
        .map(|range| (GuestAddress(range.gpa), range.length as usize))
        .collect();

    let guest_memory_map: GuestMemoryMmap<AtomicBitmap> =
        GuestMemoryMmap::from_ranges(&ranges).unwrap();
    let atomic_guest_memory_map = GuestMemoryAtomic::new(guest_memory_map);

    let result = memory_range_table.remove_zero_pages(&atomic_guest_memory_map.memory());

    assert!(result.unwrap().ranges().is_empty());
}

#[test]
fn test_memory_range_table_remove_zero_pages_all() {
    let input = [0b11_0011_0011_0011];

    let start_gpa = 0x1000;
    let page_size = 0x1000;

    let table = MemoryRangeTable::from_dirty_bitmap(&input, start_gpa, page_size);
    let expected_regions = [
        MemoryRange {
            gpa: start_gpa,
            length: page_size * 2,
        },
        MemoryRange {
            gpa: start_gpa + 4 * page_size,
            length: page_size * 2,
        },
        MemoryRange {
            gpa: start_gpa + 8 * page_size,
            length: page_size * 2,
        },
        MemoryRange {
            gpa: start_gpa + 12 * page_size,
            length: page_size * 2,
        },
    ];
    assert_eq!(table.regions(), &expected_regions);

    let ranges = expected_regions
        .clone()
        .map(|range| (GuestAddress::new(range.gpa), range.length as usize));
    let guest_memory_map: GuestMemoryMmap<AtomicBitmap> =
        GuestMemoryMmap::from_ranges(&ranges).unwrap();
    let atomic_guest_memory_map = GuestMemoryAtomic::new(guest_memory_map);

    assert!(
        table
            .remove_zero_pages(&atomic_guest_memory_map.memory())
            .unwrap()
            .is_empty()
    );
}
#[test]
fn test_memory_range_table_remove_zero_pages_some() {
    let input = [0b11_0011_0011_0011];

    let start_gpa = 0x1000;
    let page_size = 0x1000;

    let table = MemoryRangeTable::from_dirty_bitmap(&input, start_gpa, page_size);
    let expected_regions = [
        MemoryRange {
            gpa: start_gpa,
            length: page_size * 2,
        },
        MemoryRange {
            gpa: start_gpa + 4 * page_size,
            length: page_size * 2,
        },
        MemoryRange {
            gpa: start_gpa + 8 * page_size,
            length: page_size * 2,
        },
        MemoryRange {
            gpa: start_gpa + 12 * page_size,
            length: page_size * 2,
        },
    ];
    assert_eq!(table.regions(), &expected_regions);

    let ranges = expected_regions
        .clone()
        .map(|range| (GuestAddress(range.gpa), range.length as usize));

    let guest_memory_map: GuestMemoryMmap<AtomicBitmap> =
        GuestMemoryMmap::from_ranges(&ranges).unwrap();

    expected_regions.iter().step_by(2).for_each(|memory_range| {
        let buffer = vec![1_u8; memory_range.length as usize];
        guest_memory_map
            .read_volatile_from(
                GuestAddress::new(memory_range.gpa),
                &mut buffer.as_slice(),
                memory_range.length as usize,
            )
            .unwrap();
    });

    let atomic_guest_memory_map = GuestMemoryAtomic::new(guest_memory_map);

    assert_eq!(
        table
            .remove_zero_pages(&atomic_guest_memory_map.memory())
            .unwrap()
            .ranges(),
        &[
            MemoryRange {
                gpa: start_gpa,
                length: page_size * 2,
            },
            MemoryRange {
                gpa: start_gpa + 8 * page_size,
                length: page_size * 2,
            },
        ]
    );
}

#[test]
fn test_memory_range_table_remove_zero_pages_within_range_table() {
    let input = [0b0111];

    let start_gpa = 0x1000;
    let page_size = 0x1000;

    let table = MemoryRangeTable::from_dirty_bitmap(&input, start_gpa, page_size);
    let expected_regions = [MemoryRange {
        gpa: start_gpa,
        length: page_size * 3,
    }];
    assert_eq!(table.regions(), &expected_regions);

    let ranges = expected_regions
        .clone()
        .map(|range| (GuestAddress(range.gpa), range.length as usize));

    let guest_memory_map: GuestMemoryMmap<AtomicBitmap> =
        GuestMemoryMmap::from_ranges(&ranges).unwrap();

    let buffer = vec![1_u8; page_size as usize];

    guest_memory_map
        .read_volatile_from(
            GuestAddress::new(expected_regions[0].gpa),
            &mut buffer.as_slice(),
            page_size as usize,
        )
        .unwrap();

    guest_memory_map
        .read_volatile_from(
            GuestAddress::new(expected_regions[0].gpa + 2 * page_size),
            &mut buffer.as_slice(),
            page_size as usize,
        )
        .unwrap();

    let atomic_guest_memory_map = GuestMemoryAtomic::new(guest_memory_map);

    assert_eq!(
        table
            .remove_zero_pages(&atomic_guest_memory_map.memory())
            .unwrap()
            .ranges(),
        &[
            MemoryRange {
                gpa: start_gpa,
                length: page_size
            },
            MemoryRange {
                gpa: start_gpa + 2 * page_size,
                length: page_size
            },
        ]
    );
}

#[test]
fn test_memory_range_table_remove_zero_pages_non_page_boundaries_all_zero() {
    let input = [0b11_0011_0000_1111];

    let start_gpa = 0x1000;
    let page_size = 0x1000;

    let table = MemoryRangeTable::from_dirty_bitmap(&input, start_gpa, page_size);
    let mut data = table.ranges().to_vec();
    data.iter_mut().for_each(|entry| {
        entry.gpa += 10;
    });
    let table = MemoryRangeTable::from_ranges(data);
    let expected_regions = [
        MemoryRange {
            gpa: start_gpa + 10,
            length: page_size * 4,
        },
        MemoryRange {
            gpa: start_gpa + 8 * page_size + 10,
            length: page_size * 2,
        },
        MemoryRange {
            gpa: start_gpa + 12 * page_size + 10,
            length: page_size * 2,
        },
    ];
    assert_eq!(table.regions(), &expected_regions);

    let ranges = expected_regions
        .clone()
        .map(|range| (GuestAddress(range.gpa), range.length as usize));

    let guest_memory_map: GuestMemoryMmap<AtomicBitmap> =
        GuestMemoryMmap::from_ranges(&ranges).unwrap();
    let atomic_guest_memory_map = GuestMemoryAtomic::new(guest_memory_map);

    assert!(
        table
            .remove_zero_pages(&atomic_guest_memory_map.memory())
            .unwrap()
            .ranges()
            .is_empty()
    );
}

#[test]
fn test_memory_range_table_remove_zero_pages_non_page_boundaries_all_non_zero() {
    let input = [0b11_0011_0000_1111];

    let start_gpa = 0x1000;
    let page_size = 0x1000;

    let table = MemoryRangeTable::from_dirty_bitmap(&input, start_gpa, page_size);
    let mut data = table.ranges().to_vec();
    data.iter_mut().for_each(|entry| {
        entry.gpa += 10;
    });
    let table = MemoryRangeTable::from_ranges(data);
    let expected_regions = [
        MemoryRange {
            gpa: start_gpa + 10,
            length: page_size * 4,
        },
        MemoryRange {
            gpa: start_gpa + 8 * page_size + 10,
            length: page_size * 2,
        },
        MemoryRange {
            gpa: start_gpa + 12 * page_size + 10,
            length: page_size * 2,
        },
    ];
    assert_eq!(table.regions(), &expected_regions);

    let ranges = expected_regions
        .clone()
        .map(|range| (GuestAddress(range.gpa), range.length as usize));

    let guest_memory_map: GuestMemoryMmap<AtomicBitmap> =
        GuestMemoryMmap::from_ranges(&ranges).unwrap();

    expected_regions.iter().for_each(|memory_range| {
        let buffer = vec![1_u8; memory_range.length as usize];

        guest_memory_map
            .read_volatile_from(
                GuestAddress::new(memory_range.gpa),
                &mut buffer.as_slice(),
                memory_range.length as usize,
            )
            .unwrap();
    });

    let atomic_guest_memory_map = GuestMemoryAtomic::new(guest_memory_map);

    assert_eq!(
        table
            .remove_zero_pages(&atomic_guest_memory_map.memory())
            .unwrap()
            .ranges(),
        expected_regions
    );
}

#[test]
fn test_memory_range_table_remove_zero_pages_within_memory_range() {
    let start_gpa = 0x1000;
    let page_size = 0x1000;

    let table = MemoryRangeTable::from_ranges(vec![MemoryRange {
        gpa: start_gpa - 0x800,
        length: 0x800 + 2 * page_size,
    }]);

    let ranges: Vec<(GuestAddress, usize)> = table
        .ranges()
        .iter()
        .clone()
        .map(|range| (GuestAddress(range.gpa), range.length as usize))
        .collect();

    let guest_memory_map: GuestMemoryMmap<AtomicBitmap> =
        GuestMemoryMmap::from_ranges(&ranges).unwrap();

    let buffer = vec![1_u8; page_size as usize];

    guest_memory_map
        .read_volatile_from(
            GuestAddress::new(start_gpa),
            &mut buffer.as_slice(),
            page_size as usize,
        )
        .unwrap();

    let atomic_guest_memory_map = GuestMemoryAtomic::new(guest_memory_map);

    assert_eq!(
        table
            .remove_zero_pages(&atomic_guest_memory_map.memory())
            .unwrap()
            .ranges(),
        [MemoryRange {
            gpa: start_gpa,
            length: page_size,
        },]
    );
}

fn two_pages() -> GuestMemoryMmap<AtomicBitmap> {
    GuestMemoryMmap::from_ranges(&[(GuestAddress(0x1000), 0x2000)]).unwrap()
}

#[test]
fn other_bytes_are_not_equal() {
    let memory = two_pages();
    memory.write_slice(&[1, 2, 3], GuestAddress(0x1ffe)).unwrap();
    assert_eq!(guest_memory_is_equal(0x1ffe, &[1, 2, 3], &memory), Ok(true));
    assert_eq!(guest_memory_is_equal(0x1ffe, &[1, 2, 4], &memory), Ok(false));
    assert_eq!(guest_memory_is_equal(0x1ffd, &[0, 1, 2], &memory), Ok(true));
}

#[test]
fn access_beyond_a_region_fails() {
    let memory = two_pages();
    assert_eq!(
        guest_memory_is_equal(0x2fff, &[0, 0], &memory),
        Err(GuestMemoryError::InvalidBackendAddress)
    );
    assert_eq!(
        guest_memory_is_equal(0x3000, &[0], &memory),
        Err(GuestMemoryError::InvalidGuestAddress(0x3000))
    );
    let table = MemoryRangeTable::from_ranges(vec![MemoryRange {
        gpa: 0x2000,
        length: 0x2000,
    }]);
    assert!(matches!(
        table.remove_zero_pages(&memory),
        Err(GuestMemoryError::InvalidGuestAddress(0x3000))
    ));
}

#[test]
fn tail_behind_the_last_page_is_checked_where_it_lies() {
    let memory = two_pages();
    // The first page is not zero, and neither is the tail.
    memory.write_slice(&[7], GuestAddress(0x1000)).unwrap();
    memory.write_slice(&[7], GuestAddress(0x2010)).unwrap();
    let table = MemoryRangeTable::from_ranges(vec![MemoryRange {
        gpa: 0x1000,
        length: 0x1020,
    }]);
    assert_eq!(
        table.remove_zero_pages(&memory).unwrap().ranges(),
        [MemoryRange {
            gpa: 0x1000,
            length: 0x1020,
        }]
    );
    // With a zero tail only the page stays.
    memory.write_slice(&[0], GuestAddress(0x2010)).unwrap();
    assert_eq!(
        table.remove_zero_pages(&memory).unwrap().ranges(),
        [MemoryRange {
            gpa: 0x1000,
            length: 0x1000,
        }]
    );
}

/// What is left of a range, given the contents of each of its pieces.
fn nonzero_ranges(range: &MemoryRange, contents: &[Vec<u8>]) -> Vec<MemoryRange> {
    let pieces = cut_at_pages(range);
    assert_eq!(pieces.len(), contents.len());
    let mut result = Vec::new();
    for (piece, content) in pieces.into_iter().zip(contents) {
        assert_eq!(piece.length, content.len() as u64);
        keep_nonzero(&mut result, piece, content);
    }
    result
}

#[test]
fn zero_pieces_split_a_range() {
    let range = MemoryRange {
        gpa: 0x0f00,
        length: 0x2200,
    };
    // The pieces are the head, two pages and the tail.
    let contents = |bytes: [u8; 4]| {
        vec![
            vec![bytes[0]; 0x100],
            vec![bytes[1]; 0x1000],
            vec![bytes[2]; 0x1000],
            vec![bytes[3]; 0x100],
        ]
    };
    assert_eq!(
        nonzero_ranges(&range, &contents([1, 0, 2, 3])),
        [
            MemoryRange {
                gpa: 0x0f00,
                length: 0x100
            },
            MemoryRange {
                gpa: 0x2000,
                length: 0x1100
            },
        ]
    );
    assert_eq!(nonzero_ranges(&range, &contents([0; 4])), []);
    assert_eq!(nonzero_ranges(&range, &contents([1; 4])), [range]);
}

#[test]
fn bytes_are_compared_with_their_length() {
    assert!(bytes_equal(&[], &[]));
    assert!(bytes_equal(&[1, 2], &[1, 2]));
    assert!(!bytes_equal(&[1, 2], &[1]));
    assert!(!bytes_equal(&[1, 2], &[1, 3]));
}

#[test]
fn contents_decide_what_is_removed() {
    // The end of a page, two whole pages and the start of another one.
    let range = MemoryRange {
        gpa: 0x1ff0,
        length: 0x10 + 0x2000 + 0x20,
    };
    let zeroes = || {
        vec![
            vec![0; 0x10],
            vec![0; 0x1000],
            vec![0; 0x1000],
            vec![0; 0x20],
        ]
    };
    assert_eq!(nonzero_ranges(&range, &zeroes()), []);
    let mut contents = zeroes();
    contents[1][0xfff] = 1;
    contents[3][0] = 9;
    assert_eq!(
        nonzero_ranges(&range, &contents),
        [
            MemoryRange {
                gpa: 0x2000,
                length: 0x1000,
            },
            MemoryRange {
                gpa: 0x4000,
                length: 0x20,
            },
        ]
    );
    let mut contents = zeroes();
    for content in &mut contents {
        content[0] = 1;
    }
    assert_eq!(nonzero_ranges(&range, &contents), [range]);
    assert!(is_all_zero(&[]));
    assert!(!is_all_zero(&[0, 0, 1]));
    // Nothing equals nothing, wherever there is memory.
    let memory: GuestMemoryMmap<AtomicBitmap> =
        GuestMemoryMmap::from_ranges(&[(GuestAddress(0), 0x1000)]).unwrap();
    assert_eq!(guest_memory_is_equal(0x10, &[], &memory), Ok(true));
}
