use cloud_hypervisor::memory_range::{MemoryRange, MemoryRangeTable, MemoryRangeTableIterator};
use cloud_hypervisor::protocol::{MigratableError, SocketError};

#[test]
fn test_memory_range_table_from_dirty_ranges_iter() {
    let input = [0b1111_1110_1110, 0b1_0000];

    let start_gpa = 0x1000;
    let page_size = 0x1000;

    let range = MemoryRangeTable::from_dirty_bitmap(&input, start_gpa, page_size);
    assert_eq!(
        range.regions(),
        &[
            MemoryRange {
                gpa: start_gpa + page_size,
                length: page_size * 3,
            },
            MemoryRange {
                gpa: start_gpa + 5 * page_size,
                length: page_size * 7,
            },
            MemoryRange {
                gpa: start_gpa + (64 + 4) * page_size,
                length: page_size,
            }
        ]
    );
}

#[test]
fn test_memory_range_table_partition() {
    // We start the test similar as the one above, but with a input that is simpler to parse for
    // developers.
    let input = [0b11_0011_0011_0011];

    let start_gpa = 0x1000;
    let page_size = 0x1000;

    let table = MemoryRangeTable::from_dirty_bitmap(&input, start_gpa, page_size);
    let expected_regions = [
        MemoryRange {
            gpa: start_gpa,
            length: page_size * 2,
        },
        MemoryRange {
            gpa: start_gpa + 4 * page_size,
            length: page_size * 2,
        },
        MemoryRange {
            gpa: start_gpa + 8 * page_size,
            length: page_size * 2,
        },
        MemoryRange {
            gpa: start_gpa + 12 * page_size,
            length: page_size * 2,
        },
    ];
    assert_eq!(table.regions(), &expected_regions);

    // In the first test, we expect to see the exact same result as above, as we use the length
    // of every region (which is fixed!).
    {
        let chunks = table
            .partition(page_size * 2)
            .into_iter()
            .map(|table| table.ranges().to_vec())
            .collect::<Vec<_>>();

        // The implementation currently returns the ranges in reverse order.
        // For better testability, we reverse it.
        let chunks = chunks
            .into_iter()
            .map(|vec| vec.into_iter().rev().collect::<Vec<_>>())
            .rev()
            .collect::<Vec<_>>();

        assert_eq!(
            chunks,
            &[
                [expected_regions[0].clone()].to_vec(),
                [expected_regions[1].clone()].to_vec(),
                [expected_regions[2].clone()].to_vec(),
                [expected_regions[3].clone()].to_vec(),
            ]
        );
    }

    // Next, we have a more sophisticated test with a chunk size of 5 pages.
    {
        let chunks = table
            .partition(page_size * 5)
            .into_iter()
            .map(|table| table.ranges().to_vec())
            .collect::<Vec<_>>();

        // The implementation currently returns the ranges in reverse order.
        // For better testability, we reverse it.
        let chunks = chunks
            .into_iter()
            .map(|vec| vec.into_iter().rev().collect::<Vec<_>>())
            .collect::<Vec<_>>();

        assert_eq!(
            chunks,
            &[
                vec![
                    MemoryRange {
                        gpa: start_gpa + 4 * page_size,
                        length: page_size
                    },
                    MemoryRange {
                        gpa: start_gpa + 8 * page_size,
                        length: 2 * page_size
                    },
                    MemoryRange {
                        gpa: start_gpa + 12 * page_size,
                        length: 2 * page_size
                    }
                ],
                vec![
                    MemoryRange {
                        gpa: start_gpa,
                        length: 2 * page_size
                    },
                    MemoryRange {
                        gpa: start_gpa + 5 * page_size,
                        length: page_size
                    }
                ]
            ]
        );
    }
}


fn range(gpa: u64, length: u64) -> MemoryRange {
    MemoryRange { gpa, length }
}

#[test]
fn runs_continue_in_the_next_word() {
    let table = MemoryRangeTable::from_dirty_bitmap(&[1 << 63, 0b11, 0], 0, 0x1000);
    assert_eq!(table.ranges(), [range(63 * 0x1000, 3 * 0x1000)]);
    assert!(MemoryRangeTable::from_dirty_bitmap(&[0, 0], 0x5000, 0x1000).is_empty());
    assert!(MemoryRangeTable::from_dirty_bitmap(&[], 0x5000, 0x1000).is_empty());
}

#[test]
fn runs_that_touch_nothing_stay_apart() {
    let table = MemoryRangeTable::from_dirty_bitmap(&[0b101], 0x10, 2);
    assert_eq!(table.ranges(), [range(0x10, 2), range(0x14, 2)]);
}

#[test]
fn partition_keeps_every_byte() {
    let table = MemoryRangeTable::from_ranges(vec![range(0, 10), range(100, 3), range(50, 7)]);
    let chunks = table.partition(8);
    let sizes: Vec<u64> = chunks
        .iter()
        .map(|chunk| chunk.ranges().iter().map(|r| r.length).sum())
        .collect();
    assert_eq!(sizes, [8, 8, 4]);
    let mut bytes: Vec<u64> = chunks
        .iter()
        .flat_map(|chunk| chunk.ranges().to_vec())
        .flat_map(|r| r.gpa..r.gpa + r.length)
        .collect();
    bytes.sort_unstable();
    let expected: Vec<u64> = (0..10).chain(50..57).chain(100..103).collect();
    assert_eq!(bytes, expected);
}

#[test]
fn iterator_ends_when_nothing_is_left() {
    let table = MemoryRangeTable::from_ranges(vec![range(0, 4)]);
    let mut iter = MemoryRangeTableIterator::new(&table, 3);
    assert_eq!(iter.next().unwrap().ranges(), [range(0, 3)]);
    assert_eq!(iter.next().unwrap().ranges(), [range(3, 1)]);
    assert!(iter.next().is_none());
    assert!(iter.next().is_none());
}

#[test]
fn tables_are_joined_in_order() {
    let mut table = MemoryRangeTable::from_ranges(vec![range(1, 2)]);
    table.push(range(3, 4));
    table.extend(MemoryRangeTable::from_ranges(vec![range(5, 6)]));
    let joined = MemoryRangeTable::new_from_tables(vec![
        table,
        MemoryRangeTable::from_ranges(vec![]),
        MemoryRangeTable::from_ranges(vec![range(7, 8)]),
    ]);
    assert_eq!(
        joined.regions(),
        [range(1, 2), range(3, 4), range(5, 6), range(7, 8)]
    );
}

#[test]
fn table_is_read_as_it_was_written() {
    let table = MemoryRangeTable::from_ranges(vec![range(0x1122, 3), range(u64::MAX, 0)]);
    let mut bytes = vec![0xaa];
    table.write_to(&mut bytes);
    assert_eq!(table.length(), 32);
    assert_eq!(bytes.len(), 33);
    assert_eq!(
        bytes[..17],
        [0xaa, 0x22, 0x11, 0, 0, 0, 0, 0, 0, 3, 0, 0, 0, 0, 0, 0, 0]
    );
    let read = MemoryRangeTable::read_from(&bytes[1..], 32).unwrap();
    assert_eq!(read.ranges(), table.ranges());
    // Only as much as asked for is read.
    let first = MemoryRangeTable::read_from(&bytes[1..], 16).unwrap();
    assert_eq!(first.ranges(), [range(0x1122, 3)]);
}

#[test]
fn short_stream_gives_no_table() {
    assert!(matches!(
        MemoryRangeTable::read_from(&[0; 31], 32),
        Err(MigratableError::MigrateSocket(SocketError::UnexpectedEof))
    ));
}
