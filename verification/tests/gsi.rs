use cloud_hypervisor::gsi::{GsiAllocator, GsiApic, InterruptAllocError, InterruptAllocator};

#[test]
// Checks that the allocator can only allocate as many vectors as configured.
fn test_allocator_respects_size() {
    for size in [1, 8, 16, 17, 32, 64, 65, 128] {
        let mut allocator = InterruptAllocator::new(size, 0);
        let mut num_vectors = 0u32;

        loop {
            let vec = allocator.allocate();
            match vec {
                Ok(_) => {
                    num_vectors += 1;
                    continue;
                }
                Err(e) => match e {
                    InterruptAllocError::ExhaustedError(_) => {
                        assert_eq!(size, num_vectors);
                        break;
                    }
                    _ => panic!(),
                },
            }
        }
        assert_eq!(size, num_vectors);
    }
}

#[test]
// Checks that the allocator starts allocating vectors at the given offset.
fn test_allocator_respects_offset() {
    for offset in [1, 8, 16, 17, 32, 64, 65, 128] {
        let mut allocator = InterruptAllocator::new(1, offset);
        let vec = allocator.allocate().unwrap();

        assert_eq!(offset, vec);
        allocator.free(vec).unwrap();
    }
}

#[test]
// Checks that the calculations in allocate and free are correct.
fn test_allocator_alloc_and_free_all_vectors() {
    for size in [1, 8, 16, 17, 32, 64, 65, 128, 4096] {
        let mut allocator = InterruptAllocator::new(size, 0);
        let mut num_vectors = 0u32;

        while allocator.allocate().is_ok() {
            num_vectors += 1;
        }

        assert_eq!(size, num_vectors);
        num_vectors -= 1;

        loop {
            if let Err(e) = allocator.free(num_vectors) {
                panic!("Could not free {num_vectors}: {e:?}");
            }
            if let Some(v) = num_vectors.checked_sub(1) {
                num_vectors = v;
            } else {
                break;
            }
        }
    }
}

#[test]
// Checks that freeing a vector that isn't allocated results in an error.
fn test_can_only_free_allocated_vectors() {
    let mut allocator = InterruptAllocator::new(1, 0);

    let vec = allocator.allocate().unwrap();
    allocator.free(vec).unwrap();

    let e = allocator.free(vec);
    assert_eq!(e, Err(InterruptAllocError::AlreadyFree(vec)));
}

#[test]
// Checks that freeing a vector that is not in range of the allocator results
// in an error.
fn test_can_only_free_vectors_in_range() {
    let size = 1u32;
    let offset = 0u32;
    let mut allocator = InterruptAllocator::new(size, 0);

    // The allocator has vectors from `0 .. size - 1`, this `size` should be
    // out of range.
    let e = allocator.free(size);
    assert_eq!(
        e,
        Err(InterruptAllocError::OutOfRange(size, offset, offset + size))
    );
}

#[test]
fn freed_vector_is_allocated_again_first() {
    let mut allocator = InterruptAllocator::new(70, 10);
    for expected in 10..80 {
        assert_eq!(allocator.allocate(), Ok(expected));
    }
    assert_eq!(
        allocator.allocate(),
        Err(InterruptAllocError::ExhaustedError(70))
    );
    allocator.free(73).unwrap();
    allocator.free(12).unwrap();
    assert_eq!(allocator.allocate(), Ok(12));
    assert_eq!(allocator.allocate(), Ok(73));
    assert_eq!(
        allocator.free(9),
        Err(InterruptAllocError::OutOfRange(9, 10, 80))
    );
    assert_eq!(allocator.size(), 70);
}

#[test]
fn last_word_masks_what_lies_behind_the_end() {
    assert_eq!(InterruptAllocator::last_word(64), 0);
    assert_eq!(InterruptAllocator::last_word(1), 0xffff_ffff_ffff_fffe);
    assert_eq!(InterruptAllocator::last_word(63), 0x8000_0000_0000_0000);
    assert_eq!(InterruptAllocator::word_and_bit(130), (2, 2));
}

#[test]
fn gsis_start_behind_the_apics() {
    let apics = [GsiApic::new(5, 24), GsiApic::new(40, 8)];
    let mut allocator = GsiAllocator::new(&apics);
    assert_eq!(allocator.allocate_irq(), Ok(5));
    assert_eq!(allocator.allocate_irq(), Ok(6));
    assert_eq!(allocator.allocate_gsi(), Ok(48));
    assert_eq!(allocator.allocate_gsi(), Ok(49));
    allocator.free_gsi(48).unwrap();
    assert_eq!(
        allocator.free_gsi(48),
        Err(InterruptAllocError::AlreadyFree(48))
    );
    assert_eq!(allocator.allocate_gsi(), Ok(48));
}

#[test]
fn irqs_end_with_the_apic() {
    let mut allocator = GsiAllocator::new(&[GsiApic::new(0, 2)]);
    assert_eq!(allocator.allocate_irq(), Ok(0));
    assert_eq!(allocator.allocate_irq(), Ok(1));
    assert_eq!(
        allocator.allocate_irq(),
        Err(InterruptAllocError::ExhaustedError(4096))
    );
    assert_eq!(
        allocator.allocate_irq(),
        Err(InterruptAllocError::ExhaustedError(4096))
    );
}
