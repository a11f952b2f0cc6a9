use sallocator::allocator;
use sallocator::{HeapError, Phase, Sallocator};

#[test]
fn scenario_resize_then_read_back() {
    let mut sal: Sallocator<u32> = Sallocator::new().unwrap();
    sal.malloc(std::mem::size_of::<u32>() * 10).unwrap();
    assert_eq!(sal.byte_size(), 40);
    sal.set(9, 123).unwrap();
    sal.realloc(std::mem::size_of::<u32>() * 11).unwrap();
    assert_eq!(sal.byte_size(), 44);
    sal.set(10, 124).unwrap();
    assert_eq!(sal.get(9), Ok(123));
    assert_eq!(sal.get(10), Ok(124));
    assert_eq!(sal.free(), Ok(()));
    assert_eq!(sal.destroy(), Ok(()));
}

#[test]
fn set_then_get_each_index() {
    let mut sal: Sallocator<i64> = Sallocator::new().unwrap();
    sal.malloc(8 * 5).unwrap();
    for i in 0..5isize {
        sal.set(i, -(i as i64) * 1000).unwrap();
    }
    for i in 0..5isize {
        assert_eq!(sal.get(i), Ok(-(i as i64) * 1000));
    }
}

#[test]
fn fresh_reservation_reads_zero() {
    let mut sal: Sallocator<u16> = Sallocator::new().unwrap();
    sal.malloc(6).unwrap();
    assert_eq!(sal.get(0), Ok(0));
    assert_eq!(sal.get(2), Ok(0));
    assert_eq!(sal.get(3), Err(HeapError::SallocGetOutOfBound));
}

#[test]
fn partial_element_is_not_addressable() {
    let mut sal: Sallocator<u32> = Sallocator::new().unwrap();
    sal.malloc(7).unwrap();
    assert_eq!(sal.set(0, 1), Ok(()));
    assert_eq!(sal.set(1, 1), Err(HeapError::SallocSetOutOfBound));
}

#[test]
fn out_of_bound_rejected_and_contents_kept() {
    let mut sal: Sallocator<u32> = Sallocator::new().unwrap();
    sal.malloc(16).unwrap();
    for i in 0..4isize {
        sal.set(i, 10 + i as u32).unwrap();
    }
    for bad in [-1isize, -100, 4, 5, isize::MIN, isize::MAX] {
        assert_eq!(sal.set(bad, 99), Err(HeapError::SallocSetOutOfBound));
        assert_eq!(sal.get(bad), Err(HeapError::SallocGetOutOfBound));
    }
    for i in 0..4isize {
        assert_eq!(sal.get(i), Ok(10 + i as u32));
    }
}

#[test]
fn unallocated_rejected() {
    let mut sal: Sallocator<u8> = Sallocator::new().unwrap();
    assert_eq!(sal.state(), Phase::Ready);
    assert_eq!(sal.byte_size(), 0);
    for i in [-1isize, 0, 1, 1000] {
        assert_eq!(sal.set(i, 1), Err(HeapError::SallocSetUnallocated));
        assert_eq!(sal.get(i), Err(HeapError::SallocGetUnallocated));
    }
}

#[test]
fn grow_keeps_prefix_and_zero_fills() {
    let mut sal: Sallocator<u32> = Sallocator::new().unwrap();
    sal.malloc(12).unwrap();
    for i in 0..3isize {
        sal.set(i, 7 + i as u32).unwrap();
    }
    sal.realloc(28).unwrap();
    for i in 0..3isize {
        assert_eq!(sal.get(i), Ok(7 + i as u32));
    }
    for i in 3..7isize {
        assert_eq!(sal.get(i), Ok(0));
    }
    assert_eq!(sal.get(7), Err(HeapError::SallocGetOutOfBound));
}

#[test]
fn shrink_keeps_prefix() {
    let mut sal: Sallocator<u8> = Sallocator::new().unwrap();
    sal.malloc(4).unwrap();
    for i in 0..4isize {
        sal.set(i, 1 + i as u8).unwrap();
    }
    sal.realloc(2).unwrap();
    assert_eq!(sal.byte_size(), 2);
    assert_eq!(sal.get(0), Ok(1));
    assert_eq!(sal.get(1), Ok(2));
    assert_eq!(sal.get(2), Err(HeapError::SallocGetOutOfBound));
    sal.realloc(4).unwrap();
    assert_eq!(sal.get(2), Ok(0));
    assert_eq!(sal.get(3), Ok(0));
}

#[test]
fn free_resets_state() {
    let mut sal: Sallocator<u32> = Sallocator::new().unwrap();
    sal.malloc(8).unwrap();
    sal.set(1, 5).unwrap();
    assert_eq!(sal.free(), Ok(()));
    assert_eq!(sal.byte_size(), 0);
    assert_eq!(sal.state(), Phase::Ready);
    assert_eq!(sal.set(0, 1), Err(HeapError::SallocSetUnallocated));
    assert_eq!(sal.get(0), Err(HeapError::SallocGetUnallocated));
    assert_eq!(sal.free(), Err(HeapError::SallocFreeUnallocated));
}

#[test]
fn context_survives_free() {
    let mut sal: Sallocator<u32> = Sallocator::new().unwrap();
    sal.malloc(8).unwrap();
    sal.set(1, 5).unwrap();
    sal.free().unwrap();
    sal.malloc(8).unwrap();
    assert_eq!(sal.get(1), Ok(0));
}

#[test]
fn destroy_is_terminal() {
    let mut sal: Sallocator<u32> = Sallocator::new().unwrap();
    sal.malloc(8).unwrap();
    assert_eq!(sal.destroy(), Ok(()));
    assert_eq!(sal.state(), Phase::Destroyed);
    assert_eq!(sal.byte_size(), 0);
    assert_eq!(sal.malloc(8), Err(HeapError::SallocMallocFailed));
    assert_eq!(sal.realloc(8), Err(HeapError::SallocReallocFailed));
    assert_eq!(sal.get(0), Err(HeapError::SallocGetUnallocated));
    assert_eq!(sal.free(), Err(HeapError::SallocFreeUnallocated));
    assert_eq!(sal.destroy(), Err(HeapError::SallocDestroyFailed));
}

#[test]
fn reacquire_without_release_refused() {
    let mut sal: Sallocator<u32> = Sallocator::new().unwrap();
    sal.malloc(8).unwrap();
    sal.set(0, 3).unwrap();
    assert_eq!(sal.malloc(16), Err(HeapError::SallocAlreadyAllocated));
    assert_eq!(sal.byte_size(), 8);
    assert_eq!(sal.get(0), Ok(3));
}

#[test]
fn realloc_unallocated_refused() {
    let mut sal: Sallocator<u32> = Sallocator::new().unwrap();
    assert_eq!(sal.realloc(8), Err(HeapError::SallocReallocFailed));
    assert_eq!(sal.state(), Phase::Ready);
}

#[test]
fn oversized_malloc_fails() {
    let mut sal: Sallocator<u8> = Sallocator::new().unwrap();
    assert_eq!(sal.malloc(usize::MAX), Err(HeapError::SallocMallocFailed));
    assert_eq!(sal.state(), Phase::Ready);
    assert_eq!(sal.byte_size(), 0);
}

#[test]
fn oversized_realloc_fails_and_keeps_state() {
    let mut sal: Sallocator<u32> = Sallocator::new().unwrap();
    sal.malloc(8).unwrap();
    sal.set(1, 42).unwrap();
    assert_eq!(sal.realloc(usize::MAX), Err(HeapError::SallocReallocFailed));
    assert_eq!(sal.byte_size(), 8);
    assert_eq!(sal.get(1), Ok(42));
}

#[test]
fn zero_byte_reservation_has_no_elements() {
    let mut sal: Sallocator<u64> = Sallocator::new().unwrap();
    sal.malloc(0).unwrap();
    assert_eq!(sal.state(), Phase::Allocated);
    assert_eq!(sal.get(0), Err(HeapError::SallocGetOutOfBound));
    assert_eq!(sal.free(), Ok(()));
}

#[test]
fn error_names() {
    assert_eq!(HeapError::SallocCreateFailed.to_string(), "SallocCreateFailed");
    assert_eq!(HeapError::SallocSetOutOfBound.to_string(), "SallocSetOutOfBound");
    assert_eq!(HeapError::SallocDestroyFailed.to_string(), "SallocDestroyFailed");
    assert_eq!(HeapError::SallocAlreadyAllocated.to_string(), "SallocAlreadyAllocated");
}

#[test]
fn fixed_size_lifecycle() {
    let mut sal: allocator::Sallocator<u32> = allocator::Sallocator::new(40);
    assert_eq!(sal.set(0, 1), Err(HeapError::SallocSetUnallocated));
    assert_eq!(sal.get(0), Err(HeapError::SallocGetUnallocated));
    assert_eq!(sal.salloc(), Ok(()));
    assert_eq!(sal.get(9), Ok(0));
    assert_eq!(sal.set(9, 123), Ok(()));
    assert_eq!(sal.get(9), Ok(123));
    assert_eq!(sal.set(10, 1), Err(HeapError::SallocSetOutOfBound));
    assert_eq!(sal.get(-1), Err(HeapError::SallocGetOutOfBound));
    assert_eq!(sal.salloc(), Err(HeapError::SallocAlreadyAllocated));
    assert_eq!(sal.get(9), Ok(123));
    assert_eq!(sal.free(), Ok(()));
    assert_eq!(sal.free(), Err(HeapError::SallocFreeUnallocated));
    assert_eq!(sal.salloc(), Ok(()));
    assert_eq!(sal.get(9), Ok(0));
}

#[test]
fn fixed_size_oversized_fails() {
    let mut sal: allocator::Sallocator<u64> = allocator::Sallocator::new(usize::MAX);
    assert_eq!(sal.salloc(), Err(HeapError::SallocMallocFailed));
    assert_eq!(sal.get(0), Err(HeapError::SallocGetUnallocated));
}

#[test]
fn reservation_below_one_element_is_granted() {
    let mut sal: Sallocator<u32> = Sallocator::new().unwrap();
    assert_eq!(sal.malloc(3), Ok(()));
    assert_eq!(sal.byte_size(), 3);
    assert_eq!(sal.get(0), Err(HeapError::SallocGetOutOfBound));
    let mut fixed: allocator::Sallocator<u64> = allocator::Sallocator::new(7);
    assert_eq!(fixed.salloc(), Ok(()));
    assert_eq!(fixed.set(0, 1), Err(HeapError::SallocSetOutOfBound));
}
