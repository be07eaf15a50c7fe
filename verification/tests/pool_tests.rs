use gopher_overlay::pool::{
    BufferPool, ResourceError, SlotRef, WriteError, HEADER_BYTES, MAX_REGION_BYTES,
};

#[test]
fn allocate_refuses_a_pool_without_slots() {
    assert_eq!(BufferPool::allocate(16, 0).err(), Some(ResourceError::NoSlots));
    assert_eq!(BufferPool::allocate(usize::MAX, 0).err(), Some(ResourceError::NoSlots));
}

#[test]
fn allocate_refuses_a_region_past_the_limit() {
    assert_eq!(
        BufferPool::allocate(MAX_REGION_BYTES, 1).err(),
        Some(ResourceError::RegionTooLarge)
    );
    assert_eq!(
        BufferPool::allocate(MAX_REGION_BYTES - 3, 1).err(),
        Some(ResourceError::RegionTooLarge)
    );
    assert_eq!(BufferPool::allocate(1 << 30, 2).err(), Some(ResourceError::RegionTooLarge));
    assert_eq!(
        BufferPool::allocate(usize::MAX, usize::MAX).err(),
        Some(ResourceError::RegionTooLarge)
    );
}

#[test]
fn allocate_lays_out_header_and_slots() {
    let pool = BufferPool::allocate(6400, 2).unwrap();
    assert_eq!(HEADER_BYTES, 4);
    assert_eq!(pool.depth(), 2);
    assert_eq!(pool.frame_byte_size(), 6400);
    assert_eq!(pool.region_size(), 4 + 2 * 6400);
    assert_eq!(pool.region().len(), 12804);
    assert!(pool.region().iter().all(|b| *b == 0));
    assert_eq!(pool.slot(0), Some(SlotRef { handle: 0, offset: 4, len: 6400 }));
    assert_eq!(pool.slot(1), Some(SlotRef { handle: 1, offset: 6404, len: 6400 }));
    assert_eq!(pool.slot(2), None);
    assert_eq!(pool.held_count(), 0);
}

#[test]
fn allocate_accepts_slots_of_no_bytes() {
    let pool = BufferPool::allocate(0, 3).unwrap();
    assert_eq!(pool.region_size(), 4);
    assert_eq!(pool.slot(2), Some(SlotRef { handle: 2, offset: 4, len: 0 }));
}

#[test]
fn acquire_hands_out_the_first_free_slot() {
    let mut pool = BufferPool::allocate(8, 3).unwrap();
    let first = pool.acquire_free_slot().unwrap();
    assert_eq!(first, SlotRef { handle: 0, offset: 4, len: 8 });
    // Asking again without handing the slot over gives the same slot.
    assert_eq!(pool.acquire_free_slot(), Some(first));
    pool.mark_held(&first);
    let second = pool.acquire_free_slot().unwrap();
    assert_eq!(second, SlotRef { handle: 1, offset: 12, len: 8 });
    pool.mark_held(&pool.slot(2).unwrap());
    assert_eq!(pool.acquire_free_slot(), Some(second));
}

#[test]
fn both_slots_held_then_release_of_slot_zero() {
    let mut pool = BufferPool::allocate(8, 2).unwrap();
    let slot0 = pool.slot(0).unwrap();
    let slot1 = pool.slot(1).unwrap();
    pool.mark_held(&slot0);
    pool.mark_held(&slot1);
    assert_eq!(pool.acquire_free_slot(), None);
    pool.release(slot0.handle);
    assert_eq!(pool.acquire_free_slot(), Some(slot0));
}

#[test]
fn held_count_stays_within_depth() {
    let mut pool = BufferPool::allocate(4, 2).unwrap();
    let slot0 = pool.slot(0).unwrap();
    let slot1 = pool.slot(1).unwrap();
    assert_eq!(pool.held_count(), 0);
    pool.release(0);
    assert_eq!(pool.held_count(), 0);
    pool.mark_held(&slot0);
    assert_eq!(pool.held_count(), 1);
    pool.mark_held(&slot0);
    assert_eq!(pool.held_count(), 1);
    pool.mark_held(&slot1);
    assert_eq!(pool.held_count(), 2);
    pool.mark_held(&SlotRef { handle: 2, offset: 12, len: 4 });
    assert_eq!(pool.held_count(), 2);
    pool.release(1);
    pool.release(1);
    assert_eq!(pool.held_count(), 1);
    pool.release(0);
    pool.release(0);
    assert_eq!(pool.held_count(), 0);
}

#[test]
fn release_is_idempotent_and_ignores_unknown_handles() {
    let mut pool = BufferPool::allocate(4, 2).unwrap();
    let slot1 = pool.slot(1).unwrap();
    pool.mark_held(&slot1);
    pool.release(7);
    pool.release(u64::MAX);
    assert!(pool.is_held(1));
    assert!(!pool.is_held(0));
    assert!(!pool.is_held(7));
    pool.release(1);
    assert!(!pool.is_held(1));
    pool.release(1);
    assert!(!pool.is_held(1));
    assert_eq!(pool.held_count(), 0);
}

#[test]
fn write_fills_the_slot_and_nothing_else() {
    let mut pool = BufferPool::allocate(4, 3).unwrap();
    let slot1 = pool.slot(1).unwrap();
    assert_eq!(pool.write_slot(&slot1, &vec![9, 8, 7, 6]), Ok(()));
    assert_eq!(pool.region(), &vec![0, 0, 0, 0, 0, 0, 0, 0, 9, 8, 7, 6, 0, 0, 0, 0]);
    let slot2 = pool.slot(2).unwrap();
    assert_eq!(pool.write_slot(&slot2, &vec![1, 2, 3, 4]), Ok(()));
    assert_eq!(pool.region(), &vec![0, 0, 0, 0, 0, 0, 0, 0, 9, 8, 7, 6, 1, 2, 3, 4]);
}

#[test]
fn write_into_a_held_slot_is_refused() {
    let mut pool = BufferPool::allocate(4, 2).unwrap();
    let slot0 = pool.slot(0).unwrap();
    assert_eq!(pool.write_slot(&slot0, &vec![1, 2, 3, 4]), Ok(()));
    pool.mark_held(&slot0);
    let before = pool.region().clone();
    assert_eq!(pool.write_slot(&slot0, &vec![5, 6, 7, 8]), Err(WriteError::SlotHeld));
    assert_eq!(pool.region(), &before);
    // Whatever else happens, the held slot keeps its bytes until released.
    let slot1 = pool.slot(1).unwrap();
    assert_eq!(pool.write_slot(&slot1, &vec![5, 6, 7, 8]), Ok(()));
    pool.mark_held(&slot1);
    pool.release(1);
    assert_eq!(&pool.region()[4..8], &[1, 2, 3, 4]);
    pool.release(0);
    assert_eq!(pool.write_slot(&slot0, &vec![5, 6, 7, 8]), Ok(()));
    assert_eq!(&pool.region()[4..8], &[5, 6, 7, 8]);
}

#[test]
fn write_refuses_unknown_slots_and_wrong_lengths() {
    let mut pool = BufferPool::allocate(4, 2).unwrap();
    let stranger = SlotRef { handle: 2, offset: 12, len: 4 };
    assert_eq!(pool.write_slot(&stranger, &vec![1, 2, 3, 4]), Err(WriteError::UnknownSlot));
    let slot0 = pool.slot(0).unwrap();
    assert_eq!(pool.write_slot(&slot0, &vec![1, 2, 3]), Err(WriteError::LengthMismatch));
    assert_eq!(pool.write_slot(&slot0, &vec![1, 2, 3, 4, 5]), Err(WriteError::LengthMismatch));
    pool.mark_held(&slot0);
    assert_eq!(pool.write_slot(&slot0, &vec![1, 2, 3]), Err(WriteError::SlotHeld));
    assert!(pool.region().iter().all(|b| *b == 0));
}

#[test]
fn single_slot_pool_starves_until_released() {
    let mut pool = BufferPool::allocate(4, 1).unwrap();
    let slot = pool.acquire_free_slot().unwrap();
    pool.mark_held(&slot);
    assert_eq!(pool.acquire_free_slot(), None);
    assert_eq!(pool.held_count(), 1);
    pool.release(slot.handle);
    assert_eq!(pool.acquire_free_slot(), Some(slot));
}
