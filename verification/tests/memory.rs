use middle::{
    bytes_from_host, pack_parts, unforget, unpack_parts, vec_parts_from_host, vec_parts_to_host,
    wasm_alloc, GuestMemory, MemoryError,
};

#[test]
fn fresh_memory_has_nothing_outstanding() {
    let mem = GuestMemory::new();
    assert_eq!(mem.outstanding(), 0);
    assert!(!mem.holds(8));
}

#[test]
fn host_that_releases_every_block_once_ends_with_none() {
    let mut mem = GuestMemory::new();
    let a = wasm_alloc(&mut mem, 16).unwrap();
    let (b, b_len) = mem.transfer_out(vec![1, 2, 3]).unwrap();
    let c = wasm_alloc(&mut mem, 0).unwrap();
    assert_eq!(mem.outstanding(), 3);
    assert_eq!(unforget(&mut mem, b, b_len), Ok(()));
    assert_eq!(unforget(&mut mem, a, 16), Ok(()));
    assert_eq!(unforget(&mut mem, c, 0), Ok(()));
    assert_eq!(mem.outstanding(), 0);
}

#[test]
fn releasing_twice_is_detected() {
    let mut mem = GuestMemory::new();
    let a = wasm_alloc(&mut mem, 4).unwrap();
    assert_eq!(unforget(&mut mem, a, 4), Ok(()));
    assert_eq!(unforget(&mut mem, a, 4), Err(MemoryError::UnknownBlock));
    assert_eq!(mem.outstanding(), 0);
}

#[test]
fn omitted_release_stays_outstanding() {
    let mut mem = GuestMemory::new();
    let a = wasm_alloc(&mut mem, 4).unwrap();
    let b = wasm_alloc(&mut mem, 4).unwrap();
    assert_eq!(unforget(&mut mem, a, 4), Ok(()));
    assert_eq!(mem.outstanding(), 1);
    assert!(mem.holds(b));
    assert!(!mem.holds(a));
}

#[test]
fn release_of_an_address_never_handed_out_is_refused() {
    let mut mem = GuestMemory::new();
    assert_eq!(unforget(&mut mem, 8, 0), Err(MemoryError::UnknownBlock));
    assert_eq!(unforget(&mut mem, 4096, 16), Err(MemoryError::UnknownBlock));
}

#[test]
fn release_with_the_wrong_length_is_refused_and_changes_nothing() {
    let mut mem = GuestMemory::new();
    let a = wasm_alloc(&mut mem, 4).unwrap();
    assert_eq!(unforget(&mut mem, a, 5), Err(MemoryError::SizeMismatch));
    assert_eq!(mem.outstanding(), 1);
    assert_eq!(unforget(&mut mem, a, 4), Ok(()));
}

#[test]
fn addresses_start_at_the_base_and_are_handed_out_in_order() {
    let mut mem = GuestMemory::new();
    assert_eq!(wasm_alloc(&mut mem, 10), Ok(8));
    assert_eq!(wasm_alloc(&mut mem, 0), Ok(18));
    assert_eq!(wasm_alloc(&mut mem, 1), Ok(19));
    assert_eq!(mem.transfer_out(vec![7; 5]), Ok((20, 5)));
    assert_eq!(wasm_alloc(&mut mem, 3), Ok(25));
}

#[test]
fn a_released_address_is_not_handed_out_again() {
    let mut mem = GuestMemory::new();
    let a = wasm_alloc(&mut mem, 4).unwrap();
    unforget(&mut mem, a, 4).unwrap();
    let b = wasm_alloc(&mut mem, 4).unwrap();
    assert_ne!(a, b);
    assert_eq!(unforget(&mut mem, a, 4), Err(MemoryError::UnknownBlock));
}

#[test]
fn allocated_block_holds_zeros_until_the_host_writes() {
    let mut mem = GuestMemory::new();
    let a = wasm_alloc(&mut mem, 3).unwrap();
    assert_eq!(mem.host_read(a, 3), Ok(vec![0, 0, 0]));
    assert_eq!(mem.host_write(a, &[9, 8, 7]), Ok(()));
    assert_eq!(mem.host_read(a, 3), Ok(vec![9, 8, 7]));
    assert_eq!(mem.capture_in(a, 3), Ok(vec![9, 8, 7]));
    assert_eq!(mem.outstanding(), 0);
}

#[test]
fn host_write_checks_the_block_and_its_length() {
    let mut mem = GuestMemory::new();
    let a = wasm_alloc(&mut mem, 3).unwrap();
    assert_eq!(mem.host_write(a, &[1, 2]), Err(MemoryError::SizeMismatch));
    assert_eq!(mem.host_write(a + 1, &[1, 2, 3]), Err(MemoryError::UnknownBlock));
    assert_eq!(mem.host_read(a, 2), Err(MemoryError::SizeMismatch));
    assert_eq!(mem.host_read(a + 1, 3), Err(MemoryError::UnknownBlock));
    assert_eq!(mem.host_read(a, 3), Ok(vec![0, 0, 0]));
}

#[test]
fn transfer_out_then_capture_in_gives_the_bytes_back() {
    let mut mem = GuestMemory::new();
    let (addr, len) = mem.transfer_out(vec![10, 20, 30, 40]).unwrap();
    assert_eq!(len, 4);
    assert_eq!(mem.capture_in(addr, len), Ok(vec![10, 20, 30, 40]));
    assert_eq!(mem.capture_in(addr, len), Err(MemoryError::UnknownBlock));
}

#[test]
fn allocation_fails_when_the_address_space_is_used_up() {
    let mut mem = GuestMemory::new();
    assert_eq!(wasm_alloc(&mut mem, u32::MAX), Err(MemoryError::OutOfMemory));
    assert!(mem.fits(16));
    assert!(!mem.fits(u32::MAX));
    assert_eq!(mem.outstanding(), 0);
    assert_eq!(wasm_alloc(&mut mem, 1), Ok(8));
}

#[test]
fn record_is_address_then_length_little_endian() {
    assert_eq!(
        pack_parts(0x0403_0201, 0x0807_0605),
        vec![0x01, 0x02, 0x03, 0x04, 0x05, 0x06, 0x07, 0x08]
    );
    assert_eq!(pack_parts(8, 3), vec![8, 0, 0, 0, 3, 0, 0, 0]);
    assert_eq!(pack_parts(u32::MAX, 0), vec![255, 255, 255, 255, 0, 0, 0, 0]);
}

#[test]
fn record_round_trips() {
    for (offset, size) in [(0u32, 0u32), (8, 3), (0x1234_5678, 0x9abc_def0), (u32::MAX, u32::MAX)] {
        assert_eq!(unpack_parts(&pack_parts(offset, size)), Some((offset, size)));
    }
}

#[test]
fn a_record_has_exactly_eight_bytes() {
    assert_eq!(unpack_parts(&[0; 7]), None);
    assert_eq!(unpack_parts(&[0; 9]), None);
    assert_eq!(unpack_parts(&[]), None);
    assert_eq!(unpack_parts(&[1, 0, 0, 0, 2, 0, 0, 0]), Some((1, 2)));
}

#[test]
fn record_crosses_in_a_block_of_its_own() {
    let mut mem = GuestMemory::new();
    let (payload, len) = mem.transfer_out(vec![5, 6, 7]).unwrap();
    let record = vec_parts_to_host(&mut mem, payload, len).unwrap();
    assert_eq!(mem.outstanding(), 2);
    let bytes = mem.host_read(record, 8).unwrap();
    assert_eq!(unpack_parts(&bytes), Some((payload, len)));
    assert_eq!(unforget(&mut mem, record, 8), Ok(()));
    assert_eq!(unforget(&mut mem, payload, len), Ok(()));
    assert_eq!(mem.outstanding(), 0);
}

#[test]
fn record_from_the_host_is_read_and_consumed() {
    let mut mem = GuestMemory::new();
    let record = wasm_alloc(&mut mem, 8).unwrap();
    mem.host_write(record, &pack_parts(77, 5)).unwrap();
    assert_eq!(vec_parts_from_host(&mut mem, record), Ok((77, 5)));
    assert_eq!(vec_parts_from_host(&mut mem, record), Err(MemoryError::UnknownBlock));
    let short = wasm_alloc(&mut mem, 4).unwrap();
    assert_eq!(vec_parts_from_host(&mut mem, short), Err(MemoryError::SizeMismatch));
    assert!(mem.holds(short));
}

#[test]
fn reply_behind_a_record_is_taken_whole() {
    let mut mem = GuestMemory::new();
    let payload = wasm_alloc(&mut mem, 3).unwrap();
    mem.host_write(payload, &[1, 2, 3]).unwrap();
    let record = wasm_alloc(&mut mem, 8).unwrap();
    mem.host_write(record, &pack_parts(payload, 3)).unwrap();
    assert_eq!(bytes_from_host(&mut mem, record), Ok(vec![1, 2, 3]));
    assert_eq!(mem.outstanding(), 0);
}

#[test]
fn reply_whose_record_points_nowhere_is_refused() {
    let mut mem = GuestMemory::new();
    let record = wasm_alloc(&mut mem, 8).unwrap();
    mem.host_write(record, &pack_parts(4000, 3)).unwrap();
    assert_eq!(bytes_from_host(&mut mem, record), Err(MemoryError::UnknownBlock));
    assert_eq!(mem.outstanding(), 0);
    assert_eq!(bytes_from_host(&mut mem, 9999), Err(MemoryError::UnknownBlock));
}
