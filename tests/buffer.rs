use turtle::buffer::{
    aligned_size, byte_size, Buffer, BufferError, MemoryLocation, BUFFER_ALIGNMENT, USAGE_INDEX_BUFFER,
    USAGE_UNIFORM_BUFFER,
};

#[test]
fn aligned_size_rounds_up_to_alignment() {
    assert_eq!(BUFFER_ALIGNMENT, 256);
    assert_eq!(aligned_size(0), Some(0));
    assert_eq!(aligned_size(1), Some(256));
    assert_eq!(aligned_size(256), Some(256));
    assert_eq!(aligned_size(257), Some(512));
    assert_eq!(aligned_size(800_000), Some(800_000));
    assert_eq!(aligned_size(800_001), Some(800_256));
}

#[test]
fn aligned_size_overflow() {
    assert_eq!(aligned_size(u64::MAX), None);
    assert_eq!(aligned_size(u64::MAX - 255), Some(u64::MAX - 255));
    assert_eq!(aligned_size(u64::MAX - 254), None);
}

#[test]
fn byte_size_of_slices() {
    assert_eq!(byte_size::<u32>(&[1, 2, 3]), Some(12));
    assert_eq!(byte_size::<u64>(&[]), Some(0));
    assert_eq!(byte_size::<()>(&[(), (), ()]), Some(0));
}

#[test]
fn create_aligns_capacity() {
    let b = Buffer::create(100, USAGE_INDEX_BUFFER, MemoryLocation::GpuOnly).unwrap();
    assert_eq!(b.size, 256);
    assert_eq!(b.written, 0);
    assert_eq!(b.usage, USAGE_INDEX_BUFFER);
    assert_eq!(b.location, MemoryLocation::GpuOnly);
}

#[test]
fn create_too_large_fails() {
    assert_eq!(
        Buffer::create(u64::MAX, USAGE_UNIFORM_BUFFER, MemoryLocation::CpuToGpu).err(),
        Some(BufferError::SizeOverflow)
    );
}

#[test]
fn smaller_writes_never_shrink() {
    let mut b = Buffer::create(1, USAGE_UNIFORM_BUFFER, MemoryLocation::CpuToGpu).unwrap();
    let big = vec![7u32; 1000];
    assert_eq!(b.copy_memory(&big), Ok(true));
    assert_eq!(b.size, 4096);
    let small = vec![7u32; 10];
    assert_eq!(b.copy_memory(&small), Ok(false));
    assert_eq!(b.size, 4096);
    assert_eq!(b.written, 40);
    assert_eq!(b.copy_memory(&big), Ok(false));
    assert_eq!(b.size, 4096);
    let empty: Vec<u32> = Vec::new();
    assert_eq!(b.copy_memory(&empty), Ok(false));
    assert_eq!(b.size, 4096);
    assert_eq!(b.written, 0);
}

#[test]
fn growth_goes_to_next_aligned_size() {
    let mut b = Buffer::create(256, USAGE_UNIFORM_BUFFER, MemoryLocation::CpuToGpu).unwrap();
    let data = vec![0u8; 257];
    assert_eq!(b.copy_memory(&data), Ok(true));
    assert_eq!(b.size, 512);
    let exact = vec![0u8; 512];
    assert_eq!(b.copy_memory(&exact), Ok(false));
    assert_eq!(b.size, 512);
}
