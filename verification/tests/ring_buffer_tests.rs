use synthphone_vocals::ring_buffer::RingBuffer;

#[test]
fn test_ring_buffer_basic_operations() {
    let mut buffer: RingBuffer<f32, 1024> = RingBuffer::new(0.0);

    // Test initial state
    assert_eq!(buffer.available_samples(), 0);
    assert_eq!(buffer.write_index(), 0);

    // Test push and pop
    buffer.push(0.5);
    buffer.push(0.25);
    assert_eq!(buffer.available_samples(), 2);

    let sample1 = buffer.pop();
    assert!((sample1 - 0.5).abs() < f32::EPSILON);
    assert_eq!(buffer.available_samples(), 1);

    let sample2 = buffer.pop();
    assert!((sample2 - 0.25).abs() < f32::EPSILON);
    assert_eq!(buffer.available_samples(), 0);
}

#[test]
fn test_ring_buffer_with_offset() {
    let buffer: RingBuffer<f32, 1024> = RingBuffer::with_offset(0.0, 512);
    assert_eq!(buffer.write_index(), 512);
    assert_eq!(buffer.available_samples(), 512);
}

#[test]
fn test_advance_write() {
    let mut buffer: RingBuffer<f32, 1024> = RingBuffer::new(0.0);
    buffer.advance_write(10);
    assert_eq!(buffer.write_index(), 10);
    assert_eq!(buffer.available_samples(), 10);
}

#[test]
fn test_add_at_offset() {
    let mut buffer: RingBuffer<f32, 1024> = RingBuffer::new(0.0);

    // Push some initial data
    buffer.push(1.0);
    buffer.push(2.0);

    // Add value at offset 0 (current read position)
    let present = buffer.get_at_offset(0);
    buffer.set_at_offset(0, present + 0.5);

    // Pop and check the modified value
    let sample = buffer.pop();
    assert!((sample - 1.5).abs() < f32::EPSILON); // 1.0 + 0.5
}

#[test]
fn test_latest_block() {
    let mut buffer: RingBuffer<f32, 1024> = RingBuffer::new(0.0);

    // Push some test data
    for i in 0..8 {
        buffer.push(i as f32);
    }

    // Get latest 4 samples
    let mut block = vec![0.0f32; 4];
    buffer.latest_block(&mut block);

    // Should contain samples [4.0, 5.0, 6.0, 7.0]
    assert!((block[0] - 4.0).abs() < f32::EPSILON);
    assert!((block[1] - 5.0).abs() < f32::EPSILON);
    assert!((block[2] - 6.0).abs() < f32::EPSILON);
    assert!((block[3] - 7.0).abs() < f32::EPSILON);
}

#[test]
fn test_block_from() {
    let mut buffer: RingBuffer<f32, 1024> = RingBuffer::new(0.0);

    // Push some test data
    for i in 0..8 {
        buffer.push(i as f32);
    }

    let write_idx = buffer.write_index();
    let mut block = vec![0.0f32; 4];
    buffer.block_from(write_idx, &mut block);

    // Should contain the last 4 samples written
    assert!((block[0] - 4.0).abs() < f32::EPSILON);
    assert!((block[1] - 5.0).abs() < f32::EPSILON);
    assert!((block[2] - 6.0).abs() < f32::EPSILON);
    assert!((block[3] - 7.0).abs() < f32::EPSILON);
}

#[test]
fn test_ring_buffer_wrap_around() {
    let mut buffer: RingBuffer<f32, 4> = RingBuffer::new(0.0); // Small buffer for testing wrap

    // Fill buffer beyond capacity - this will overwrite old data
    for i in 0..8 {
        buffer.push(i as f32);
    }

    // Buffer tracks 8 samples written, but only has space for 4
    assert_eq!(buffer.available_samples(), 8);

    // Due to wrapping, the buffer storage contains the last 4 values: [4, 5, 6, 7]
    // But we can pop 8 times due to the write/read pointer difference
    // First 4 pops get the stored values: 4, 5, 6, 7
    for i in 0..4 {
        let sample = buffer.pop();
        assert!(
            (sample - (i + 4) as f32).abs() < f32::EPSILON,
            "Expected {}, got {}",
            (i + 4) as f32,
            sample
        );
    }

    // Next 4 pops get zeros (from previously cleared slots)
    for _ in 0..4 {
        let sample = buffer.pop();
        assert!((sample - 0.0).abs() < f32::EPSILON);
    }

    // After popping all, buffer should be empty
    assert_eq!(buffer.available_samples(), 0);
}

#[test]
fn test_ring_buffer_overwrite_behavior() {
    let mut buffer: RingBuffer<f32, 4> = RingBuffer::new(0.0); // Small buffer

    // Fill buffer to capacity
    for i in 0..4 {
        buffer.push(i as f32);
    }
    assert_eq!(buffer.available_samples(), 4);

    // Pop all values - should get 0, 1, 2, 3
    for i in 0..4 {
        let sample = buffer.pop();
        assert!((sample - i as f32).abs() < f32::EPSILON);
    }

    // Buffer is now empty
    assert_eq!(buffer.available_samples(), 0);

    // Fill again with new values
    for i in 10..14 {
        buffer.push(i as f32);
    }

    // Should get the new values: 10, 11, 12, 13
    for i in 10..14 {
        let sample = buffer.pop();
        assert!((sample - i as f32).abs() < f32::EPSILON);
    }
}

#[test]
fn test_ring_buffer_cursor_wrapping() {
    // The cursors are 32-bit and wrap; available_samples is their difference
    // modulo 2^32.
    let mut buffer: RingBuffer<u32, 8> = RingBuffer::with_offset(0, u32::MAX);
    buffer.push(7);
    assert_eq!(buffer.write_index(), 0);
    buffer.push(9);
    assert_eq!(buffer.write_index(), 1);
}

#[test]
fn test_ring_buffer_integer_elements() {
    let mut buffer: RingBuffer<i64, 8> = RingBuffer::new(0);
    buffer.push(-3);
    buffer.push(12);
    assert_eq!(buffer.pop(), -3);
    assert_eq!(buffer.pop(), 12);
    // Past the write cursor the cleared fill value comes back.
    assert_eq!(buffer.pop(), 0);
}
