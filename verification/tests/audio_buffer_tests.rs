//! Tests of the rolling audio buffer: creation, FIFO order, the
//! drop-oldest overflow policy and the fill-level bookkeeping.

use aether_core::audio_buffer::{AudioBuffer, AudioBufferError, BUFFER_SIZE, SAMPLE_RATE};

#[test]
fn test_buffer_creation() {
    let buffer = AudioBuffer::new();
    assert_eq!(buffer.capacity(), BUFFER_SIZE);
    assert_eq!(buffer.len(), 0);
    assert!(buffer.is_empty());
    assert_eq!(buffer.sample_rate(), SAMPLE_RATE);
}

#[test]
fn test_write_and_read() {
    let mut buffer = AudioBuffer::with_capacity(1000);
    let samples: Vec<i16> = (0..100).map(|i| i as i16).collect();

    let written = buffer.write(&samples);
    assert_eq!(written, 100);
    assert_eq!(buffer.len(), 100);

    let read = buffer.read(50).unwrap();
    assert_eq!(read.len(), 50);
    assert_eq!(buffer.len(), 50);
    assert_eq!(read[0], 0);
    assert_eq!(read[49], 49);
}

#[test]
fn test_peek_does_not_remove() {
    let mut buffer = AudioBuffer::with_capacity(1000);
    let samples: Vec<i16> = vec![1, 2, 3, 4, 5];

    buffer.write(&samples);
    let peeked = buffer.peek(3);

    assert_eq!(peeked, vec![1, 2, 3]);
    assert_eq!(buffer.len(), 5);
}

#[test]
fn test_buffer_overflow() {
    let mut buffer = AudioBuffer::with_capacity(100);
    let samples: Vec<i16> = vec![1; 150];

    // Writing more than capacity drops the oldest samples.
    let written = buffer.write(&samples);
    assert_eq!(written, 150);
    assert_eq!(buffer.len(), 100);
}

#[test]
fn test_buffer_underflow() {
    let mut buffer = AudioBuffer::with_capacity(100);
    let samples: Vec<i16> = vec![1; 50];
    buffer.write(&samples);

    let result = buffer.read(100);
    assert!(result.is_err());

    match result {
        Err(AudioBufferError::Underflow(requested, available)) => {
            assert_eq!(requested, 100);
            assert_eq!(available, 50);
        }
        _ => panic!("Expected Underflow error"),
    }
}

#[test]
fn test_clear() {
    let mut buffer = AudioBuffer::with_capacity(1000);
    buffer.write(&vec![1; 500]);
    assert_eq!(buffer.len(), 500);

    buffer.clear();
    assert_eq!(buffer.len(), 0);
    assert!(buffer.is_empty());
}

#[test]
fn test_ring_buffer_wrapping() {
    let mut buffer = AudioBuffer::with_capacity(10);

    buffer.write(&vec![1; 10]);
    assert_eq!(buffer.len(), 10);

    // Writing more wraps around, dropping the five oldest ones.
    buffer.write(&vec![2; 5]);
    assert_eq!(buffer.len(), 10);

    // Peek returns FIFO order: the five surviving old samples first, the
    // five new ones after them.
    let data = buffer.peek(10);
    assert_eq!(data[0], 1);
    assert_eq!(data[5], 2);
    assert_eq!(data[9], 2);
}

#[test]
fn test_free_space() {
    let mut buffer = AudioBuffer::with_capacity(100);
    assert_eq!(buffer.free_space(), 100);

    buffer.write(&vec![1; 30]);
    assert_eq!(buffer.free_space(), 70);
    assert_eq!(buffer.len() + buffer.free_space(), buffer.capacity());

    buffer.read(10).unwrap();
    assert_eq!(buffer.free_space(), 80);
    assert_eq!(buffer.len() + buffer.free_space(), buffer.capacity());
}

#[test]
fn test_ring_buffer_wrap_exact_contents() {
    // Capacity ten; writing one through ten and then eleven through
    // fifteen leaves exactly six through fifteen, in order.
    let mut buffer = AudioBuffer::with_capacity(10);
    let first: Vec<i16> = (1..=10).collect();
    let second: Vec<i16> = (11..=15).collect();

    buffer.write(&first);
    buffer.write(&second);

    let data = buffer.peek(10);
    assert_eq!(data, vec![6, 7, 8, 9, 10, 11, 12, 13, 14, 15]);
    assert_eq!(buffer.free_space(), 0);
}
