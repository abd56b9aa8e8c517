//! The capability-bitmask decoder, walked over concrete buffers.

use evinput::decode_event_bits;
use evinput::EventBitsIter;
use evinput::FromCode;
use evinput::Key;

#[test]
fn test_event_bits_iter_empty() {
    let mut iter = EventBitsIter::<u16>::new(Vec::new());
    assert_eq!(iter.next(), None);
}

#[test]
fn test_event_bits_iter_single_element_empty() {
    let mut iter = EventBitsIter::<u16>::new(vec![0]);
    assert_eq!(iter.next(), None);
}

#[test]
fn test_event_bits_iter_multiple_elements_empty() {
    let mut iter = EventBitsIter::<u16>::new(vec![0, 0, 0, 0]);
    assert_eq!(iter.next(), None);
}

#[test]
fn test_event_bits_iter_single_element_first_bit() {
    let mut iter = EventBitsIter::<u16>::new(vec![0b0000_0001]);
    assert_eq!(iter.next(), Some(0));
    assert_eq!(iter.next(), None);
}

#[test]
fn test_event_bits_iter_single_element_last_bit() {
    let mut iter = EventBitsIter::<u16>::new(vec![0b1000_0000]);
    assert_eq!(iter.next(), Some(7));
    assert_eq!(iter.next(), None);
}

#[test]
fn test_event_bits_iter_single_element_multiple_bits() {
    let mut iter = EventBitsIter::<u16>::new(vec![0b1000_0001]);
    assert_eq!(iter.next(), Some(0));
    assert_eq!(iter.next(), Some(7));
    assert_eq!(iter.next(), None);
}

#[test]
fn test_event_bits_iter_single_element_multiple_elements() {
    let mut iter = EventBitsIter::<u16>::new(vec![0, 0b1000_0001, 0]);
    assert_eq!(iter.next(), Some(8));
    assert_eq!(iter.next(), Some(15));
    assert_eq!(iter.next(), None);
}

#[test]
fn test_event_bits_iter_stays_exhausted() {
    let mut iter = EventBitsIter::<u16>::new(vec![0b0000_0010]);
    assert_eq!(iter.next(), Some(1));
    assert_eq!(iter.next(), None);
    assert_eq!(iter.next(), None);
    assert_eq!(iter.next(), None);
}

#[test]
fn test_event_bits_iter_trailing_zero_bytes() {
    let mut iter = EventBitsIter::<u16>::new(vec![0b0000_0100, 0, 0, 0]);
    assert_eq!(iter.next(), Some(2));
    assert_eq!(iter.next(), None);
}

#[test]
fn test_decode_event_bits_positions() {
    let decoded: Vec<u16> = decode_event_bits(vec![0, 0b1000_0001, 0]);
    assert_eq!(decoded, vec![8, 15]);
}

#[test]
fn test_decode_event_bits_empty_buffers() {
    let decoded: Vec<u16> = decode_event_bits(Vec::new());
    assert_eq!(decoded, Vec::<u16>::new());
    let decoded: Vec<u16> = decode_event_bits(vec![0, 0, 0, 0, 0, 0, 0, 0]);
    assert_eq!(decoded, Vec::<u16>::new());
}

#[test]
fn test_decode_event_bits_as_keys() {
    // Bit 1 is the escape key's code; bit 30 is the `A` key's code.
    let decoded: Vec<Key> = decode_event_bits(vec![0b0000_0010, 0, 0, 0b0100_0000]);
    assert_eq!(decoded, vec![Key::Escape, Key::A]);
}

#[test]
fn test_key_code_conversions() {
    assert_eq!(Key::A.raw(), 30);
    assert_eq!(Key::from_code(30), Key::A);
    assert_eq!(Key::from_code(0x2c0), Key::TriggerHappy);
    assert_eq!(Key::from_code(86), Key::Other(86));
    assert_eq!(Key::Other(86).raw(), 86);
}
