use pixtend::bits::{pack_bits, push_bits, push_zeros, read_bits};

#[test]
fn pack_puts_the_first_bit_into_the_highest_place() {
    let bits = [true, false, false, false, false, false, false, false];
    assert_eq!(pack_bits(&bits), vec![0x80]);
    let bits = [false, false, false, false, false, false, false, true];
    assert_eq!(pack_bits(&bits), vec![0x01]);
}

#[test]
fn pack_fills_the_last_byte_with_cleared_bits() {
    assert_eq!(pack_bits(&[]), Vec::<u8>::new());
    assert_eq!(pack_bits(&[true]), vec![0x80]);
    assert_eq!(pack_bits(&[true, true, true, true, true, true, true, true, true]), vec![0xFF, 0x80]);
}

#[test]
fn push_bits_writes_the_most_significant_bit_first() {
    let mut bits = Vec::new();
    push_bits(&mut bits, 0b101, 3);
    assert_eq!(bits, vec![true, false, true]);
    push_bits(&mut bits, 1, 2);
    assert_eq!(bits, vec![true, false, true, false, true]);
}

#[test]
fn push_bits_keeps_only_the_low_bits_of_a_value_that_does_not_fit() {
    let mut bits = Vec::new();
    push_bits(&mut bits, 0b1_0110, 3);
    assert_eq!(bits, vec![true, true, false]);
}

#[test]
fn push_bits_of_a_wide_field_starts_with_cleared_bits() {
    let mut bits = Vec::new();
    push_bits(&mut bits, 0xFFFF, 18);
    assert_eq!(bits.len(), 18);
    assert_eq!(&bits[..2], &[false, false]);
    assert!(bits[2..].iter().all(|bit| *bit));
    let mut none = Vec::new();
    push_bits(&mut none, 0xFFFF, 0);
    assert!(none.is_empty());
}

#[test]
fn push_zeros_appends_padding() {
    let mut bits = vec![true];
    push_zeros(&mut bits, 3);
    assert_eq!(bits, vec![true, false, false, false]);
}

#[test]
fn a_field_can_cross_a_byte_boundary() {
    let mut bits = Vec::new();
    push_zeros(&mut bits, 4);
    push_bits(&mut bits, 545, 10);
    push_zeros(&mut bits, 2);
    let bytes = pack_bits(&bits);
    assert_eq!(bytes, vec![0b0000_1000, 0b1000_0100]);
    assert_eq!(read_bits(&bytes, 4, 10), Some(545));
}

#[test]
fn read_bits_reads_at_any_offset() {
    let bytes = [0b1010_0110, 0b0101_1001];
    assert_eq!(read_bits(&bytes, 0, 1), Some(1));
    assert_eq!(read_bits(&bytes, 1, 1), Some(0));
    assert_eq!(read_bits(&bytes, 0, 4), Some(0b1010));
    assert_eq!(read_bits(&bytes, 4, 4), Some(0b0110));
    assert_eq!(read_bits(&bytes, 6, 4), Some(0b1001));
    assert_eq!(read_bits(&bytes, 0, 16), Some(0b1010_0110_0101_1001));
    assert_eq!(read_bits(&bytes, 16, 0), Some(0));
}

#[test]
fn read_bits_refuses_what_is_not_in_the_buffer() {
    let bytes = [0xFF, 0xFF, 0xFF];
    assert_eq!(read_bits(&bytes, 0, 17), None);
    assert_eq!(read_bits(&bytes, 9, 16), None);
    assert_eq!(read_bits(&bytes, 24, 1), None);
    assert_eq!(read_bits(&bytes, usize::MAX, 2), None);
    assert_eq!(read_bits(&[], 0, 1), None);
}

#[test]
fn what_is_written_is_read_back() {
    for width in 1..=16usize {
        for offset in 0..=9usize {
            let value: u16 = (0xA5C3u32 & ((1u32 << width) - 1)) as u16;
            let mut bits = Vec::new();
            push_zeros(&mut bits, offset);
            push_bits(&mut bits, value, width);
            let bytes = pack_bits(&bits);
            assert_eq!(read_bits(&bytes, offset, width), Some(value));
        }
    }
}
