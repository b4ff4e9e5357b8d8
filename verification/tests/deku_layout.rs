use deku::ctx::{BitSize, Endian, Order};
use deku::reader::Reader;
use deku::writer::Writer;
use deku::{DekuReader, DekuWriter};
use pixtend::bits::{pack_bits, push_bits, push_zeros, read_bits};
use pixtend::input::{ErrorCode, State};
use pixtend::output::{Dac, PwmCtrl, PwmMode};
use pixtend::PwmPrescaler;
use std::io::Cursor;

fn noise(length: usize) -> Vec<u8> {
    let mut state: u32 = 0x2545_F491;
    (0..length)
        .map(|_| {
            state ^= state << 13;
            state ^= state >> 17;
            state ^= state << 5;
            (state >> 8) as u8
        })
        .collect()
}

#[test]
fn fields_are_read_as_deku_reads_them() {
    let bytes = noise(6);
    for offset in 0..=24usize {
        for width in 1..=16usize {
            let mut cursor = Cursor::new(&bytes[..]);
            let mut reader = Reader::new(&mut cursor);
            if offset > 0 {
                reader.skip_bits(offset, Order::Msb0).unwrap();
            }
            let expected =
                u16::from_reader_with_ctx(&mut reader, (Endian::Big, BitSize(width))).unwrap();
            assert_eq!(read_bits(&bytes, offset, width), Some(expected));
        }
    }
}

#[test]
fn fields_are_written_as_deku_writes_them() {
    for lead in 0..=9usize {
        for width in 1..=16usize {
            let value: u16 = (0xC35Au32 & ((1u32 << width) - 1)) as u16;

            let mut cursor = Cursor::new(Vec::new());
            {
                let mut writer = Writer::new(&mut cursor);
                for _ in 0..lead {
                    false.to_writer(&mut writer, (Endian::Big, BitSize(1))).unwrap();
                }
                value.to_writer(&mut writer, (Endian::Big, BitSize(width))).unwrap();
                writer.finalize().unwrap();
            }

            let mut bits = Vec::new();
            push_zeros(&mut bits, lead);
            push_bits(&mut bits, value, width);
            assert_eq!(pack_bits(&bits), cursor.into_inner());
        }
    }
}

#[test]
fn the_analog_output_frame_is_laid_out_as_deku_lays_it_out() {
    for channel in 0..=1u8 {
        for enabled in [false, true] {
            for value in 0..1024u16 {
                let mut cursor = Cursor::new(Vec::new());
                {
                    let mut writer = Writer::new(&mut cursor);
                    channel.to_writer(&mut writer, (Endian::Big, BitSize(1))).unwrap();
                    0u8.to_writer(&mut writer, (Endian::Big, BitSize(2))).unwrap();
                    enabled.to_writer(&mut writer, (Endian::Big, BitSize(1))).unwrap();
                    value.to_writer(&mut writer, (Endian::Big, BitSize(10))).unwrap();
                    0u8.to_writer(&mut writer, (Endian::Big, BitSize(2))).unwrap();
                    writer.finalize().unwrap();
                }
                let expected = cursor.into_inner();
                let dac = Dac { channel, enabled, value };
                assert_eq!(dac.to_bytes(), expected);

                let mut cursor = Cursor::new(&expected[..]);
                let mut reader = Reader::new(&mut cursor);
                let read_channel =
                    u8::from_reader_with_ctx(&mut reader, (Endian::Big, BitSize(1))).unwrap();
                reader.skip_bits(2, Order::Msb0).unwrap();
                let read_enabled =
                    bool::from_reader_with_ctx(&mut reader, (Endian::Big, BitSize(1))).unwrap();
                let read_value =
                    u16::from_reader_with_ctx(&mut reader, (Endian::Big, BitSize(10))).unwrap();
                assert_eq!(
                    Dac::from_bytes(&expected),
                    Ok(Dac { channel: read_channel, enabled: read_enabled, value: read_value })
                );
            }
        }
    }
}

#[test]
fn the_state_byte_is_laid_out_as_deku_lays_it_out() {
    for byte in 0..=255u8 {
        let bytes = [byte];
        let mut cursor = Cursor::new(&bytes[..]);
        let mut reader = Reader::new(&mut cursor);
        let id = u8::from_reader_with_ctx(&mut reader, (Endian::Big, BitSize(4))).unwrap();
        reader.skip_bits(3, Order::Msb0).unwrap();
        let run = bool::from_reader_with_ctx(&mut reader, (Endian::Big, BitSize(1))).unwrap();
        match ErrorCode::from_id(id) {
            Some(error_code) => {
                assert_eq!(State::from_bytes(&bytes), Ok(State { error_code, run }));
            }
            None => assert!(State::from_bytes(&bytes).is_err()),
        }
    }
}

#[test]
fn the_pwm_control_byte_is_laid_out_as_deku_lays_it_out() {
    for byte in 0..=255u8 {
        let bytes = [byte];
        let mut cursor = Cursor::new(&bytes[..]);
        let mut reader = Reader::new(&mut cursor);
        let prescaler = u8::from_reader_with_ctx(&mut reader, (Endian::Big, BitSize(3))).unwrap();
        let channel_b =
            bool::from_reader_with_ctx(&mut reader, (Endian::Big, BitSize(1))).unwrap();
        let channel_a =
            bool::from_reader_with_ctx(&mut reader, (Endian::Big, BitSize(1))).unwrap();
        reader.skip_bits(1, Order::Msb0).unwrap();
        let mode = u8::from_reader_with_ctx(&mut reader, (Endian::Big, BitSize(2))).unwrap();
        match PwmPrescaler::from_id(prescaler) {
            Some(prescaler) => {
                let expected =
                    PwmCtrl { prescaler, channel_b, channel_a, mode: PwmMode::from_id(mode) };
                assert_eq!(PwmCtrl::from_bytes(&bytes), Ok(expected));
                let mut cursor = Cursor::new(Vec::new());
                {
                    let mut writer = Writer::new(&mut cursor);
                    prescaler.to_id().to_writer(&mut writer, (Endian::Big, BitSize(3))).unwrap();
                    channel_b.to_writer(&mut writer, (Endian::Big, BitSize(1))).unwrap();
                    channel_a.to_writer(&mut writer, (Endian::Big, BitSize(1))).unwrap();
                    0u8.to_writer(&mut writer, (Endian::Big, BitSize(1))).unwrap();
                    mode.to_writer(&mut writer, (Endian::Big, BitSize(2))).unwrap();
                    writer.finalize().unwrap();
                }
                assert_eq!(expected.to_bytes(), cursor.into_inner());
            }
            None => assert!(PwmCtrl::from_bytes(&bytes).is_err()),
        }
    }
}
