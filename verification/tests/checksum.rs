use pixtend::utils::calc_crc16;

#[test]
fn crc_of_nothing_is_the_initial_value() {
    assert_eq!(calc_crc16(&[]), 0xFFFF);
}

#[test]
fn crc_of_the_check_string() {
    assert_eq!(calc_crc16(b"123456789"), 0x4B37);
}

#[test]
fn crc_of_short_inputs() {
    assert_eq!(calc_crc16(&[0x00]), 0x40BF);
    assert_eq!(calc_crc16(&[0xFF]), 0x00FF);
    assert_eq!(calc_crc16(&[1, 2]), 0xE181);
}

#[test]
fn crc_of_equal_inputs_is_equal() {
    let first = vec![0x4C, 0, 4, 0x17, 0, 0, 0];
    let second = first.clone();
    assert_eq!(calc_crc16(&first), calc_crc16(&second));
    assert_eq!(calc_crc16(&first), 0xB062);
}

#[test]
fn crc_depends_on_every_byte() {
    let base = vec![0u8; 100];
    assert_eq!(calc_crc16(&base), 0xF401);
    for position in 0..base.len() {
        let mut changed = base.clone();
        changed[position] = 1;
        assert_ne!(calc_crc16(&changed), calc_crc16(&base));
    }
}
