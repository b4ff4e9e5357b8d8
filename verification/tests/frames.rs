use pixtend::error::{FrameError, PiXtendError};
use pixtend::input::{
    AnalogIn, Data, DigitalIn, ErrorCode, GpioIn, Header, Input, Sensor, SensorIn, State,
};
use pixtend::output::{
    DigitalDebounce, DigitalOut, GpioDebounce, Output, Pwm, PwmCtrl, PwmGroup, PwmMode, Retain,
    System,
};
use pixtend::utils::calc_crc16;
use pixtend::{PwmConfig, PwmPrescaler, Warnings, Watchdog};

fn frame_error<T: std::fmt::Debug>(result: Result<T, PiXtendError>) -> FrameError {
    match result {
        Err(PiXtendError::BinaryFrameReadWriteError(error)) => error,
        other => panic!("no frame error: {:?}", other),
    }
}

fn sample_input() -> Input {
    let header = Header {
        firmware: 7,
        hardware: 21,
        model: b'L',
        state: State { error_code: ErrorCode::NoError, run: true },
        warnings: Warnings { i2c_error: false, voltage_error: true, retain_crc_error: false },
    };
    let mut retain = [0u8; 64];
    for (position, byte) in retain.iter_mut().enumerate() {
        *byte = position as u8;
    }
    let data = Data {
        digital_in: DigitalIn {
            in7: true,
            in6: false,
            in5: false,
            in4: false,
            in3: false,
            in2: false,
            in1: true,
            in0: true,
            in15: false,
            in14: true,
            in13: false,
            in12: false,
            in11: false,
            in10: false,
            in9: false,
            in8: true,
        },
        analog_in: AnalogIn { in0: 1, in1: 0x0203, in2: 3, in3: 4, in4: 5, in5: 0xFFFE },
        gpio_in: GpioIn { in3: false, in2: true, in1: false, in0: true },
        sensor_in: SensorIn {
            sens0: Sensor { temperature: 0x8032, humidity: 655 },
            sens1: Sensor { temperature: 1, humidity: 2 },
            sens2: Sensor { temperature: 3, humidity: 4 },
            sens3: Sensor { temperature: 5, humidity: 6 },
        },
        retain,
    };
    Input { header, header_crc: 0x1234, data, data_crc: 0xABCD }
}

#[test]
fn input_frame_layout() {
    let bytes = sample_input().to_bytes();
    assert_eq!(bytes.len(), 111);
    assert_eq!(&bytes[..7], &[7, 21, b'L', 0b0000_0001, 0b0000_0100, 0, 0]);
    assert_eq!(&bytes[7..9], &[0x34, 0x12]);
    assert_eq!(&bytes[9..11], &[0b1000_0011, 0b0100_0001]);
    assert_eq!(&bytes[11..23], &[1, 0, 0x03, 0x02, 3, 0, 4, 0, 5, 0, 0xFE, 0xFF]);
    assert_eq!(bytes[23], 0b0000_0101);
    assert_eq!(&bytes[24..28], &[0x32, 0x80, 0x8F, 0x02]);
    assert_eq!(&bytes[28..40], &[1, 0, 2, 0, 3, 0, 4, 0, 5, 0, 6, 0]);
    assert_eq!(&bytes[40..45], &[0, 0, 0, 0, 0]);
    let retain: Vec<u8> = (0..64).collect();
    assert_eq!(&bytes[45..109], &retain[..]);
    assert_eq!(&bytes[109..], &[0xCD, 0xAB]);
}

#[test]
fn input_frame_is_read_back() {
    let input = sample_input();
    let bytes = input.to_bytes();
    assert_eq!(Input::from_bytes(&bytes), Ok(input));
}

#[test]
fn input_frame_bytes_are_written_back() {
    let mut bytes = vec![0u8; 111];
    for (position, byte) in bytes.iter_mut().enumerate() {
        *byte = (position as u8).wrapping_mul(37).wrapping_add(11);
    }
    // what a frame never holds: an unknown error code, set padding
    bytes[3] = 0b0110_0001;
    bytes[4] &= 0b0000_1110;
    bytes[5] = 0;
    bytes[6] = 0;
    bytes[23] &= 0b0000_1111;
    for byte in &mut bytes[40..45] {
        *byte = 0;
    }
    let input = Input::from_bytes(&bytes).unwrap();
    assert_eq!(input.to_bytes(), bytes);
}

#[test]
fn input_frame_padding_is_not_read() {
    let clean = sample_input().to_bytes();
    let mut noisy = clean.clone();
    noisy[3] |= 0b0000_1110;
    noisy[4] |= 0b1111_0001;
    noisy[5] = 0xFF;
    noisy[6] = 0xFF;
    noisy[23] |= 0b1111_0000;
    for byte in &mut noisy[40..45] {
        *byte = 0xFF;
    }
    assert_eq!(Input::from_bytes(&noisy), Input::from_bytes(&clean));
}

#[test]
fn input_checksums_are_tested_against_header_and_data() {
    let mut input = sample_input();
    assert!(!input.check_crc_valid());
    input.header_crc = calc_crc16(&input.header.to_bytes());
    assert!(!input.check_crc_valid());
    input.data_crc = calc_crc16(&input.data.to_bytes());
    assert!(input.check_crc_valid());
    input.header.firmware = 8;
    assert!(!input.check_crc_valid());
}

#[test]
fn unknown_error_codes_are_refused() {
    for code in [1u8, 7, 8, 15] {
        let result = State::from_bytes(&[code << 4 | 1]);
        assert_eq!(frame_error(result), FrameError::UnknownErrorCode(code));
        let mut bytes = sample_input().to_bytes();
        bytes[3] = code << 4;
        assert_eq!(frame_error(Input::from_bytes(&bytes)), FrameError::UnknownErrorCode(code));
    }
}

#[test]
fn every_error_code_has_its_number() {
    let codes = [
        (ErrorCode::NoError, 0u8),
        (ErrorCode::DataCrcError, 2),
        (ErrorCode::DataBlockTooShort, 3),
        (ErrorCode::PiXtendModelMismatch, 4),
        (ErrorCode::HeaderCrcError, 5),
        (ErrorCode::SPIFrequencyTooHigh, 6),
    ];
    for (code, id) in codes {
        assert_eq!(code.to_id(), id);
        assert_eq!(ErrorCode::from_id(id), Some(code));
        assert_eq!(State { error_code: code, run: false }.to_bytes(), vec![id << 4]);
    }
    assert_eq!(ErrorCode::from_id(1), None);
    assert_eq!(ErrorCode::from_id(7), None);
}

#[test]
fn wrong_lengths_are_refused() {
    assert_eq!(
        frame_error(Input::from_bytes(&[0u8; 110])),
        FrameError::UnexpectedLength { expected: 111, found: 110 }
    );
    assert_eq!(
        frame_error(Input::from_bytes(&[0u8; 112])),
        FrameError::UnexpectedLength { expected: 111, found: 112 }
    );
    assert_eq!(
        frame_error(Output::from_bytes(&[])),
        FrameError::UnexpectedLength { expected: 111, found: 0 }
    );
    assert_eq!(
        frame_error(GpioIn::from_bytes(&[0, 0])),
        FrameError::UnexpectedLength { expected: 1, found: 2 }
    );
    assert_eq!(
        frame_error(DigitalIn::from_bytes(&[0])),
        FrameError::UnexpectedLength { expected: 2, found: 1 }
    );
    assert_eq!(
        frame_error(Retain::from_bytes(&[0u8; 63])),
        FrameError::UnexpectedLength { expected: 64, found: 63 }
    );
    assert_eq!(
        frame_error(Pwm::from_bytes(&[0u8; 22])),
        FrameError::UnexpectedLength { expected: 21, found: 22 }
    );
}

#[test]
fn digital_inputs_are_packed_low_to_high() {
    for index in 0..16u8 {
        let mut bytes = [0u8; 2];
        bytes[(index / 8) as usize] = 1 << (index % 8);
        let digital_in = DigitalIn::from_bytes(&bytes).unwrap();
        for other in 0..16u8 {
            assert_eq!(digital_in.get_digital_input(other), Ok(other == index));
        }
        assert_eq!(digital_in.to_bytes(), bytes);
    }
}

#[test]
fn digital_outputs_are_packed_low_to_high() {
    for index in 0..12u8 {
        let mut digital_out = DigitalOut::default();
        digital_out.set_digital_output(index, true).unwrap();
        let mut bytes = [0u8; 2];
        bytes[(index / 8) as usize] = 1 << (index % 8);
        assert_eq!(digital_out.to_bytes(), bytes);
        assert_eq!(DigitalOut::from_bytes(&bytes), Ok(digital_out));
    }
}

#[test]
fn idle_output_frame() {
    let bytes = Output::default().to_bytes();
    let mut expected = vec![0x4C, 0, 0, 0, 0, 0, 0, 0x96, 0xC4];
    expected.extend_from_slice(&[0u8; 100]);
    expected.extend_from_slice(&[0x01, 0xF4]);
    assert_eq!(bytes, expected);
}

#[test]
fn output_frame_layout() {
    let mut output = Output::default();
    output.header.watchdog = Watchdog::Activated0_125s;
    output.header.system = System {
        gpio_pullup_enable: true,
        led_disable: false,
        retain_enable: true,
        retain_copy: true,
        safe: true,
    };
    output.data.digital_debounce =
        DigitalDebounce {
            debounce01: 1,
            debounce23: 2,
            debounce45: 3,
            debounce67: 4,
            debounce89: 5,
            debounce1011: 6,
            debounce1213: 7,
            debounce1415: 8,
        };
    output.data.digital_out.out0 = true;
    output.data.digital_out.out11 = true;
    output.data.relay_out.relay2 = true;
    output.data.gpio_ctrl.io1 = true;
    output.data.gpio_ctrl.sens3 = true;
    output.data.gpio_out.gpio1 = true;
    output.data.gpio_debounce = GpioDebounce { debounce01: 9, debounce23: 10 };
    output.data.pwm.group1 = PwmGroup {
        ctrl0: PwmCtrl {
            prescaler: PwmPrescaler::Prescale62_5kHz,
            channel_b: true,
            channel_a: false,
            mode: PwmMode::Universal,
        },
        ctrl1: 0x0102,
        channel0: 0x0304,
        channel1: 0x0506,
    };
    output.data.retain.storage[0] = 0xAA;
    output.data.retain.storage[63] = 0xBB;

    let bytes = output.to_bytes();
    assert_eq!(bytes.len(), 111);
    assert_eq!(&bytes[..7], &[0x4C, 0, 4, 0b0001_0111, 0, 0, 0]);
    assert_eq!(&bytes[7..9], &[0x62, 0xB0]);
    assert_eq!(&bytes[9..17], &[1, 2, 3, 4, 5, 6, 7, 8]);
    assert_eq!(&bytes[17..19], &[0b0000_0001, 0b0000_1000]);
    assert_eq!(bytes[19], 0b0000_0100);
    assert_eq!(bytes[20], 0b1000_0010);
    assert_eq!(bytes[21], 0b0000_0010);
    assert_eq!(&bytes[22..24], &[9, 10]);
    assert_eq!(&bytes[24..31], &[0, 0, 0, 0, 0, 0, 0]);
    assert_eq!(&bytes[31..38], &[0b1001_0010, 0x02, 0x01, 0x04, 0x03, 0x06, 0x05]);
    assert_eq!(&bytes[38..45], &[0, 0, 0, 0, 0, 0, 0]);
    assert_eq!(bytes[45], 0xAA);
    assert_eq!(bytes[108], 0xBB);
    let data_crc = calc_crc16(&bytes[9..109]);
    assert_eq!(&bytes[109..], &[(data_crc & 0xFF) as u8, (data_crc >> 8) as u8]);

    assert_eq!(Output::from_bytes(&bytes), Ok(output));
}

#[test]
fn output_checksums_follow_the_content() {
    let mut output = Output::default();
    let before = output.to_bytes();
    output.data.relay_out.relay0 = true;
    let after = output.to_bytes();
    assert_eq!(&before[..9], &after[..9]);
    assert_ne!(&before[109..], &after[109..]);
    let crc = calc_crc16(&after[9..109]);
    assert_eq!(&after[109..], &crc.to_le_bytes());
}

#[test]
fn output_frame_needs_its_magic_byte() {
    let mut bytes = Output::default().to_bytes();
    bytes[0] = b'S';
    assert_eq!(frame_error(Output::from_bytes(&bytes)), FrameError::MissingMagic(b'S'));
}

#[test]
fn unknown_watchdog_settings_are_refused() {
    assert_eq!(frame_error(Watchdog::from_bytes(&[11])), FrameError::UnknownWatchdog(11));
    let mut bytes = Output::default().to_bytes();
    bytes[2] = 0xFF;
    assert_eq!(frame_error(Output::from_bytes(&bytes)), FrameError::UnknownWatchdog(0xFF));
    for id in 0..=10u8 {
        let watchdog = Watchdog::from_id(id).unwrap();
        assert_eq!(watchdog.to_id(), id);
        assert_eq!(watchdog.to_bytes(), vec![id]);
    }
    assert_eq!(Watchdog::from_id(11), None);
}

#[test]
fn unknown_prescalers_are_refused() {
    assert_eq!(frame_error(PwmCtrl::from_bytes(&[0b1100_0000])), FrameError::UnknownPrescaler(6));
    assert_eq!(frame_error(PwmCtrl::from_bytes(&[0b1110_0000])), FrameError::UnknownPrescaler(7));
    let mut bytes = Output::default().to_bytes();
    bytes[9 + 15 + 14] = 0b1110_0000;
    assert_eq!(frame_error(Output::from_bytes(&bytes)), FrameError::UnknownPrescaler(7));
    for id in 0..=5u8 {
        let prescaler = PwmPrescaler::from_id(id).unwrap();
        assert_eq!(prescaler.to_id(), id);
    }
    assert_eq!(PwmPrescaler::from_id(6), None);
    for id in 0..4u8 {
        assert_eq!(PwmMode::from_id(id).to_id(), id);
    }
}

#[test]
fn pwm_groups_of_the_configurations() {
    let off = PwmGroup::from(PwmConfig::Deactivated);
    assert_eq!(off, PwmGroup::default());
    assert_eq!(off.to_bytes(), vec![0, 0, 0, 0, 0, 0, 0]);

    let servo = PwmGroup::from(PwmConfig::Servo { channel_a: true, channel_b: false });
    assert_eq!(
        servo.ctrl0,
        PwmCtrl {
            prescaler: PwmPrescaler::Deactivated,
            channel_b: false,
            channel_a: true,
            mode: PwmMode::Servo,
        }
    );
    assert_eq!(servo.to_bytes(), vec![0b0000_1000, 0, 0, 0, 0, 0, 0]);

    let duty = PwmGroup::from(PwmConfig::DutyCycle {
        prescaler: PwmPrescaler::Prescale62_5kHz,
        frequency: 31250,
        channel_a: true,
        channel_b: true,
    });
    assert_eq!(duty.ctrl0.mode, PwmMode::DutyCycle);
    assert_eq!(duty.ctrl1, 31250);
    assert_eq!(duty.to_bytes(), vec![0b1001_1001, 0x12, 0x7A, 0, 0, 0, 0]);

    let universal = PwmGroup::from(PwmConfig::Universal {
        prescaler: PwmPrescaler::Prescale16MHz,
        frequency: 1000,
        duty_cycle: 500,
        channel_a: false,
        channel_b: true,
    });
    assert_eq!(universal.ctrl0.mode, PwmMode::Universal);
    assert_eq!(universal.ctrl1, 1000);
    assert_eq!((universal.channel0, universal.channel1), (0, 0));
    assert_eq!(universal.to_bytes(), vec![0b0011_0010, 0xE8, 0x03, 0, 0, 0, 0]);

    let frequency = PwmGroup::from(PwmConfig::Frequency {
        prescaler: PwmPrescaler::Prescale15_625kHz,
        channel_a: true,
        channel_b: false,
    });
    assert_eq!(frequency.ctrl0.mode, PwmMode::Frequency);
    assert_eq!(frequency.ctrl1, 0);
    assert_eq!(frequency.to_bytes(), vec![0b1010_1011, 0, 0, 0, 0, 0, 0]);
}

#[test]
fn retain_data_is_filled_up_with_zeros() {
    let mut retain = Retain::default();
    assert_eq!(retain.set_retain_data(vec![1, 2, 3]), Ok(()));
    let mut expected = vec![1, 2, 3];
    expected.resize(64, 0);
    assert_eq!(retain.to_bytes(), expected);
    assert_eq!(retain.set_retain_data(vec![9; 64]), Ok(()));
    assert_eq!(retain.to_bytes(), vec![9; 64]);
    assert_eq!(retain.set_retain_data(Vec::new()), Ok(()));
    assert_eq!(retain.to_bytes(), vec![0; 64]);
    assert_eq!(retain.set_retain_data(vec![1; 65]), Err(PiXtendError::InvalidRetainDataLength(65)));
    assert_eq!(retain.to_bytes(), vec![0; 64]);
}
