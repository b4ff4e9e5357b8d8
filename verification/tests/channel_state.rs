use pixtend::error::PiXtendError;
use pixtend::output::Output;
use pixtend::{Channel, GpioConfig, PiXtend, PwmConfig, PwmPrescaler, SessionState, Watchdog};

fn frame(pixtend: &PiXtend) -> Vec<u8> {
    pixtend.begin_read_write(0).unwrap().frame
}

fn output(pixtend: &PiXtend) -> Output {
    Output::from_bytes(&frame(pixtend)).unwrap()
}

#[test]
fn a_new_board_sends_the_idle_frame() {
    let pixtend = PiXtend::new();
    assert_eq!(pixtend.state(), SessionState::Idle);
    assert_eq!(frame(&pixtend), Output::default().to_bytes());
}

#[test]
fn header_settings() {
    let mut pixtend = PiXtend::new();
    pixtend.set_watchdog(Watchdog::Activated2s);
    pixtend.set_retain_copy(true);
    pixtend.set_retain_enable(true);
    pixtend.set_led_disable(true);
    pixtend.set_gpio_pullup_enable(true);
    assert_eq!(&frame(&pixtend)[..7], &[0x4C, 0, 8, 0b0001_1110, 0, 0, 0]);
    pixtend.enable_safe_mode();
    pixtend.set_led_disable(false);
    assert_eq!(&frame(&pixtend)[..7], &[0x4C, 0, 8, 0b0001_0111, 0, 0, 0]);
}

#[test]
fn indices_that_name_nothing_are_refused_and_change_nothing() {
    let mut pixtend = PiXtend::new();
    pixtend.set_gpio_pullup_enable(true);
    pixtend.set_retain_enable(true);
    let before = frame(&pixtend);

    assert_eq!(
        pixtend.set_digital_output(12, true),
        Err(PiXtendError::InvalidDigitalOutputIndex(12))
    );
    assert_eq!(
        pixtend.set_digital_debounce(8, 1),
        Err(PiXtendError::InvalidDigitalDebounceGroup(8))
    );
    assert_eq!(pixtend.set_relay_output(4, true), Err(PiXtendError::InvalidRelayOutputIndex(4)));
    assert_eq!(pixtend.set_gpio_debounce(2, 1), Err(PiXtendError::InvalidGpioDebounceGroup(2)));
    assert_eq!(
        pixtend.set_gpio_config(4, GpioConfig::Output),
        Err(PiXtendError::InvalidGpioOutputIndex(4))
    );
    assert_eq!(pixtend.set_gpio_output(4, true), Err(PiXtendError::InvalidGpioOutputIndex(4)));
    assert_eq!(
        pixtend.set_pwm_config(3, PwmConfig::Servo { channel_a: true, channel_b: true }),
        Err(PiXtendError::InvalidPwmOutputGroupIndex(3))
    );
    assert_eq!(
        pixtend.set_pwm_servo(3, Channel::A, 1),
        Err(PiXtendError::InvalidPwmOutputGroupIndex(3))
    );
    assert_eq!(
        pixtend.set_pwm_duty_cycle(255, Channel::A, 1),
        Err(PiXtendError::InvalidPwmOutputGroupIndex(255))
    );
    assert_eq!(
        pixtend.set_pwm_frequency(3, Channel::B, 1),
        Err(PiXtendError::InvalidPwmOutputGroupIndex(3))
    );
    assert_eq!(
        pixtend.set_retain_data(vec![0; 65]),
        Err(PiXtendError::InvalidRetainDataLength(65))
    );

    assert_eq!(frame(&pixtend), before);
    assert_eq!(pixtend.get_gpio_input(0), Err(PiXtendError::NoInputDataAvailable));
    assert_eq!(pixtend.set_gpio_output(0, true), Err(PiXtendError::GpioNotConfiguredAsOutput(0)));
}

#[test]
fn the_index_is_tested_before_the_other_rules() {
    let mut pixtend = PiXtend::new();
    assert_eq!(
        pixtend.set_gpio_config(4, GpioConfig::Input(true)),
        Err(PiXtendError::InvalidGpioOutputIndex(4))
    );
    pixtend.set_gpio_config(0, GpioConfig::Sensor).unwrap();
    assert_eq!(
        pixtend.set_pwm_config(3, PwmConfig::Deactivated),
        Err(PiXtendError::InvalidPwmOutputGroupIndex(3))
    );
    assert_eq!(
        pixtend.set_retain_data(vec![0; 100]),
        Err(PiXtendError::InvalidRetainDataLength(100))
    );
}

#[test]
fn a_pullup_needs_the_global_enable() {
    for index in 0..4u8 {
        let mut pixtend = PiXtend::new();
        let before = frame(&pixtend);
        assert_eq!(
            pixtend.set_gpio_config(index, GpioConfig::Input(true)),
            Err(PiXtendError::GpioPullupNotGloballyEnabled)
        );
        assert_eq!(frame(&pixtend), before);

        // whatever else is set
        pixtend.set_pwm_config(1, PwmConfig::Servo { channel_a: true, channel_b: true }).unwrap();
        pixtend.set_gpio_config((index + 1) % 4, GpioConfig::Output).unwrap();
        pixtend.set_retain_enable(true);
        assert_eq!(
            pixtend.set_gpio_config(index, GpioConfig::Input(true)),
            Err(PiXtendError::GpioPullupNotGloballyEnabled)
        );

        pixtend.set_gpio_pullup_enable(true);
        assert_eq!(pixtend.set_gpio_config(index, GpioConfig::Input(true)), Ok(()));
        let sent = output(&pixtend);
        assert_eq!(sent.data.gpio_out.to_bytes(), vec![1 << index]);
    }
}

#[test]
fn gpio_configurations_in_the_frame() {
    let mut pixtend = PiXtend::new();
    pixtend.set_gpio_config(0, GpioConfig::Output).unwrap();
    pixtend.set_gpio_config(2, GpioConfig::Sensor).unwrap();
    pixtend.set_gpio_config(3, GpioConfig::Input(false)).unwrap();
    assert_eq!(output(&pixtend).data.gpio_ctrl.to_bytes(), vec![0b0100_0001]);
    pixtend.set_gpio_config(0, GpioConfig::Input(false)).unwrap();
    pixtend.set_gpio_config(2, GpioConfig::Output).unwrap();
    assert_eq!(output(&pixtend).data.gpio_ctrl.to_bytes(), vec![0b0000_0100]);
}

#[test]
fn gpio_outputs_need_an_output() {
    let mut pixtend = PiXtend::new();
    assert_eq!(pixtend.set_gpio_output(1, true), Err(PiXtendError::GpioNotConfiguredAsOutput(1)));
    pixtend.set_gpio_config(1, GpioConfig::Sensor).unwrap();
    assert_eq!(pixtend.set_gpio_output(1, true), Err(PiXtendError::GpioNotConfiguredAsOutput(1)));
    pixtend.set_gpio_config(1, GpioConfig::Output).unwrap();
    assert_eq!(pixtend.set_gpio_output(1, true), Ok(()));
    assert_eq!(output(&pixtend).data.gpio_out.to_bytes(), vec![0b0000_0010]);
    assert_eq!(pixtend.set_gpio_output(1, false), Ok(()));
    assert_eq!(output(&pixtend).data.gpio_out.to_bytes(), vec![0]);
}

#[test]
fn sensors_and_pwm_exclude_each_other() {
    let servo = PwmConfig::Servo { channel_a: true, channel_b: false };

    let mut pixtend = PiXtend::new();
    pixtend.set_pwm_config(2, servo).unwrap();
    let before = frame(&pixtend);
    assert_eq!(
        pixtend.set_gpio_config(0, GpioConfig::Sensor),
        Err(PiXtendError::PwmAndDhtExclusive)
    );
    assert_eq!(frame(&pixtend), before);
    assert_eq!(pixtend.set_gpio_config(0, GpioConfig::Output), Ok(()));
    pixtend.set_pwm_config(2, PwmConfig::Deactivated).unwrap();
    assert_eq!(pixtend.set_gpio_config(0, GpioConfig::Sensor), Ok(()));

    let before = frame(&pixtend);
    assert_eq!(pixtend.set_pwm_config(0, servo), Err(PiXtendError::PwmAndDhtExclusive));
    assert_eq!(
        pixtend.set_pwm_config(0, PwmConfig::Deactivated),
        Err(PiXtendError::PwmAndDhtExclusive)
    );
    assert_eq!(frame(&pixtend), before);
    pixtend.set_gpio_config(0, GpioConfig::Input(false)).unwrap();
    assert_eq!(pixtend.set_pwm_config(0, servo), Ok(()));
}

#[test]
fn pwm_values_need_the_matching_mode() {
    let mut pixtend = PiXtend::new();
    assert_eq!(
        pixtend.set_pwm_servo(0, Channel::A, 8000),
        Err(PiXtendError::PwmNotConfiguredAsServo(0))
    );
    assert_eq!(
        pixtend.set_pwm_duty_cycle(0, Channel::A, 1),
        Err(PiXtendError::PwmNotConfiguredForDutyCycle(0))
    );
    assert_eq!(
        pixtend.set_pwm_frequency(0, Channel::A, 1),
        Err(PiXtendError::PwmNotConfiguredAsFrequency(0))
    );

    pixtend.set_pwm_config(0, PwmConfig::Servo { channel_a: true, channel_b: true }).unwrap();
    assert_eq!(pixtend.set_pwm_servo(0, Channel::A, 8000), Ok(()));
    assert_eq!(pixtend.set_pwm_servo(0, Channel::B, 16000), Ok(()));
    assert_eq!(
        pixtend.set_pwm_duty_cycle(0, Channel::A, 1),
        Err(PiXtendError::PwmNotConfiguredForDutyCycle(0))
    );
    assert_eq!(
        output(&pixtend).data.pwm.group0.to_bytes(),
        vec![0b0001_1000, 0, 0, 0x40, 0x1F, 0x80, 0x3E]
    );

    pixtend
        .set_pwm_config(
            1,
            PwmConfig::DutyCycle {
                prescaler: PwmPrescaler::Prescale62_5kHz,
                frequency: 31250,
                channel_a: true,
                channel_b: true,
            },
        )
        .unwrap();
    assert_eq!(pixtend.set_pwm_duty_cycle(1, Channel::A, 15625), Ok(()));
    assert_eq!(pixtend.set_pwm_duty_cycle(1, Channel::B, 1), Ok(()));
    assert_eq!(
        pixtend.set_pwm_servo(1, Channel::A, 1),
        Err(PiXtendError::PwmNotConfiguredAsServo(1))
    );
    assert_eq!(
        output(&pixtend).data.pwm.group1.to_bytes(),
        vec![0b1001_1001, 0x12, 0x7A, 0x09, 0x3D, 1, 0]
    );

    pixtend
        .set_pwm_config(
            2,
            PwmConfig::Universal {
                prescaler: PwmPrescaler::Prescale2MHz,
                frequency: 100,
                duty_cycle: 50,
                channel_a: true,
                channel_b: true,
            },
        )
        .unwrap();
    assert_eq!(pixtend.set_pwm_duty_cycle(2, Channel::A, 50), Ok(()));
    assert_eq!(
        pixtend.set_pwm_duty_cycle(2, Channel::B, 50),
        Err(PiXtendError::PwmNotConfiguredForDutyCycle(2))
    );

    pixtend
        .set_pwm_config(
            2,
            PwmConfig::Frequency {
                prescaler: PwmPrescaler::Prescale250kHz,
                channel_a: true,
                channel_b: true,
            },
        )
        .unwrap();
    assert_eq!(output(&pixtend).data.pwm.group2.channel0, 0);
    assert_eq!(pixtend.set_pwm_frequency(2, Channel::B, 31250), Ok(()));
    assert_eq!(
        output(&pixtend).data.pwm.group2.to_bytes(),
        vec![0b0111_1011, 0, 0, 0, 0, 0x12, 0x7A]
    );
}

#[test]
fn retain_data_needs_the_global_enable() {
    let mut pixtend = PiXtend::new();
    let before = frame(&pixtend);
    assert_eq!(
        pixtend.set_retain_data(vec![1, 2, 3]),
        Err(PiXtendError::RetainDataNotGloballyEnabled)
    );
    assert_eq!(frame(&pixtend), before);
    pixtend.set_retain_enable(true);
    assert_eq!(pixtend.set_retain_data(vec![1, 2, 3]), Ok(()));
    let mut expected = vec![1, 2, 3];
    expected.resize(64, 0);
    assert_eq!(output(&pixtend).data.retain.to_bytes(), expected);
    assert_eq!(
        pixtend.set_retain_data(vec![0; 65]),
        Err(PiXtendError::InvalidRetainDataLength(65))
    );
    assert_eq!(output(&pixtend).data.retain.to_bytes(), expected);
}

#[test]
fn outputs_relays_and_debounce_times() {
    let mut pixtend = PiXtend::new();
    pixtend.set_digital_output(0, true).unwrap();
    pixtend.set_digital_output(9, true).unwrap();
    pixtend.set_relay_output(3, true).unwrap();
    pixtend.set_digital_debounce(7, 200).unwrap();
    pixtend.set_gpio_debounce(1, 100).unwrap();
    let sent = output(&pixtend);
    assert_eq!(sent.data.digital_out.to_bytes(), vec![0b0000_0001, 0b0000_0010]);
    assert_eq!(sent.data.relay_out.to_bytes(), vec![0b0000_1000]);
    assert_eq!(sent.data.digital_debounce.to_bytes(), vec![0, 0, 0, 0, 0, 0, 0, 200]);
    assert_eq!(sent.data.gpio_debounce.to_bytes(), vec![0, 100]);
    pixtend.set_digital_output(0, false).unwrap();
    assert_eq!(output(&pixtend).data.digital_out.to_bytes(), vec![0, 0b0000_0010]);
}

#[test]
fn reset_forgets_the_configuration() {
    let mut pixtend = PiXtend::new();
    pixtend.set_retain_enable(true);
    pixtend.set_retain_data(vec![7; 64]).unwrap();
    pixtend.set_gpio_config(0, GpioConfig::Sensor).unwrap();
    pixtend.set_relay_output(0, true).unwrap();
    pixtend.reset();
    assert_eq!(frame(&pixtend), Output::default().to_bytes());
    assert_eq!(pixtend.state(), SessionState::Idle);
    assert_eq!(
        pixtend.set_pwm_config(0, PwmConfig::Servo { channel_a: true, channel_b: true }),
        Ok(())
    );
    assert_eq!(
        pixtend.get_gpio_temperature(0, pixtend::SensorKind::DHT22),
        Err(PiXtendError::GpioNotConfiguredAsInput(0))
    );
}
