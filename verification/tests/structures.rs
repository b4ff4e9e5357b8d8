use pixtend::error::PiXtendError;
use pixtend::input::{AnalogIn, DigitalIn, GpioIn, Sensor, SensorIn};
use pixtend::output::{
    DigitalDebounce, DigitalOut, GpioCtrl, GpioDebounce, GpioOut, Pwm, PwmGroup, RelayOut,
};
use pixtend::{Channel, GpioConfig, PwmConfig, ReferenceVoltage, SensorKind};

#[test]
fn inputs_with_an_index_that_names_nothing() {
    let gpio_in = GpioIn { in3: true, in2: true, in1: true, in0: true };
    assert_eq!(gpio_in.get_gpio_input(3), Ok(true));
    assert_eq!(gpio_in.get_gpio_input(4), Err(PiXtendError::InvalidGpioInputIndex(4)));
    assert_eq!(gpio_in.get_gpio_input(255), Err(PiXtendError::InvalidGpioInputIndex(255)));

    let digital_in = DigitalIn::from_bytes(&[0xFF, 0xFF]).unwrap();
    assert_eq!(digital_in.get_digital_input(15), Ok(true));
    assert_eq!(digital_in.get_digital_input(16), Err(PiXtendError::InvalidDigitalInputIndex(16)));

    let analog_in = AnalogIn { in0: 1, in1: 2, in2: 3, in3: 4, in4: 5, in5: 6 };
    assert_eq!(
        analog_in.get_analog_voltage_input(4, ReferenceVoltage::V10),
        Err(PiXtendError::InvalidAnalogVoltageInputIndex(4))
    );
    assert_eq!(
        analog_in.get_analog_current_input(3),
        Err(PiXtendError::InvalidAnalogCurrentInputIndex(3))
    );
    assert_eq!(
        analog_in.get_analog_current_input(6),
        Err(PiXtendError::InvalidAnalogCurrentInputIndex(6))
    );
    for index in 0..4u8 {
        let reading = analog_in.get_analog_voltage_input(index, ReferenceVoltage::V5).unwrap();
        assert_eq!(reading.numerator, 5 * (index as i64 + 1));
    }
    assert_eq!(analog_in.get_analog_current_input(4).unwrap().numerator, 5 * 20_158_400_229_358);
    assert_eq!(analog_in.get_analog_current_input(5).unwrap().numerator, 6 * 20_158_400_229_358);

    let idle = Sensor { temperature: 0, humidity: 0 };
    let sensors = SensorIn { sens0: idle, sens1: idle, sens2: idle, sens3: idle };
    for kind in [SensorKind::DHT11, SensorKind::DHT22] {
        assert_eq!(
            sensors.get_temperature_input(4, kind),
            Err(PiXtendError::InvalidGpioInputIndex(4))
        );
        assert_eq!(
            sensors.get_humidity_input(4, kind),
            Err(PiXtendError::InvalidGpioInputIndex(4))
        );
    }
}

#[test]
fn gpio_control_bits_of_a_configuration() {
    let mut gpio_ctrl = GpioCtrl::default();
    assert_eq!(gpio_ctrl.set_gpio_config(0, GpioConfig::Output), Ok(()));
    assert_eq!(gpio_ctrl.set_gpio_config(1, GpioConfig::Sensor), Ok(()));
    assert_eq!(gpio_ctrl.set_gpio_config(2, GpioConfig::Input(true)), Ok(()));
    assert_eq!(gpio_ctrl.set_gpio_config(3, GpioConfig::Output), Ok(()));
    assert_eq!(gpio_ctrl.to_bytes(), vec![0b0010_1001]);
    assert_eq!(gpio_ctrl.set_gpio_config(3, GpioConfig::Sensor), Ok(()));
    assert_eq!(gpio_ctrl.set_gpio_config(0, GpioConfig::Input(false)), Ok(()));
    assert_eq!(gpio_ctrl.to_bytes(), vec![0b1010_0000]);
    let before = gpio_ctrl;
    assert_eq!(
        gpio_ctrl.set_gpio_config(4, GpioConfig::Output),
        Err(PiXtendError::InvalidGpioOutputIndex(4))
    );
    assert_eq!(gpio_ctrl, before);
}

#[test]
fn gpio_output_bits_of_a_configuration() {
    let mut gpio_out = GpioOut::default();
    assert_eq!(gpio_out.set_gpio_config(2, GpioConfig::Input(true)), Ok(()));
    assert_eq!(gpio_out.to_bytes(), vec![0b0000_0100]);
    // every other configuration leaves the bit as it is
    assert_eq!(gpio_out.set_gpio_config(2, GpioConfig::Input(false)), Ok(()));
    assert_eq!(gpio_out.set_gpio_config(2, GpioConfig::Output), Ok(()));
    assert_eq!(gpio_out.set_gpio_config(2, GpioConfig::Sensor), Ok(()));
    assert_eq!(gpio_out.set_gpio_config(1, GpioConfig::Output), Ok(()));
    assert_eq!(gpio_out.to_bytes(), vec![0b0000_0100]);
    assert_eq!(gpio_out.set_gpio_output(2, false), Ok(()));
    assert_eq!(gpio_out.set_gpio_output(0, true), Ok(()));
    assert_eq!(gpio_out.to_bytes(), vec![0b0000_0001]);
    let before = gpio_out;
    assert_eq!(
        gpio_out.set_gpio_config(4, GpioConfig::Input(true)),
        Err(PiXtendError::InvalidGpioOutputIndex(4))
    );
    assert_eq!(gpio_out.set_gpio_output(4, true), Err(PiXtendError::InvalidGpioOutputIndex(4)));
    assert_eq!(gpio_out, before);
}

#[test]
fn setters_of_the_output_structures() {
    let mut relay_out = RelayOut::default();
    for index in 0..4u8 {
        assert_eq!(relay_out.set_relay_output(index, true), Ok(()));
        assert_eq!(relay_out.to_bytes(), vec![(1u8 << (index + 1)) - 1]);
    }
    assert_eq!(relay_out.set_relay_output(4, false), Err(PiXtendError::InvalidRelayOutputIndex(4)));
    assert_eq!(relay_out.to_bytes(), vec![0b0000_1111]);

    let mut digital_out = DigitalOut::default();
    assert_eq!(
        digital_out.set_digital_output(12, true),
        Err(PiXtendError::InvalidDigitalOutputIndex(12))
    );
    assert_eq!(digital_out, DigitalOut::default());

    let mut digital_debounce = DigitalDebounce::default();
    for group in 0..8u8 {
        assert_eq!(digital_debounce.set_digital_debounce(group, group + 10), Ok(()));
    }
    assert_eq!(digital_debounce.to_bytes(), vec![10, 11, 12, 13, 14, 15, 16, 17]);
    assert_eq!(
        digital_debounce.set_digital_debounce(8, 1),
        Err(PiXtendError::InvalidDigitalDebounceGroup(8))
    );
    assert_eq!(digital_debounce.to_bytes(), vec![10, 11, 12, 13, 14, 15, 16, 17]);

    let mut gpio_debounce = GpioDebounce::default();
    assert_eq!(gpio_debounce.set_gpio_debounce(0, 3), Ok(()));
    assert_eq!(gpio_debounce.set_gpio_debounce(1, 4), Ok(()));
    assert_eq!(gpio_debounce.to_bytes(), vec![3, 4]);
    assert_eq!(
        gpio_debounce.set_gpio_debounce(2, 5),
        Err(PiXtendError::InvalidGpioDebounceGroup(2))
    );
    assert_eq!(gpio_debounce.to_bytes(), vec![3, 4]);
}

#[test]
fn pwm_groups_by_index() {
    let servo = PwmConfig::Servo { channel_a: true, channel_b: true };
    let mut pwm = Pwm::default();
    assert_eq!(pwm.set_pwm_config(1, servo), Ok(()));
    assert_eq!(pwm.group0, PwmGroup::default());
    assert_eq!(pwm.group1, PwmGroup::from(servo));
    assert_eq!(pwm.group2, PwmGroup::default());
    assert_eq!(pwm.set_channel_value(1, Channel::A, 100), Ok(()));
    assert_eq!(pwm.set_channel_value(1, Channel::B, 200), Ok(()));
    assert_eq!(pwm.set_channel_value(2, Channel::B, 300), Ok(()));
    assert_eq!((pwm.group1.channel0, pwm.group1.channel1), (100, 200));
    assert_eq!((pwm.group2.channel0, pwm.group2.channel1), (0, 300));
    // a new configuration starts the channels again at zero
    assert_eq!(pwm.set_pwm_config(1, servo), Ok(()));
    assert_eq!((pwm.group1.channel0, pwm.group1.channel1), (0, 0));
    let before = pwm;
    assert_eq!(pwm.set_pwm_config(3, servo), Err(PiXtendError::InvalidPwmOutputGroupIndex(3)));
    assert_eq!(
        pwm.set_channel_value(3, Channel::A, 1),
        Err(PiXtendError::InvalidPwmOutputGroupIndex(3))
    );
    assert_eq!(pwm, before);
    assert_eq!(pwm.to_bytes().len(), 21);
}
