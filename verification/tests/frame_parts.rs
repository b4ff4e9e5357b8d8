use pixtend::input::{ErrorCode, GpioIn, State};
use pixtend::output::{
    Dac, DigitalOut, GpioCtrl, GpioOut, Output, PwmCtrl, PwmMode, RelayOut, Retain, System,
};
use pixtend::{PwmPrescaler, Warnings, Watchdog};

#[test]
fn test_gpio_in() {
    let data = [0b0000_1010];
    let gpio_in = GpioIn::from_bytes(data.as_ref()).unwrap();
    assert_eq!(gpio_in.in3, true);
    assert_eq!(gpio_in.in2, false);
    assert_eq!(gpio_in.in1, true);
    assert_eq!(gpio_in.in0, false);
    assert_eq!(gpio_in.to_bytes(), data);

    let data = [0b0000_0110];
    let gpio_in = GpioIn::from_bytes(data.as_ref()).unwrap();
    assert_eq!(gpio_in.in3, false);
    assert_eq!(gpio_in.in2, true);
    assert_eq!(gpio_in.in1, true);
    assert_eq!(gpio_in.in0, false);
    assert_eq!(gpio_in.to_bytes(), data);
}

#[test]
fn test_state() {
    let data = [0b0000_0001];
    let state = State::from_bytes(data.as_ref()).unwrap();
    assert_eq!(state.error_code, ErrorCode::NoError);
    assert_eq!(state.run, true);
    assert_eq!(state.to_bytes(), data);

    let data = [0b0110_0000];
    let state = State::from_bytes(data.as_ref()).unwrap();
    assert_eq!(state.error_code, ErrorCode::SPIFrequencyTooHigh);
    assert_eq!(state.run, false);
    assert_eq!(state.to_bytes(), data);
}

#[test]
fn test_warnings() {
    let data = [0b0000_1010];
    let warnings = Warnings::from_bytes(data.as_ref()).unwrap();
    assert_eq!(warnings.i2c_error, true);
    assert_eq!(warnings.voltage_error, false);
    assert_eq!(warnings.retain_crc_error, true);
    assert_eq!(warnings.to_bytes(), data);

    let data = [0b0000_0100];
    let warnings = Warnings::from_bytes(data.as_ref()).unwrap();
    assert_eq!(warnings.i2c_error, false);
    assert_eq!(warnings.voltage_error, true);
    assert_eq!(warnings.retain_crc_error, false);
    assert_eq!(warnings.to_bytes(), data);
}

#[test]
fn test_dac() {
    let data = vec![0b1001_1000, 0b1000_0100];
    let dac = Dac::from_bytes(data.as_ref()).unwrap();
    assert_eq!(dac.channel, 1);
    assert_eq!(dac.enabled, true);
    assert_eq!(dac.value, 545);
    assert_eq!(dac.to_bytes(), data);

    let data = vec![0b0000_0001, 0b0000_1000];
    let dac = Dac::from_bytes(data.as_ref()).unwrap();
    assert_eq!(dac.channel, 0);
    assert_eq!(dac.enabled, false);
    assert_eq!(dac.value, 66);
    assert_eq!(dac.to_bytes(), data);
}

#[test]
fn test_digital_out_control() {
    let data = [0b1010_1010, 0b0000_1010];
    let digital_out_control = DigitalOut::from_bytes(&data).unwrap();
    assert_eq!(digital_out_control.out0, false);
    assert_eq!(digital_out_control.out1, true);
    assert_eq!(digital_out_control.out2, false);
    assert_eq!(digital_out_control.out3, true);
    assert_eq!(digital_out_control.out4, false);
    assert_eq!(digital_out_control.out5, true);
    assert_eq!(digital_out_control.out6, false);
    assert_eq!(digital_out_control.out7, true);
    assert_eq!(digital_out_control.out8, false);
    assert_eq!(digital_out_control.out9, true);
    assert_eq!(digital_out_control.out10, false);
    assert_eq!(digital_out_control.out11, true);

    let data = digital_out_control.to_bytes();
    assert_eq!(data, [0b1010_1010, 0b0000_1010]);
}

#[test]
fn test_gpio_ctrl() {
    let data = vec![0b1010_1010];
    let gpio_ctrl = GpioCtrl::from_bytes(data.as_ref()).unwrap();
    assert_eq!(gpio_ctrl.sens3, true);
    assert_eq!(gpio_ctrl.sens2, false);
    assert_eq!(gpio_ctrl.sens1, true);
    assert_eq!(gpio_ctrl.sens0, false);
    assert_eq!(gpio_ctrl.io3, true);
    assert_eq!(gpio_ctrl.io2, false);
    assert_eq!(gpio_ctrl.io1, true);
    assert_eq!(gpio_ctrl.io0, false);
    assert_eq!(gpio_ctrl.to_bytes(), data);

    let data = vec![0b0101_0101];
    let gpio_ctrl = GpioCtrl::from_bytes(data.as_ref()).unwrap();
    assert_eq!(gpio_ctrl.sens3, false);
    assert_eq!(gpio_ctrl.sens2, true);
    assert_eq!(gpio_ctrl.sens1, false);
    assert_eq!(gpio_ctrl.sens0, true);
    assert_eq!(gpio_ctrl.io3, false);
    assert_eq!(gpio_ctrl.io2, true);
    assert_eq!(gpio_ctrl.io1, false);
    assert_eq!(gpio_ctrl.io0, true);
    assert_eq!(gpio_ctrl.to_bytes(), data);
}

#[test]
fn test_gpio_out() {
    let data = vec![0b0000_1010];
    let output = GpioOut::from_bytes(data.as_ref()).unwrap();
    assert_eq!(output.gpio3, true);
    assert_eq!(output.gpio2, false);
    assert_eq!(output.gpio1, true);
    assert_eq!(output.gpio0, false);
    assert_eq!(output.to_bytes(), data);

    let data = vec![0b0000_0110];
    let output = GpioOut::from_bytes(data.as_ref()).unwrap();
    assert_eq!(output.gpio3, false);
    assert_eq!(output.gpio2, true);
    assert_eq!(output.gpio1, true);
    assert_eq!(output.gpio0, false);
    assert_eq!(output.to_bytes(), data);
}

#[test]
fn test_output() {
    let output = Output::default();
    assert_eq!(output.to_bytes().len(), 111);
}

#[test]
fn test_pwm_ctrl() {
    let data = [0b0010_1001];
    let pwm_ctrl = PwmCtrl::from_bytes(&data).unwrap();
    assert_eq!(pwm_ctrl.prescaler, PwmPrescaler::Prescale16MHz);
    assert_eq!(pwm_ctrl.channel_b, false);
    assert_eq!(pwm_ctrl.channel_a, true);
    assert_eq!(pwm_ctrl.mode, PwmMode::DutyCycle);
    assert_eq!(pwm_ctrl.to_bytes(), data);

    let data = [0b1011_0011];
    let pwm_ctrl = PwmCtrl::from_bytes(&data).unwrap();
    assert_eq!(pwm_ctrl.prescaler, PwmPrescaler::Prescale15_625kHz);
    assert_eq!(pwm_ctrl.channel_b, true);
    assert_eq!(pwm_ctrl.channel_a, false);
    assert_eq!(pwm_ctrl.mode, PwmMode::Frequency);
    assert_eq!(pwm_ctrl.to_bytes(), data);
}

#[test]
fn test_relay_out_control() {
    let data = [0b0000_0101];
    let relay_out = RelayOut::from_bytes(data.as_ref()).unwrap();
    assert_eq!(relay_out.relay0, true);
    assert_eq!(relay_out.relay1, false);
    assert_eq!(relay_out.relay2, true);
    assert_eq!(relay_out.relay3, false);
    assert_eq!(relay_out.to_bytes(), data);

    let data = [0b0000_1001];
    let relay_out = RelayOut::from_bytes(data.as_ref()).unwrap();
    assert_eq!(relay_out.relay0, true);
    assert_eq!(relay_out.relay1, false);
    assert_eq!(relay_out.relay2, false);
    assert_eq!(relay_out.relay3, true);
    assert_eq!(relay_out.to_bytes(), data);
}

#[test]
fn test_retain() {
    let data = vec![0x01; 64];
    let retain = Retain::from_bytes(&data).unwrap();
    assert_eq!(retain.storage.to_vec(), data);
    assert_eq!(retain.to_bytes(), data);

    assert_eq!(Retain::default().to_bytes(), vec![0x00; 64]);
}

#[test]
fn test_system_control() {
    let data = [0b0101_0101];
    let system_control = System::from_bytes(&data).unwrap();
    assert_eq!(system_control.safe, true);
    assert_eq!(system_control.retain_copy, false);
    assert_eq!(system_control.retain_enable, true);
    assert_eq!(system_control.led_disable, false);
    assert_eq!(system_control.gpio_pullup_enable, true);

    let data = [0b1010_1010];
    let system_control = System::from_bytes(&data).unwrap();
    assert_eq!(system_control.safe, false);
    assert_eq!(system_control.retain_copy, true);
    assert_eq!(system_control.retain_enable, false);
    assert_eq!(system_control.led_disable, true);
    assert_eq!(system_control.gpio_pullup_enable, false);

    let data = [0b0000_1111];
    let system_control = System::from_bytes(&data).unwrap();
    assert_eq!(system_control.safe, true);
    assert_eq!(system_control.retain_copy, true);
    assert_eq!(system_control.retain_enable, true);
    assert_eq!(system_control.led_disable, true);
    assert_eq!(system_control.gpio_pullup_enable, false);

    let system_control = System {
        gpio_pullup_enable: true,
        led_disable: false,
        retain_enable: true,
        retain_copy: true,
        safe: true,
    };
    let data = system_control.to_bytes();
    assert_eq!(data, [0b00010111]);
}

#[test]
fn test_watchdog_control() {
    let data = [0];
    let control = Watchdog::from_bytes(&data).unwrap();
    assert_eq!(control, Watchdog::Deactivated);

    let data = [4];
    let control = Watchdog::from_bytes(&data).unwrap();
    assert_eq!(control, Watchdog::Activated0_125s);

    let data = [7];
    let control = Watchdog::from_bytes(&data).unwrap();
    assert_eq!(control, Watchdog::Activated1s);

    let data = [10];
    let control = Watchdog::from_bytes(&data).unwrap();
    assert_eq!(control, Watchdog::Activated8s);

    let control = Watchdog::Deactivated;
    let data = control.to_bytes();
    assert_eq!(data, [0]);

    let control = Watchdog::Activated0_125s;
    let data = control.to_bytes();
    assert_eq!(data, [4]);
}
