use pixtend::input::sensor_in::{Sensor, SensorIn};
use pixtend::input::AnalogIn;
use pixtend::output::Dac;
use pixtend::ratio::Ratio;
use pixtend::{Channel, PwmPrescaler, ReferenceVoltage, SensorKind};

fn decimal(ratio: Ratio) -> f64 {
    ratio.numerator as f64 / ratio.denominator as f64
}

fn sensors(temperature: u16, humidity: u16) -> SensorIn {
    let idle = Sensor { temperature: 0, humidity: 0 };
    SensorIn { sens0: idle, sens1: idle, sens2: Sensor { temperature, humidity }, sens3: idle }
}

fn analog(raw: u16) -> AnalogIn {
    AnalogIn { in0: 0, in1: raw, in2: 0, in3: 0, in4: 0, in5: raw }
}

#[test]
fn dht22_temperature_below_zero() {
    let reading = sensors(0x8032, 0).get_temperature_input(2, SensorKind::DHT22).unwrap();
    assert_eq!(reading, Ratio { numerator: -50, denominator: 10 });
    assert_eq!(decimal(reading), -5.0);
}

#[test]
fn dht22_temperature_above_zero() {
    let reading = sensors(0x0032, 0).get_temperature_input(2, SensorKind::DHT22).unwrap();
    assert_eq!(reading, Ratio { numerator: 50, denominator: 10 });
    assert_eq!(decimal(reading), 5.0);
}

#[test]
fn dht11_temperature() {
    let reading = sensors(256, 0).get_temperature_input(2, SensorKind::DHT11).unwrap();
    assert_eq!(reading, Ratio { numerator: 256, denominator: 256 });
    assert_eq!(decimal(reading), 1.0);
}

#[test]
fn dht11_temperature_has_no_sign() {
    let reading = sensors(0x8100, 0).get_temperature_input(2, SensorKind::DHT11).unwrap();
    assert_eq!(reading, Ratio { numerator: 256, denominator: 256 });
}

#[test]
fn temperature_over_the_whole_range() {
    for raw in [0u16, 1, 0x7FFF, 0x8000, 0x8001, 0xFFFF] {
        let dht22 = sensors(raw, 0).get_temperature_input(2, SensorKind::DHT22).unwrap();
        let magnitude = (raw & 0x7FFF) as i64;
        let expected = if raw & 0x8000 != 0 { -magnitude } else { magnitude };
        assert_eq!(dht22, Ratio { numerator: expected, denominator: 10 });
        let dht11 = sensors(raw, 0).get_temperature_input(2, SensorKind::DHT11).unwrap();
        assert_eq!(dht11, Ratio { numerator: magnitude, denominator: 256 });
    }
}

#[test]
fn humidity_of_both_kinds() {
    let dht11 = sensors(0, 12800).get_humidity_input(2, SensorKind::DHT11).unwrap();
    assert_eq!(dht11, Ratio { numerator: 12800, denominator: 25600 });
    assert_eq!(decimal(dht11), 0.5);
    let dht22 = sensors(0, 655).get_humidity_input(2, SensorKind::DHT22).unwrap();
    assert_eq!(dht22, Ratio { numerator: 655, denominator: 1000 });
    assert_eq!(decimal(dht22), 0.655);
    let full = sensors(0, 0xFFFF).get_humidity_input(2, SensorKind::DHT22).unwrap();
    assert_eq!(full, Ratio { numerator: 65535, denominator: 1000 });
}

#[test]
fn sensor_readings_come_from_the_sensor_asked_for() {
    let sensors = SensorIn {
        sens0: Sensor { temperature: 10, humidity: 11 },
        sens1: Sensor { temperature: 20, humidity: 21 },
        sens2: Sensor { temperature: 30, humidity: 31 },
        sens3: Sensor { temperature: 40, humidity: 41 },
    };
    for index in 0..4u8 {
        let temperature = sensors.get_temperature_input(index, SensorKind::DHT22).unwrap();
        assert_eq!(temperature.numerator, 10 * (index as i64 + 1));
        let humidity = sensors.get_humidity_input(index, SensorKind::DHT22).unwrap();
        assert_eq!(humidity.numerator, 10 * (index as i64 + 1) + 1);
    }
}

#[test]
fn analog_voltage_with_both_references() {
    let full = analog(1024).get_analog_voltage_input(1, ReferenceVoltage::V10).unwrap();
    assert_eq!(full, Ratio { numerator: 10240, denominator: 1024 });
    assert_eq!(decimal(full), 10.0);
    let half = analog(512).get_analog_voltage_input(1, ReferenceVoltage::V5).unwrap();
    assert_eq!(half, Ratio { numerator: 2560, denominator: 1024 });
    assert_eq!(decimal(half), 2.5);
    let top = analog(0xFFFF).get_analog_voltage_input(1, ReferenceVoltage::V10).unwrap();
    assert_eq!(top, Ratio { numerator: 655350, denominator: 1024 });
}

#[test]
fn analog_current() {
    let reading = analog(1000).get_analog_current_input(5).unwrap();
    assert_eq!(
        reading,
        Ratio { numerator: 20_158_400_229_358_000, denominator: 1_000_000_000_000_000 }
    );
    assert!((decimal(reading) - 1000.0 * 0.020158400229358).abs() < 1e-12);
    let top = analog(0xFFFF).get_analog_current_input(5).unwrap();
    assert_eq!(top.numerator, 65535 * 20_158_400_229_358);
    let none = analog(1000).get_analog_current_input(4).unwrap();
    assert_eq!(none.numerator, 0);
}

#[test]
fn dac_value_of_a_voltage() {
    assert_eq!(Dac::new(Channel::A, 0).value, 0);
    assert_eq!(Dac::new(Channel::A, 9_775).value, 0);
    assert_eq!(Dac::new(Channel::A, 9_776).value, 1);
    assert_eq!(Dac::new(Channel::A, 5_000_000).value, 511);
    assert_eq!(Dac::new(Channel::A, 9_999_999).value, 1022);
    assert_eq!(Dac::new(Channel::A, 10_000_000).value, 1023);
}

#[test]
fn dac_voltage_is_limited_to_ten_volts() {
    assert_eq!(Dac::new(Channel::B, 10_000_001).value, 1023);
    assert_eq!(Dac::new(Channel::B, u32::MAX).value, 1023);
}

#[test]
fn dac_frame_of_a_voltage() {
    let dac = Dac::new(Channel::B, 5_000_000);
    assert_eq!(dac, Dac { channel: 1, enabled: true, value: 511 });
    assert_eq!(dac.to_bytes(), vec![0b1001_0111, 0b1111_1100]);
    let dac = Dac::new(Channel::A, 10_000_000);
    assert_eq!(dac.to_bytes(), vec![0b0001_1111, 0b1111_1100]);
    assert_eq!(Dac::default().to_bytes(), vec![0, 0]);
}

#[test]
fn dac_frame_of_values_that_do_not_fit() {
    let dac = Dac { channel: 3, enabled: false, value: 0x0FFF };
    assert_eq!(dac.to_bytes(), vec![0b1000_1111, 0b1111_1100]);
}

#[test]
fn pwm_frequency_of_a_value() {
    let one_hertz = PwmPrescaler::Prescale62_5kHz.frequency(31250).unwrap();
    assert_eq!(one_hertz, Ratio { numerator: 62_500, denominator: 62_500 });
    assert_eq!(decimal(one_hertz), 1.0);
    assert_eq!(
        PwmPrescaler::Prescale16MHz.frequency(1),
        Some(Ratio { numerator: 16_000_000, denominator: 2 })
    );
    assert_eq!(
        PwmPrescaler::Prescale2MHz.frequency(0xFFFF),
        Some(Ratio { numerator: 2_000_000, denominator: 131_070 })
    );
    assert_eq!(
        PwmPrescaler::Prescale250kHz.frequency(1000),
        Some(Ratio { numerator: 250_000, denominator: 2000 })
    );
    assert_eq!(
        PwmPrescaler::Prescale15_625kHz.frequency(5),
        Some(Ratio { numerator: 15_625, denominator: 10 })
    );
    assert_eq!(PwmPrescaler::Prescale16MHz.frequency(0), None);
    assert_eq!(PwmPrescaler::Deactivated.frequency(100), None);
}
