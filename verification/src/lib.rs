//! Frame codec and session logic for the PiXtend L extension board.
//!
//! The board is driven by one periodic, fixed-size exchange over a serial bus:
//! the host sends a 111 byte output frame and receives a 111 byte input frame.
//! This crate holds everything about that exchange that can be decided without
//! touching the bus: the bit layout of both frames, their checksums, the rules
//! a configuration has to meet before it is written into a frame, and the
//! bookkeeping of one communication cycle. The bus itself is left to the caller.

pub mod bits;
pub mod block;
pub mod error;
pub mod gpio_config;
pub mod input;
pub mod output;
pub mod pwm_config;
pub mod ratio;
pub mod utils;

pub use gpio_config::GpioConfig;
pub use input::{ReferenceVoltage, SensorKind, Warnings};
pub use output::{PwmPrescaler, Watchdog};
pub use pwm_config::PwmConfig;

use error::{FrameError, PiXtendError};
use input::{ErrorCode, Input};
use output::{Dac, Header, Output, PwmGroup, System};
use ratio::Ratio;
use vstd::prelude::*;
use vstd::std_specs::convert::FromSpec;

verus! {

/// One of the two channels of a PWM group or of the analog output.
#[derive(Debug, Clone, Copy, PartialEq, Eq)]
pub enum Channel {
    A,
    B,
}

impl Channel {
    /// The number of the channel: 0 for A, 1 for B.
    pub open spec fn index(self) -> u8 {
        match self {
            Channel::A => 0,
            Channel::B => 1,
        }
    }
}

/// Where the communication with the board stands.
#[derive(Debug, Clone, Copy, PartialEq, Eq)]
pub enum SessionState {
    /// No frame has been received yet.
    Idle,
    /// The last frame received came from a running board.
    Ready,
    /// The last frame received came from a board that has stopped. It does not
    /// take part in the communication again before it is restarted.
    Faulted,
}

/// What a setter returns: nothing where there is no objection, and the
/// objection where there is one.
pub open spec fn outcome(error: Option<PiXtendError>) -> Result<(), PiXtendError> {
    match error {
        None => Ok(()),
        Some(error) => Err(error),
    }
}

/// The number of bytes of a frame, in either direction.
pub const FRAME_LENGTH: usize = 111;

/// The time in microseconds that has to pass between the end of one exchange
/// with the board and the start of the next.
pub const COMMUNICATION_DELAY: u64 = 30_000;

/// How long to wait before the next exchange, when the last one ended
/// `elapsed` microseconds ago.
pub open spec fn remaining_delay(elapsed: u64) -> u64 {
    if elapsed < COMMUNICATION_DELAY {
        (COMMUNICATION_DELAY - elapsed) as u64
    } else {
        0
    }
}

/// What the board's report on the frame it was sent means for the caller.
pub open spec fn reported_error(code: ErrorCode) -> Option<PiXtendError> {
    match code {
        ErrorCode::NoError => None,
        ErrorCode::DataCrcError => Some(PiXtendError::OutputCrcError),
        ErrorCode::DataBlockTooShort => Some(PiXtendError::DataBlockTooShort),
        ErrorCode::PiXtendModelMismatch => Some(PiXtendError::PiXtendModelMismatch),
        ErrorCode::HeaderCrcError => Some(PiXtendError::OutputCrcError),
        ErrorCode::SPIFrequencyTooHigh => Some(PiXtendError::SPIFrequencyTooHigh),
    }
}

/// The frame that the bytes of a response are accepted as, or why they are
/// refused. The tests are made in this order: the response has the length of a
/// frame; it can be read as one; both checksums are right; the board is a
/// PiXtend L; the board has no complaint about the frame it was sent.
pub open spec fn accepted(response: Seq<u8>) -> Result<Input, PiXtendError> {
    if response.len() != FRAME_LENGTH {
        Err(PiXtendError::InvalidSpiResponseLength(response.len() as usize))
    } else {
        match Input::parse(response) {
            Err(error) => Err(PiXtendError::BinaryFrameReadWriteError(error)),
            Ok(input) => if !input.crc_valid() {
                Err(PiXtendError::InputCrcError)
            } else if input.header.model != output::MAGIC {
                Err(PiXtendError::PiXtendModelMismatch)
            } else {
                match reported_error(input.header.state.error_code) {
                    Some(error) => Err(error),
                    None => Ok(input),
                }
            },
        }
    }
}

/// What is to be done on the bus in one communication cycle.
#[derive(Debug, PartialEq, Eq)]
pub struct Exchange {
    /// How long to wait before the exchange, in microseconds.
    pub delay: u64,
    /// The bytes to send. As many bytes are to be read.
    pub frame: Vec<u8>,
}

/// What a `PiXtend` holds, for use in contracts.
pub struct PiXtendView {
    /// The last frame that was received and accepted.
    pub input: Option<Input>,
    /// The frame that is sent next.
    pub output: Output,
    /// The configuration of GPIO 0 to 3.
    pub gpio_configs: Seq<GpioConfig>,
    /// The configuration of PWM group 0 to 2.
    pub pwm_configs: Seq<PwmConfig>,
    /// The frames of the two analog outputs.
    pub dac_configs: Seq<Dac>,
}

impl PiXtendView {
    /// Whether any GPIO is a sensor input.
    pub open spec fn sensor_configured(self) -> bool {
        ||| self.gpio_configs[0] == GpioConfig::Sensor
        ||| self.gpio_configs[1] == GpioConfig::Sensor
        ||| self.gpio_configs[2] == GpioConfig::Sensor
        ||| self.gpio_configs[3] == GpioConfig::Sensor
    }

    /// Whether any PWM group is active.
    pub open spec fn pwm_active(self) -> bool {
        ||| self.pwm_configs[0].active()
        ||| self.pwm_configs[1].active()
        ||| self.pwm_configs[2].active()
    }

    /// What holds of every `PiXtend`: sensors and PWM are never active together,
    /// the output frame says of every GPIO and of every PWM group what its
    /// configuration says, and the frames of the analog outputs fit.
    pub open spec fn wf(self) -> bool {
        &&& self.gpio_configs.len() == 4
        &&& self.pwm_configs.len() == 3
        &&& self.dac_configs.len() == 2
        &&& !(self.sensor_configured() && self.pwm_active())
        &&& forall|i: int|
            0 <= i <= 3 ==> self.output.data.gpio_ctrl.io(i) == (self.gpio_configs[i]
                == GpioConfig::Output) && self.output.data.gpio_ctrl.sensor(i) == (
            self.gpio_configs[i] == GpioConfig::Sensor)
        &&& forall|i: int|
            0 <= i <= 2 ==> self.output.data.pwm.group(i).ctrl0 == PwmGroup::from_spec(
                self.pwm_configs[i],
            ).ctrl0 && self.output.data.pwm.group(i).ctrl1 == PwmGroup::from_spec(
                self.pwm_configs[i],
            ).ctrl1
        &&& self.dac_configs[0].fits()
        &&& self.dac_configs[1].fits()
    }

    /// Where the communication stands.
    pub open spec fn state(self) -> SessionState {
        match self.input {
            None => SessionState::Idle,
            Some(input) => if input.header.state.run {
                SessionState::Ready
            } else {
                SessionState::Faulted
            },
        }
    }

    /// Why a GPIO cannot be configured as asked, if it cannot. The index is
    /// tested first; then a sensor input is refused while any PWM group is
    /// active, and a pull-up while pull-ups are not enabled.
    pub open spec fn gpio_config_error(self, index: u8, config: GpioConfig) -> Option<
        PiXtendError,
    > {
        if index > 3 {
            Some(PiXtendError::InvalidGpioOutputIndex(index))
        } else if config == GpioConfig::Sensor && self.pwm_active() {
            Some(PiXtendError::PwmAndDhtExclusive)
        } else if config == GpioConfig::Input(true)
            && !self.output.header.system.gpio_pullup_enable {
            Some(PiXtendError::GpioPullupNotGloballyEnabled)
        } else {
            None
        }
    }

    /// Why a GPIO cannot be switched, if it cannot: there is none with the
    /// index, or it is no output.
    pub open spec fn gpio_output_error(self, index: u8) -> Option<PiXtendError> {
        if index > 3 {
            Some(PiXtendError::InvalidGpioOutputIndex(index))
        } else if self.gpio_configs[index as int] != GpioConfig::Output {
            Some(PiXtendError::GpioNotConfiguredAsOutput(index))
        } else {
            None
        }
    }

    /// Why a PWM group cannot be configured, if it cannot: there is none with
    /// the index, or a GPIO is a sensor input.
    pub open spec fn pwm_config_error(self, index: u8) -> Option<PiXtendError> {
        if index > 2 {
            Some(PiXtendError::InvalidPwmOutputGroupIndex(index))
        } else if self.sensor_configured() {
            Some(PiXtendError::PwmAndDhtExclusive)
        } else {
            None
        }
    }

    /// Why no servo position can be set in a PWM group, if none can: there is no
    /// group with the index, or it is not in servo mode.
    pub open spec fn pwm_servo_error(self, index: u8) -> Option<PiXtendError> {
        if index > 2 {
            Some(PiXtendError::InvalidPwmOutputGroupIndex(index))
        } else if !(self.pwm_configs[index as int] is Servo) {
            Some(PiXtendError::PwmNotConfiguredAsServo(index))
        } else {
            None
        }
    }

    /// Why no duty cycle can be set on a channel of a PWM group, if none can:
    /// there is no group with the index, or it is neither in duty cycle mode
    /// nor, for channel A, in universal mode.
    pub open spec fn pwm_duty_cycle_error(self, index: u8, channel: Channel) -> Option<
        PiXtendError,
    > {
        if index > 2 {
            Some(PiXtendError::InvalidPwmOutputGroupIndex(index))
        } else if !(self.pwm_configs[index as int] is DutyCycle || (
        self.pwm_configs[index as int] is Universal && channel == Channel::A)) {
            Some(PiXtendError::PwmNotConfiguredForDutyCycle(index))
        } else {
            None
        }
    }

    /// Why no frequency can be set in a PWM group, if none can: there is no
    /// group with the index, or it is not in frequency mode.
    pub open spec fn pwm_frequency_error(self, index: u8) -> Option<PiXtendError> {
        if index > 2 {
            Some(PiXtendError::InvalidPwmOutputGroupIndex(index))
        } else if !(self.pwm_configs[index as int] is Frequency) {
            Some(PiXtendError::PwmNotConfiguredAsFrequency(index))
        } else {
            None
        }
    }

    /// The same, but for the value of one channel of the PWM group with the
    /// given index, 0 to 2.
    pub open spec fn with_channel(self, index: u8, channel: Channel, value: u16) -> PiXtendView {
        self.with_data(
            output::Data {
                pwm: self.output.data.pwm.with_group(
                    index as int,
                    self.output.data.pwm.group(index as int).with_channel(channel, value),
                ),
                ..self.output.data
            },
        )
    }

    /// Whether the board takes part in the communication: it has not reported
    /// that it has stopped.
    pub open spec fn ready(self) -> bool {
        self.state() != SessionState::Faulted
    }

    /// What the start of a communication cycle hands out, when the last exchange
    /// ended `elapsed` microseconds ago: the time to wait and the bytes to send.
    /// A board that has stopped is not talked to.
    pub open spec fn begun(self, elapsed: u64) -> Result<(u64, Seq<u8>), PiXtendError> {
        if self.ready() {
            Ok((remaining_delay(elapsed), self.output.wire()))
        } else {
            Err(PiXtendError::NotReadyForCommunication)
        }
    }

    /// What the end of a communication cycle leaves, given the bytes that came
    /// back: the new state, and the two frames for the analog outputs or the
    /// reason why the cycle failed. A response that is accepted replaces the
    /// input frame; a failed cycle changes nothing.
    pub open spec fn finished(self, response: Seq<u8>) -> (
        PiXtendView,
        Result<(Seq<u8>, Seq<u8>), PiXtendError>,
    ) {
        if !self.ready() {
            (self, Err(PiXtendError::NotReadyForCommunication))
        } else {
            match accepted(response) {
                Err(error) => (self, Err(error)),
                Ok(input) => (
                    PiXtendView { input: Some(input), ..self },
                    Ok((self.dac_configs[0].wire(), self.dac_configs[1].wire())),
                ),
            }
        }
    }

    /// Whether this is the state after a reset: like a new one, but with both
    /// analog outputs switched off.
    pub open spec fn cleared(self) -> bool {
        &&& self.input is None
        &&& self.output.idle()
        &&& self.gpio_configs == Seq::new(4, |i: int| GpioConfig::Input(false))
        &&& self.pwm_configs == Seq::new(3, |i: int| PwmConfig::Deactivated)
        &&& self.dac_configs == Seq::new(
            2,
            |i: int| Dac { channel: 0, enabled: false, value: 0 },
        )
    }

    /// The same, but for the header of the output frame.
    pub open spec fn with_header(self, header: Header) -> PiXtendView {
        PiXtendView { output: Output { header, ..self.output }, ..self }
    }

    /// The same, but for the system flags of the output frame.
    pub open spec fn with_system(self, system: System) -> PiXtendView {
        self.with_header(Header { system, ..self.output.header })
    }

    /// The same, but for the data of the output frame.
    pub open spec fn with_data(self, data: output::Data) -> PiXtendView {
        PiXtendView { output: Output { data, ..self.output }, ..self }
    }
}

/// What is accepted. The bytes of a frame are accepted as that frame if its
/// checksums are right, its model is that of the PiXtend L, and it reports no
/// fault. And whatever is accepted has these three properties, and is what the
/// bytes are read as.
pub proof fn lemma_accepted(input: Input, response: Seq<u8>)
    ensures
        input.crc_valid() && input.header.model == output::MAGIC
            && input.header.state.error_code == ErrorCode::NoError ==> accepted(input.wire())
            == Ok::<Input, PiXtendError>(input),
        accepted(response) == Ok::<Input, PiXtendError>(input) ==> response.len() == FRAME_LENGTH
            && Input::parse(response) == Ok::<Input, FrameError>(input) && input.crc_valid()
            && input.header.model == output::MAGIC && input.header.state.error_code
            == ErrorCode::NoError,
{
    input.lemma_parse_wire();
}

/// A board that has reported that it has stopped is left alone. Once a response
/// with a cleared run bit has been accepted, the state is `Faulted`; from then
/// on the start of a cycle hands out no frame to send, whatever time has
/// passed, and the end of a cycle accepts no response and changes nothing.
pub proof fn lemma_stopped_board_is_left_alone(
    view: PiXtendView,
    response: Seq<u8>,
    elapsed: u64,
    later: Seq<u8>,
)
    requires
        view.ready(),
        accepted(response) matches Ok(input) && !input.header.state.run,
    ensures
        view.finished(response).0.state() == SessionState::Faulted,
        view.finished(response).0.begun(elapsed) == Err::<(u64, Seq<u8>), PiXtendError>(
            PiXtendError::NotReadyForCommunication,
        ),
        view.finished(response).0.finished(later) == (
            view.finished(response).0,
            Err::<(Seq<u8>, Seq<u8>), PiXtendError>(PiXtendError::NotReadyForCommunication),
        ),
{
}

/// A communication cycle moves the state as follows: a response that is
/// accepted leads to `Ready` or `Faulted`, as its run bit says, and only there
/// does the input frame change; every failure leaves the state where it was.
pub proof fn lemma_cycle_transitions(view: PiXtendView, response: Seq<u8>)
    ensures
        view.finished(response).1 is Ok <==> view.ready() && accepted(response) is Ok,
        view.finished(response).1 is Err ==> view.finished(response).0 == view,
        view.finished(response).1 is Ok ==> view.finished(response).0.input == Some(
            accepted(response).unwrap(),
        ) && view.finished(response).0.state() == if accepted(
            response,
        ).unwrap().header.state.run {
            SessionState::Ready
        } else {
            SessionState::Faulted
        },
        view.finished(response).0.output == view.output,
        view.finished(response).0.gpio_configs == view.gpio_configs,
        view.finished(response).0.pwm_configs == view.pwm_configs,
        view.finished(response).0.dac_configs == view.dac_configs,
{
}

/// The frame to send depends on nothing but the output frame as it stands:
/// two starts of a cycle with nothing set in between hand out the same bytes,
/// whatever time has passed. The bytes are 111, they read back as the output
/// frame, and header and data are each followed by their checksum.
pub proof fn lemma_frame_repeats(view: PiXtendView, first: u64, second: u64)
    requires
        view.ready(),
    ensures
        view.begun(first) is Ok,
        view.begun(second) is Ok,
        view.begun(first).unwrap().1 == view.begun(second).unwrap().1,
        view.begun(first).unwrap().1.len() == FRAME_LENGTH,
        Output::canonical(view.begun(first).unwrap().1),
        Output::parse(view.begun(first).unwrap().1) == Ok::<Output, FrameError>(view.output),
{
    view.output.lemma_parse_wire();
}

/// What the setters refuse, whatever else is set. A pull-up on an existing GPIO
/// is refused while pull-ups are not enabled. An index that names nothing is
/// refused with the error that names the index.
pub proof fn lemma_refusals(view: PiXtendView, index: u8, config: GpioConfig, channel: Channel)
    ensures
        index <= 3 && !view.output.header.system.gpio_pullup_enable ==> view.gpio_config_error(
            index,
            GpioConfig::Input(true),
        ) == Some(PiXtendError::GpioPullupNotGloballyEnabled),
        index > 3 ==> view.gpio_config_error(index, config) == Some(
            PiXtendError::InvalidGpioOutputIndex(index),
        ) && view.gpio_output_error(index) == Some(PiXtendError::InvalidGpioOutputIndex(index)),
        index > 2 ==> view.pwm_config_error(index) == Some(
            PiXtendError::InvalidPwmOutputGroupIndex(index),
        ) && view.pwm_servo_error(index) == Some(PiXtendError::InvalidPwmOutputGroupIndex(index))
            && view.pwm_duty_cycle_error(index, channel) == Some(
            PiXtendError::InvalidPwmOutputGroupIndex(index),
        ) && view.pwm_frequency_error(index) == Some(
            PiXtendError::InvalidPwmOutputGroupIndex(index),
        ),
{
}

/// Reads the bytes of a response as a frame and tests it.
fn accept(response: &[u8]) -> (result: Result<Input, PiXtendError>)
    ensures
        result == accepted(response@),
{
    if response.len() != FRAME_LENGTH {
        return Err(PiXtendError::InvalidSpiResponseLength(response.len()));
    }
    let input: Input = match Input::from_bytes(response) {
        Ok(input) => input,
        Err(error) => { return Err(error); },
    };
    if !input.check_crc_valid() {
        return Err(PiXtendError::InputCrcError);
    }
    if input.header.model != output::MAGIC {
        return Err(PiXtendError::PiXtendModelMismatch);
    }
    match input.header.state.error_code {
        ErrorCode::NoError => Ok(input),
        ErrorCode::DataCrcError => Err(PiXtendError::OutputCrcError),
        ErrorCode::DataBlockTooShort => Err(PiXtendError::DataBlockTooShort),
        ErrorCode::PiXtendModelMismatch => Err(PiXtendError::PiXtendModelMismatch),
        ErrorCode::HeaderCrcError => Err(PiXtendError::OutputCrcError),
        ErrorCode::SPIFrequencyTooHigh => Err(PiXtendError::SPIFrequencyTooHigh),
    }
}

/// The board and what is known of it: the frame that is sent to it next, the
/// frame that it answered with last, and the configuration of its GPIOs, PWM
/// groups and analog outputs.
///
/// Nothing here touches the bus. The setters change the frame that is sent
/// next, after they have tested the change against the rules of the board; the
/// getters read the frame that was received last. One communication cycle is
/// made of `begin_read_write`, which hands out the bytes to send, the exchange
/// on the bus, which is the caller's, and `finish_read_write`, which takes the
/// bytes that came back.
pub struct PiXtend {
    input: Option<Input>,
    output: Output,
    gpio_configs: [GpioConfig; 4],
    pwm_configs: [PwmConfig; 3],
    dac_configs: [Dac; 2],
}

impl View for PiXtend {
    type V = PiXtendView;

    closed spec fn view(&self) -> PiXtendView {
        PiXtendView {
            input: self.input,
            output: self.output,
            gpio_configs: self.gpio_configs@,
            pwm_configs: self.pwm_configs@,
            dac_configs: self.dac_configs@,
        }
    }
}

impl PiXtend {
    #[verifier::type_invariant]
    closed spec fn inv(self) -> bool {
        self@.wf()
    }

    /// A board that has not been talked to: the output frame is idle, no input
    /// frame is there, all GPIOs are inputs without pull-up, all PWM groups are
    /// deactivated, and both analog outputs are switched on at 0 V.
    pub fn new() -> (pixtend: PiXtend)
        ensures
            pixtend@.wf(),
            pixtend@.input is None,
            pixtend@.output.idle(),
            pixtend@.gpio_configs == Seq::new(4, |i: int| GpioConfig::Input(false)),
            pixtend@.pwm_configs == Seq::new(3, |i: int| PwmConfig::Deactivated),
            pixtend@.dac_configs == seq![
                Dac { channel: 0, enabled: true, value: 0 },
                Dac { channel: 1, enabled: true, value: 0 },
            ],
    {
        let gpio_configs: [GpioConfig; 4] = [GpioConfig::Input(false);4];
        let pwm_configs: [PwmConfig; 3] = [PwmConfig::Deactivated;3];
        let dac_configs: [Dac; 2] = [Dac::new(Channel::A, 0), Dac::new(Channel::B, 0)];
        let output: Output = Output::default();
        proof {
            assert(gpio_configs@ =~= Seq::new(4, |i: int| GpioConfig::Input(false)));
            assert(pwm_configs@ =~= Seq::new(3, |i: int| PwmConfig::Deactivated));
            assert(dac_configs@ =~= seq![
                Dac { channel: 0, enabled: true, value: 0 },
                Dac { channel: 1, enabled: true, value: 0 },
            ]);
        }
        PiXtend { input: None, output, gpio_configs, pwm_configs, dac_configs }
    }

    /// Where the communication stands.
    pub fn state(&self) -> (state: SessionState)
        ensures
            state == self@.state(),
    {
        match &self.input {
            None => SessionState::Idle,
            Some(input) => if input.header.state.run {
                SessionState::Ready
            } else {
                SessionState::Faulted
            },
        }
    }

    /// Sets the watchdog of the board.
    pub fn set_watchdog(&mut self, watchdog: Watchdog)
        ensures
            final(self)@ == old(self)@.with_header(Header { watchdog, ..old(self)@.output.header }),
            final(self)@.wf(),
    {
        proof {
            use_type_invariant(&*self);
        }
        self.output.header.watchdog = watchdog;
    }

    /// Chooses what the board answers with in the retain part of its frame: the
    /// data it has stored, or, with `true`, the data it was last sent.
    pub fn set_retain_copy(&mut self, value: bool)
        ensures
            final(self)@ == old(self)@.with_system(
                System { retain_copy: value, ..old(self)@.output.header.system },
            ),
            final(self)@.wf(),
    {
        proof {
            use_type_invariant(&*self);
        }
        self.output.header.system.retain_copy = value;
    }

    /// Switches retain memory on or off. While it is off, no retain data is
    /// accepted.
    pub fn set_retain_enable(&mut self, value: bool)
        ensures
            final(self)@ == old(self)@.with_system(
                System { retain_enable: value, ..old(self)@.output.header.system },
            ),
            final(self)@.wf(),
    {
        proof {
            use_type_invariant(&*self);
        }
        self.output.header.system.retain_enable = value;
    }

    /// Switches the status LED off, or on again.
    pub fn set_led_disable(&mut self, value: bool)
        ensures
            final(self)@ == old(self)@.with_system(
                System { led_disable: value, ..old(self)@.output.header.system },
            ),
            final(self)@.wf(),
    {
        proof {
            use_type_invariant(&*self);
        }
        self.output.header.system.led_disable = value;
    }

    /// Allows or forbids pull-ups on the GPIOs. A GPIO gets one only if it is
    /// then configured as an input with pull-up.
    pub fn set_gpio_pullup_enable(&mut self, value: bool)
        ensures
            final(self)@ == old(self)@.with_system(
                System { gpio_pullup_enable: value, ..old(self)@.output.header.system },
            ),
            final(self)@.wf(),
    {
        proof {
            use_type_invariant(&*self);
        }
        self.output.header.system.gpio_pullup_enable = value;
    }

    /// Asks the board to put itself into the safe state: outputs and relays off,
    /// PWM outputs at high impedance, retain data stored. Only a restart of the
    /// board ends it.
    pub fn enable_safe_mode(&mut self)
        ensures
            final(self)@ == old(self)@.with_system(
                System { safe: true, ..old(self)@.output.header.system },
            ),
            final(self)@.wf(),
    {
        proof {
            use_type_invariant(&*self);
        }
        self.output.header.system.safe = true;
    }

    /// Sets the debounce time, in communication cycles, of one group of two
    /// digital inputs. Group `i` is made of the inputs `2 i` and `2 i + 1`; the
    /// groups are 0 to 7.
    pub fn set_digital_debounce(&mut self, group: u8, value: u8) -> (result: Result<
        (),
        PiXtendError,
    >)
        ensures
            final(self)@.wf(),
            group <= 7 ==> result is Ok && final(self)@ == old(self)@.with_data(
                output::Data {
                    digital_debounce: old(self)@.output.data.digital_debounce.with_debounce(
                        group as int,
                        value,
                    ),
                    ..old(self)@.output.data
                },
            ),
            group > 7 ==> result == Err::<(), PiXtendError>(
                PiXtendError::InvalidDigitalDebounceGroup(group),
            ) && final(self)@ == old(self)@,
    {
        proof {
            use_type_invariant(&*self);
        }
        let mut part = self.output.data.digital_debounce;
        let result = part.set_digital_debounce(group, value);
        self.output.data.digital_debounce = part;
        result
    }

    /// Switches the digital output with the given index, 0 to 11.
    pub fn set_digital_output(&mut self, index: u8, value: bool) -> (result: Result<
        (),
        PiXtendError,
    >)
        ensures
            final(self)@.wf(),
            index <= 11 ==> result is Ok && final(self)@ == old(self)@.with_data(
                output::Data {
                    digital_out: old(self)@.output.data.digital_out.with_output(
                        index as int,
                        value,
                    ),
                    ..old(self)@.output.data
                },
            ),
            index > 11 ==> result == Err::<(), PiXtendError>(
                PiXtendError::InvalidDigitalOutputIndex(index),
            ) && final(self)@ == old(self)@,
    {
        proof {
            use_type_invariant(&*self);
        }
        let mut part = self.output.data.digital_out;
        let result = part.set_digital_output(index, value);
        self.output.data.digital_out = part;
        result
    }

    /// Switches the relay with the given index, 0 to 3.
    pub fn set_relay_output(&mut self, index: u8, value: bool) -> (result: Result<
        (),
        PiXtendError,
    >)
        ensures
            final(self)@.wf(),
            index <= 3 ==> result is Ok && final(self)@ == old(self)@.with_data(
                output::Data {
                    relay_out: old(self)@.output.data.relay_out.with_relay(index as int, value),
                    ..old(self)@.output.data
                },
            ),
            index > 3 ==> result == Err::<(), PiXtendError>(
                PiXtendError::InvalidRelayOutputIndex(index),
            ) && final(self)@ == old(self)@,
    {
        proof {
            use_type_invariant(&*self);
        }
        let mut part = self.output.data.relay_out;
        let result = part.set_relay_output(index, value);
        self.output.data.relay_out = part;
        result
    }

    /// Sets the debounce time, in communication cycles, of one group of two
    /// GPIO inputs. Group 0 is made of GPIO 0 and 1, group 1 of GPIO 2 and 3.
    pub fn set_gpio_debounce(&mut self, group: u8, value: u8) -> (result: Result<
        (),
        PiXtendError,
    >)
        ensures
            final(self)@.wf(),
            group <= 1 ==> result is Ok && final(self)@ == old(self)@.with_data(
                output::Data {
                    gpio_debounce: old(self)@.output.data.gpio_debounce.with_debounce(
                        group as int,
                        value,
                    ),
                    ..old(self)@.output.data
                },
            ),
            group > 1 ==> result == Err::<(), PiXtendError>(
                PiXtendError::InvalidGpioDebounceGroup(group),
            ) && final(self)@ == old(self)@,
    {
        proof {
            use_type_invariant(&*self);
        }
        let mut part = self.output.data.gpio_debounce;
        let result = part.set_gpio_debounce(group, value);
        self.output.data.gpio_debounce = part;
        result
    }

    /// Replaces the data that the board is to keep in its retain memory. Up to
    /// 64 bytes are accepted, and filled up to 64 bytes with zeros; retain has to
    /// be switched on with `set_retain_enable` before.
    pub fn set_retain_data(&mut self, data: Vec<u8>) -> (result: Result<(), PiXtendError>)
        ensures
            final(self)@.wf(),
            data@.len() > 64 ==> result == Err::<(), PiXtendError>(
                PiXtendError::InvalidRetainDataLength(data@.len() as usize),
            ) && final(self)@ == old(self)@,
            data@.len() <= 64 && !old(self)@.output.header.system.retain_enable ==> result
                == Err::<(), PiXtendError>(PiXtendError::RetainDataNotGloballyEnabled)
                && final(self)@ == old(self)@,
            data@.len() <= 64 && old(self)@.output.header.system.retain_enable ==> result is Ok
                && final(self)@ == old(self)@.with_data(
                output::Data {
                    retain: final(self)@.output.data.retain,
                    ..old(self)@.output.data
                },
            ) && final(self)@.output.data.retain.wire() == output::retain::padded(data@),
    {
        proof {
            use_type_invariant(&*self);
        }
        if data.len() > 64 {
            return Err(PiXtendError::InvalidRetainDataLength(data.len()));
        }
        if !self.output.header.system.retain_enable {
            return Err(PiXtendError::RetainDataNotGloballyEnabled);
        }
        let mut part = self.output.data.retain;
        let result = part.set_retain_data(data);
        self.output.data.retain = part;
        result
    }

    /// Sets an analog output to a voltage, given in microvolts, and switches it
    /// on. Voltages above 10 V are limited to 10 V. The output follows with the
    /// next communication cycle.
    pub fn set_analog_output(&mut self, channel: Channel, microvolts: u32)
        ensures
            final(self)@.wf(),
            final(self)@ == (PiXtendView {
                dac_configs: old(self)@.dac_configs.update(
                    channel.index() as int,
                    Dac {
                        channel: channel.index(),
                        enabled: true,
                        value: output::dac::dac_value(microvolts),
                    },
                ),
                ..old(self)@
            }),
    {
        proof {
            use_type_invariant(&*self);
        }
        let dac: Dac = Dac::new(channel, microvolts);
        let mut dac_configs: [Dac; 2] = self.dac_configs;
        match channel {
            Channel::A => { dac_configs[0] = dac; },
            Channel::B => { dac_configs[1] = dac; },
        }
        self.dac_configs = dac_configs;
    }

    /// Configures the GPIO with the given index, 0 to 3, as an input with or
    /// without pull-up, as an output, or as the input of a one-wire sensor.
    ///
    /// A sensor input is refused while any PWM group is active, and a pull-up
    /// while pull-ups are not enabled with `set_gpio_pullup_enable`.
    pub fn set_gpio_config(&mut self, index: u8, config: GpioConfig) -> (result: Result<
        (),
        PiXtendError,
    >)
        ensures
            final(self)@.wf(),
            result == outcome(old(self)@.gpio_config_error(index, config)),
            result is Err ==> final(self)@ == old(self)@,
            result is Ok ==> final(self)@ == (PiXtendView {
                gpio_configs: old(self)@.gpio_configs.update(index as int, config),
                ..old(self)@.with_data(
                    output::Data {
                        gpio_ctrl: old(self)@.output.data.gpio_ctrl.with_config(
                            index as int,
                            config,
                        ),
                        gpio_out: old(self)@.output.data.gpio_out.with_config(index as int, config),
                        ..old(self)@.output.data
                    },
                )
            }),
    {
        proof {
            use_type_invariant(&*self);
            if index <= 3 {
                self.output.data.gpio_ctrl.lemma_with_config(index as int, config);
            }
        }
        if index > 3 {
            return Err(PiXtendError::InvalidGpioOutputIndex(index));
        }
        if matches!(config, GpioConfig::Sensor) && self.any_pwm_active() {
            return Err(PiXtendError::PwmAndDhtExclusive);
        }
        if matches!(config, GpioConfig::Input(true)) && !self.output.header.system.gpio_pullup_enable {
            return Err(PiXtendError::GpioPullupNotGloballyEnabled);
        }
        let mut output: Output = self.output;
        let mut gpio_ctrl = output.data.gpio_ctrl;
        let mut gpio_out = output.data.gpio_out;
        let mut gpio_configs: [GpioConfig; 4] = self.gpio_configs;
        let ctrl_result = gpio_ctrl.set_gpio_config(index, config);
        let out_result = gpio_out.set_gpio_config(index, config);
        gpio_configs[index as usize] = config;
        output.data.gpio_ctrl = gpio_ctrl;
        output.data.gpio_out = gpio_out;
        *self = PiXtend {
            input: self.input,
            output,
            gpio_configs,
            pwm_configs: self.pwm_configs,
            dac_configs: self.dac_configs,
        };
        Ok(())
    }

    /// Switches the GPIO with the given index, 0 to 3, which has to be
    /// configured as an output.
    pub fn set_gpio_output(&mut self, index: u8, value: bool) -> (result: Result<
        (),
        PiXtendError,
    >)
        ensures
            final(self)@.wf(),
            result == outcome(old(self)@.gpio_output_error(index)),
            result is Err ==> final(self)@ == old(self)@,
            result is Ok ==> final(self)@ == old(self)@.with_data(
                output::Data {
                    gpio_out: old(self)@.output.data.gpio_out.with_output(index as int, value),
                    ..old(self)@.output.data
                },
            ),
    {
        proof {
            use_type_invariant(&*self);
        }
        if index > 3 {
            return Err(PiXtendError::InvalidGpioOutputIndex(index));
        }
        if !matches!(self.gpio_configs[index as usize], GpioConfig::Output) {
            return Err(PiXtendError::GpioNotConfiguredAsOutput(index));
        }
        let mut part = self.output.data.gpio_out;
        let result = part.set_gpio_output(index, value);
        self.output.data.gpio_out = part;
        Ok(())
    }

    /// Configures the PWM group with the given index, 0 to 2. The values of its
    /// two channels start again at zero.
    ///
    /// Every configuration, the deactivated one too, is refused while any GPIO
    /// is a sensor input.
    pub fn set_pwm_config(&mut self, index: u8, config: PwmConfig) -> (result: Result<
        (),
        PiXtendError,
    >)
        ensures
            final(self)@.wf(),
            result == outcome(old(self)@.pwm_config_error(index)),
            result is Err ==> final(self)@ == old(self)@,
            result is Ok ==> final(self)@ == (PiXtendView {
                pwm_configs: old(self)@.pwm_configs.update(index as int, config),
                ..old(self)@.with_data(
                    output::Data {
                        pwm: old(self)@.output.data.pwm.with_group(
                            index as int,
                            PwmGroup::from_spec(config),
                        ),
                        ..old(self)@.output.data
                    },
                )
            }),
    {
        proof {
            use_type_invariant(&*self);
            if index <= 2 {
                self.output.data.pwm.lemma_with_group(index as int, PwmGroup::from_spec(config));
            }
        }
        if index > 2 {
            return Err(PiXtendError::InvalidPwmOutputGroupIndex(index));
        }
        if self.any_sensor_configured() {
            return Err(PiXtendError::PwmAndDhtExclusive);
        }
        let mut output: Output = self.output;
        let mut pwm = output.data.pwm;
        let mut pwm_configs: [PwmConfig; 3] = self.pwm_configs;
        let pwm_result = pwm.set_pwm_config(index, config);
        pwm_configs[index as usize] = config;
        output.data.pwm = pwm;
        *self = PiXtend {
            input: self.input,
            output,
            gpio_configs: self.gpio_configs,
            pwm_configs,
            dac_configs: self.dac_configs,
        };
        Ok(())
    }

    /// Sets the position of the servo on one channel of the PWM group with the
    /// given index, 0 to 2, which has to be in servo mode. The positions 0 to
    /// 16000 stand for pulses of 1 ms to 2 ms.
    pub fn set_pwm_servo(&mut self, index: u8, channel: Channel, value: u16) -> (result: Result<
        (),
        PiXtendError,
    >)
        ensures
            final(self)@.wf(),
            result == outcome(old(self)@.pwm_servo_error(index)),
            result is Err ==> final(self)@ == old(self)@,
            result is Ok ==> final(self)@ == old(self)@.with_channel(index, channel, value),
    {
        proof {
            use_type_invariant(&*self);
        }
        if index > 2 {
            return Err(PiXtendError::InvalidPwmOutputGroupIndex(index));
        }
        if !matches!(self.pwm_configs[index as usize], PwmConfig::Servo { .. }) {
            return Err(PiXtendError::PwmNotConfiguredAsServo(index));
        }
        self.set_channel_value(index, channel, value);
        Ok(())
    }

    /// Sets the duty cycle of one channel of the PWM group with the given index,
    /// 0 to 2: of either channel in duty cycle mode, of channel A in universal
    /// mode. The value counts from 0, for 0 %, to the frequency divisor of the
    /// group, for 100 %.
    pub fn set_pwm_duty_cycle(&mut self, index: u8, channel: Channel, value: u16) -> (result:
        Result<(), PiXtendError>)
        ensures
            final(self)@.wf(),
            result == outcome(old(self)@.pwm_duty_cycle_error(index, channel)),
            result is Err ==> final(self)@ == old(self)@,
            result is Ok ==> final(self)@ == old(self)@.with_channel(index, channel, value),
    {
        proof {
            use_type_invariant(&*self);
        }
        if index > 2 {
            return Err(PiXtendError::InvalidPwmOutputGroupIndex(index));
        }
        let allowed: bool = match (self.pwm_configs[index as usize], channel) {
            (PwmConfig::DutyCycle { .. }, _) => true,
            (PwmConfig::Universal { .. }, Channel::A) => true,
            _ => false,
        };
        if !allowed {
            return Err(PiXtendError::PwmNotConfiguredForDutyCycle(index));
        }
        self.set_channel_value(index, channel, value);
        Ok(())
    }

    /// Sets the frequency of one channel of the PWM group with the given index,
    /// 0 to 2, which has to be in frequency mode. The channel then runs at the
    /// frequency `prescaler / 2 / value`.
    pub fn set_pwm_frequency(&mut self, index: u8, channel: Channel, value: u16) -> (result:
        Result<(), PiXtendError>)
        ensures
            final(self)@.wf(),
            result == outcome(old(self)@.pwm_frequency_error(index)),
            result is Err ==> final(self)@ == old(self)@,
            result is Ok ==> final(self)@ == old(self)@.with_channel(index, channel, value),
    {
        proof {
            use_type_invariant(&*self);
        }
        if index > 2 {
            return Err(PiXtendError::InvalidPwmOutputGroupIndex(index));
        }
        if !matches!(self.pwm_configs[index as usize], PwmConfig::Frequency { .. }) {
            return Err(PiXtendError::PwmNotConfiguredAsFrequency(index));
        }
        self.set_channel_value(index, channel, value);
        Ok(())
    }

    /// The firmware version that the board reported last.
    pub fn get_firmware_version(&self) -> (result: Result<u8, PiXtendError>)
        ensures
            result == match self@.input {
                Some(input) => Ok::<u8, PiXtendError>(input.header.firmware),
                None => Err(PiXtendError::NoInputDataAvailable),
            },
    {
        match &self.input {
            Some(input) => Ok(input.header.firmware),
            None => Err(PiXtendError::NoInputDataAvailable),
        }
    }

    /// The hardware version that the board reported last.
    pub fn get_hardware_version(&self) -> (result: Result<u8, PiXtendError>)
        ensures
            result == match self@.input {
                Some(input) => Ok::<u8, PiXtendError>(input.header.hardware),
                None => Err(PiXtendError::NoInputDataAvailable),
            },
    {
        match &self.input {
            Some(input) => Ok(input.header.hardware),
            None => Err(PiXtendError::NoInputDataAvailable),
        }
    }

    /// The warnings that the board reported last: an error on its I2C bus, a
    /// supply voltage too low for retain memory, a wrong checksum of the retain
    /// memory.
    pub fn get_warnings(&self) -> (result: Result<Warnings, PiXtendError>)
        ensures
            result == match self@.input {
                Some(input) => Ok::<Warnings, PiXtendError>(input.header.warnings),
                None => Err(PiXtendError::NoInputDataAvailable),
            },
    {
        match &self.input {
            Some(input) => Ok(input.header.warnings),
            None => Err(PiXtendError::NoInputDataAvailable),
        }
    }

    /// The state of the digital input with the given index, 0 to 15, as the
    /// board reported it last.
    pub fn get_digital_input(&self, index: u8) -> (result: Result<bool, PiXtendError>)
        ensures
            result == match self@.input {
                None => Err::<bool, PiXtendError>(PiXtendError::NoInputDataAvailable),
                Some(input) => if index <= 15 {
                    Ok(input.data.digital_in.input(index as int))
                } else {
                    Err(PiXtendError::InvalidDigitalInputIndex(index))
                },
            },
    {
        match &self.input {
            None => Err(PiXtendError::NoInputDataAvailable),
            Some(input) => input.data.digital_in.get_digital_input(index),
        }
    }

    /// The voltage in volts at the analog input with the given index, 0 to 3, as
    /// the board reported it last. The range of the input is set by a jumper on
    /// the board, and has to be given here.
    pub fn get_analog_voltage_input(&self, index: u8, reference_voltage: ReferenceVoltage) -> (result:
        Result<Ratio, PiXtendError>)
        ensures
            result == match self@.input {
                None => Err::<Ratio, PiXtendError>(PiXtendError::NoInputDataAvailable),
                Some(input) => if index <= 3 {
                    Ok(
                        input::analog_in::voltage(
                            input.data.analog_in.raw(index as int),
                            reference_voltage,
                        ),
                    )
                } else {
                    Err(PiXtendError::InvalidAnalogVoltageInputIndex(index))
                },
            },
    {
        match &self.input {
            None => Err(PiXtendError::NoInputDataAvailable),
            Some(input) => input.data.analog_in.get_analog_voltage_input(index, reference_voltage),
        }
    }

    /// The current in amperes at the analog input with the given index, 4 or 5,
    /// as the board reported it last.
    pub fn get_analog_current_input(&self, index: u8) -> (result: Result<Ratio, PiXtendError>)
        ensures
            result == match self@.input {
                None => Err::<Ratio, PiXtendError>(PiXtendError::NoInputDataAvailable),
                Some(input) => if index == 4 || index == 5 {
                    Ok(input::analog_in::current(input.data.analog_in.raw(index as int)))
                } else {
                    Err(PiXtendError::InvalidAnalogCurrentInputIndex(index))
                },
            },
    {
        match &self.input {
            None => Err(PiXtendError::NoInputDataAvailable),
            Some(input) => input.data.analog_in.get_analog_current_input(index),
        }
    }

    /// The state of the GPIO with the given index, 0 to 3, as the board reported
    /// it last. The GPIO has to be configured as an input.
    pub fn get_gpio_input(&self, index: u8) -> (result: Result<bool, PiXtendError>)
        ensures
            result == if !(index <= 3 && self@.gpio_configs[index as int] is Input) {
                Err::<bool, PiXtendError>(PiXtendError::GpioNotConfiguredAsInput(index))
            } else {
                match self@.input {
                    None => Err(PiXtendError::NoInputDataAvailable),
                    Some(input) => Ok(input.data.gpio_in.input(index as int)),
                }
            },
    {
        if index > 3 || !matches!(self.gpio_configs[index as usize], GpioConfig::Input(_)) {
            return Err(PiXtendError::GpioNotConfiguredAsInput(index));
        }
        match &self.input {
            None => Err(PiXtendError::NoInputDataAvailable),
            Some(input) => input.data.gpio_in.get_gpio_input(index),
        }
    }

    /// The temperature in degrees Celsius that the sensor on the GPIO with the
    /// given index, 0 to 3, measured, as the board reported it last. The GPIO
    /// has to be configured as a sensor input.
    pub fn get_gpio_temperature(&self, index: u8, sensor: SensorKind) -> (result: Result<
        Ratio,
        PiXtendError,
    >)
        ensures
            result == if !(index <= 3 && self@.gpio_configs[index as int] == GpioConfig::Sensor) {
                Err::<Ratio, PiXtendError>(PiXtendError::GpioNotConfiguredAsInput(index))
            } else {
                match self@.input {
                    None => Err(PiXtendError::NoInputDataAvailable),
                    Some(input) => Ok(
                        input::sensor_in::temperature(
                            input.data.sensor_in.sensor(index as int).temperature,
                            sensor,
                        ),
                    ),
                }
            },
    {
        if index > 3 || !matches!(self.gpio_configs[index as usize], GpioConfig::Sensor) {
            return Err(PiXtendError::GpioNotConfiguredAsInput(index));
        }
        match &self.input {
            None => Err(PiXtendError::NoInputDataAvailable),
            Some(input) => input.data.sensor_in.get_temperature_input(index, sensor),
        }
    }

    /// The relative humidity, from 0 to 1, that the sensor on the GPIO with the
    /// given index, 0 to 3, measured, as the board reported it last. The GPIO
    /// has to be configured as a sensor input.
    pub fn get_gpio_humidity(&self, index: u8, sensor: SensorKind) -> (result: Result<
        Ratio,
        PiXtendError,
    >)
        ensures
            result == if !(index <= 3 && self@.gpio_configs[index as int] == GpioConfig::Sensor) {
                Err::<Ratio, PiXtendError>(PiXtendError::GpioNotConfiguredAsInput(index))
            } else {
                match self@.input {
                    None => Err(PiXtendError::NoInputDataAvailable),
                    Some(input) => Ok(
                        input::sensor_in::humidity(
                            input.data.sensor_in.sensor(index as int).humidity,
                            sensor,
                        ),
                    ),
                }
            },
    {
        if index > 3 || !matches!(self.gpio_configs[index as usize], GpioConfig::Sensor) {
            return Err(PiXtendError::GpioNotConfiguredAsInput(index));
        }
        match &self.input {
            None => Err(PiXtendError::NoInputDataAvailable),
            Some(input) => input.data.sensor_in.get_humidity_input(index, sensor),
        }
    }

    /// The 64 bytes of retain data that the board reported last: what it has
    /// stored or, after `set_retain_copy(true)`, what it was last sent.
    pub fn get_retain_data(&self) -> (result: Result<Vec<u8>, PiXtendError>)
        ensures
            match result {
                Ok(data) => self@.input matches Some(input) && data@ == input.data.retain@,
                Err(error) => self@.input is None && error == PiXtendError::NoInputDataAvailable,
            },
    {
        match &self.input {
            None => Err(PiXtendError::NoInputDataAvailable),
            Some(input) => {
                let mut data: Vec<u8> = Vec::new();
                block::push_block(&mut data, &input.data.retain);
                assert(data@ =~= input.data.retain@);
                Ok(data)
            },
        }
    }

    /// Starts a communication cycle, `elapsed` microseconds after the last
    /// exchange on the bus ended (or after the board was switched on).
    ///
    /// Hands out how long to wait and the frame to send, with the checksums of
    /// what the frame holds now. Of a board that has reported that it has
    /// stopped, nothing is handed out: there is nothing to send before the board
    /// is restarted and `reset` is called.
    pub fn begin_read_write(&self, elapsed: u64) -> (result: Result<Exchange, PiXtendError>)
        ensures
            match result {
                Ok(exchange) => self@.begun(elapsed) == Ok::<(u64, Seq<u8>), PiXtendError>(
                    (exchange.delay, exchange.frame@),
                ) && exchange.frame@.len() == FRAME_LENGTH,
                Err(error) => self@.begun(elapsed) == Err::<(u64, Seq<u8>), PiXtendError>(error),
            },
    {
        if let Some(input) = &self.input {
            if !input.header.state.run {
                return Err(PiXtendError::NotReadyForCommunication);
            }
        }
        let delay: u64 = if elapsed < COMMUNICATION_DELAY {
            COMMUNICATION_DELAY - elapsed
        } else {
            0
        };
        Ok(Exchange { delay, frame: self.output.to_bytes() })
    }

    /// Ends a communication cycle with the bytes that the board answered.
    ///
    /// The response is accepted if it has the length of a frame, can be read as
    /// one, has two right checksums, comes from a PiXtend L, and reports no
    /// fault in the frame that was sent. It then becomes the frame that the
    /// getters read, and the two frames for the analog outputs are handed out,
    /// to be written one after the other. Any other response fails the cycle and
    /// changes nothing.
    pub fn finish_read_write(&mut self, response: &[u8]) -> (result: Result<
        (Vec<u8>, Vec<u8>),
        PiXtendError,
    >)
        ensures
            final(self)@.wf(),
            final(self)@ == old(self)@.finished(response@).0,
            match result {
                Ok(frames) => old(self)@.finished(response@).1 == Ok::<
                    (Seq<u8>, Seq<u8>),
                    PiXtendError,
                >((frames.0@, frames.1@)) && frames.0@.len() == 2 && frames.1@.len() == 2,
                Err(error) => old(self)@.finished(response@).1 == Err::<
                    (Seq<u8>, Seq<u8>),
                    PiXtendError,
                >(error),
            },
    {
        proof {
            use_type_invariant(&*self);
        }
        if let Some(input) = &self.input {
            if !input.header.state.run {
                return Err(PiXtendError::NotReadyForCommunication);
            }
        }
        let input: Input = match accept(response) {
            Ok(input) => input,
            Err(error) => { return Err(error); },
        };
        self.input = Some(input);
        Ok((self.dac_configs[0].to_bytes(), self.dac_configs[1].to_bytes()))
    }

    /// Forgets everything: the output frame is idle again, no input frame is
    /// there, all GPIOs are inputs without pull-up, all PWM groups are
    /// deactivated, and both analog outputs are switched off.
    pub fn reset(&mut self)
        ensures
            final(self)@.wf(),
            final(self)@.cleared(),
    {
        let gpio_configs: [GpioConfig; 4] = [GpioConfig::Input(false);4];
        let pwm_configs: [PwmConfig; 3] = [PwmConfig::Deactivated;3];
        let dac_configs: [Dac; 2] = [Dac::default();2];
        let output: Output = Output::default();
        proof {
            assert(gpio_configs@ =~= Seq::new(4, |i: int| GpioConfig::Input(false)));
            assert(pwm_configs@ =~= Seq::new(3, |i: int| PwmConfig::Deactivated));
            assert(dac_configs@ =~= Seq::new(
                2,
                |i: int| Dac { channel: 0, enabled: false, value: 0 },
            ));
        }
        *self = PiXtend { input: None, output, gpio_configs, pwm_configs, dac_configs };
    }

    /// Writes the value of one channel of a PWM group into the output frame.
    fn set_channel_value(&mut self, index: u8, channel: Channel, value: u16)
        requires
            index <= 2,
        ensures
            final(self)@.wf(),
            final(self)@ == old(self)@.with_channel(index, channel, value),
    {
        proof {
            use_type_invariant(&*self);
            self.output.data.pwm.lemma_with_group(
                index as int,
                self.output.data.pwm.group(index as int).with_channel(channel, value),
            );
        }
        let mut part = self.output.data.pwm;
        let result = part.set_channel_value(index, channel, value);
        self.output.data.pwm = part;
    }

    /// Whether any PWM group is active.
    fn any_pwm_active(&self) -> (active: bool)
        ensures
            active == self@.pwm_active(),
    {
        proof {
            use_type_invariant(self);
        }
        !matches!(self.pwm_configs[0], PwmConfig::Deactivated) || !matches!(
            self.pwm_configs[1],
            PwmConfig::Deactivated
        ) || !matches!(self.pwm_configs[2], PwmConfig::Deactivated)
    }

    /// Whether any GPIO is a sensor input.
    fn any_sensor_configured(&self) -> (configured: bool)
        ensures
            configured == self@.sensor_configured(),
    {
        proof {
            use_type_invariant(self);
        }
        matches!(self.gpio_configs[0], GpioConfig::Sensor) || matches!(
            self.gpio_configs[1],
            GpioConfig::Sensor
        ) || matches!(self.gpio_configs[2], GpioConfig::Sensor) || matches!(
            self.gpio_configs[3],
            GpioConfig::Sensor
        )
    }
}

} // verus!
