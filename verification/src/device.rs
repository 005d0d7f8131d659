//! The device as the rest of a program sees it: the phase of the
//! connection, the latest telemetry, the values last commanded, and the
//! errors of the link.

use crate::command::AnkerCommand;
use crate::telemetry::{
    telemetry_error_text, DecodeFailure, StateAck, Telemetry, TelemetryError, TelemetryView,
};
use crate::text::hex_digits;
use vstd::prelude::*;

verus! {

/// The substring by which the power station is known among the
/// advertising devices.
pub open spec fn device_name() -> Seq<char> {
    "767_PowerHouse"@
}

/// The characteristic to which commands are written.
pub const WRITE_UUID: u128 = 0x00007777_0000_1000_8000_00805f9b34fb;

/// The characteristic on which the device notifies.
pub const NOTIFY_UUID: u128 = 0x00008888_0000_1000_8000_00805f9b34fb;

/// Milliseconds to wait after a connection has ended or failed, before
/// the next attempt.
pub const RECONNECT_DELAY_MS: u64 = 5000;

/// Milliseconds after which a scan that has not found the device is given
/// up.
pub const SCAN_TIMEOUT_MS: u64 = 30000;

/// Milliseconds between two looks at the peripherals that the adapter has
/// seen.
pub const SCAN_POLL_MS: u64 = 500;

/// Milliseconds after which a write that has not completed is given up.
pub const WRITE_TIMEOUT_MS: u64 = 5000;

/// Number of telemetry snapshots that a slow subscriber may fall behind
/// before it loses the oldest.
pub const TELEMETRY_BACKLOG: usize = 16;

/// The phase of the connection.
#[derive(Debug, Clone, Copy, PartialEq, Eq, Structural)]
pub enum ConnectionState {
    Disconnected,
    Scanning,
    Connecting,
    Connected,
}

/// The lower-case name of each phase.
pub open spec fn connection_state_name(state: ConnectionState) -> Seq<char> {
    match state {
        ConnectionState::Disconnected => "disconnected"@,
        ConnectionState::Scanning => "scanning"@,
        ConnectionState::Connecting => "connecting"@,
        ConnectionState::Connected => "connected"@,
    }
}

impl ConnectionState {
    /// The lower-case name of the phase.
    pub fn as_str(&self) -> (name: &'static str)
        ensures
            name@ == connection_state_name(*self),
    {
        match self {
            ConnectionState::Disconnected => "disconnected",
            ConnectionState::Scanning => "scanning",
            ConnectionState::Connecting => "connecting",
            ConnectionState::Connected => "connected",
        }
    }

    /// Whether the phase is `Connected`.
    pub fn is_connected(&self) -> (yes: bool)
        ensures
            yes == (*self == ConnectionState::Connected),
    {
        match self {
            ConnectionState::Connected => true,
            _ => false,
        }
    }
}

/// The values last commanded, one for each thing that can be set. A
/// value is absent until a command for it has been sent.
#[derive(Debug, Clone, Copy, PartialEq, Eq)]
pub struct SetState {
    pub ac_output: Option<bool>,
    pub twelve_volt_output: Option<bool>,
    pub power_save: Option<bool>,
    pub led_level: Option<u8>,
    pub screen_brightness: Option<u8>,
    pub recharge_power: Option<u16>,
    pub screen_timeout: Option<u16>,
    pub ac_timer: Option<u16>,
    pub twelve_volt_timer: Option<u16>,
}

impl SetState {
    /// The state in which nothing has been commanded yet.
    pub open spec fn empty() -> SetState {
        SetState {
            ac_output: None,
            twelve_volt_output: None,
            power_save: None,
            led_level: None,
            screen_brightness: None,
            recharge_power: None,
            screen_timeout: None,
            ac_timer: None,
            twelve_volt_timer: None,
        }
    }

    /// The state after `command` has been sent: the value that the command
    /// sets takes the place of the one before, and every other stays.
    pub open spec fn recorded(self, command: AnkerCommand) -> SetState {
        match command {
            AnkerCommand::PowerSave(c) => SetState { power_save: Some(c.is_on), ..self },
            AnkerCommand::AcOutput(c) => SetState { ac_output: Some(c.is_on), ..self },
            AnkerCommand::TwelveVoltOutput(c) => SetState {
                twelve_volt_output: Some(c.is_on),
                ..self
            },
            AnkerCommand::ScreenBrightness(c) => SetState {
                screen_brightness: Some(c.spec_brightness()),
                ..self
            },
            AnkerCommand::Led(c) => SetState { led_level: Some(c.spec_level()), ..self },
            AnkerCommand::RechargePower(c) => SetState {
                recharge_power: Some(c.spec_watts()),
                ..self
            },
            AnkerCommand::ScreenTimeout(c) => SetState { screen_timeout: Some(c.seconds), ..self },
            AnkerCommand::AcTimer(c) => SetState { ac_timer: Some(c.seconds), ..self },
            AnkerCommand::TwelveVoltTimer(c) => SetState {
                twelve_volt_timer: Some(c.seconds),
                ..self
            },
        }
    }

    /// Notes the value that `command` sets, once the command has been sent.
    pub fn record(&mut self, command: &AnkerCommand)
        ensures
            *final(self) == old(self).recorded(*command),
    {
        match command {
            AnkerCommand::PowerSave(c) => {
                self.power_save = Some(c.is_on);
            },
            AnkerCommand::AcOutput(c) => {
                self.ac_output = Some(c.is_on);
            },
            AnkerCommand::TwelveVoltOutput(c) => {
                self.twelve_volt_output = Some(c.is_on);
            },
            AnkerCommand::ScreenBrightness(c) => {
                self.screen_brightness = Some(c.brightness());
            },
            AnkerCommand::Led(c) => {
                self.led_level = Some(c.level());
            },
            AnkerCommand::RechargePower(c) => {
                self.recharge_power = Some(c.watts());
            },
            AnkerCommand::ScreenTimeout(c) => {
                self.screen_timeout = Some(c.seconds);
            },
            AnkerCommand::AcTimer(c) => {
                self.ac_timer = Some(c.seconds);
            },
            AnkerCommand::TwelveVoltTimer(c) => {
                self.twelve_volt_timer = Some(c.seconds);
            },
        }
    }
}

impl Default for SetState {
    fn default() -> (state: Self)
        ensures
            state == SetState::empty(),
    {
        SetState {
            ac_output: None,
            twelve_volt_output: None,
            power_save: None,
            led_level: None,
            screen_brightness: None,
            recharge_power: None,
            screen_timeout: None,
            ac_timer: None,
            twelve_volt_timer: None,
        }
    }
}

/// What is known of the device: the phase of the connection, the latest
/// telemetry and state acknowledgement, and the values last commanded.
#[derive(Debug, Clone, PartialEq, Eq)]
pub struct DeviceState {
    pub connection_state: ConnectionState,
    pub last_telemetry: Option<Telemetry>,
    pub last_state_ack: Option<StateAck>,
    pub set_state: SetState,
}

/// The device state as a mathematical value.
pub struct DeviceStateView {
    pub connection_state: ConnectionState,
    pub last_telemetry: Option<TelemetryView>,
    pub last_state_ack: Option<StateAck>,
    pub set_state: SetState,
}

impl View for DeviceState {
    type V = DeviceStateView;

    open spec fn view(&self) -> DeviceStateView {
        DeviceStateView {
            connection_state: self.connection_state,
            last_telemetry: match self.last_telemetry {
                Some(t) => Some(t@),
                None => None,
            },
            last_state_ack: self.last_state_ack,
            set_state: self.set_state,
        }
    }
}

impl DeviceStateView {
    /// The state before anything has been heard of the device.
    pub open spec fn initial() -> DeviceStateView {
        DeviceStateView {
            connection_state: ConnectionState::Disconnected,
            last_telemetry: None,
            last_state_ack: None,
            set_state: SetState::empty(),
        }
    }
}

impl Default for DeviceState {
    fn default() -> (state: Self)
        ensures
            state@ == DeviceStateView::initial(),
    {
        DeviceState {
            connection_state: ConnectionState::Disconnected,
            last_telemetry: None,
            last_state_ack: None,
            set_state: SetState::default(),
        }
    }
}

/// Why the link failed, as a mathematical value.
pub enum DeviceFailure {
    Ble(Seq<char>),
    NotFound,
    CharacteristicNotFound(u128),
    NotConnected,
    Telemetry(DecodeFailure),
    WriteTimeout,
}

/// Why the link failed, or why a command was not sent.
#[derive(Debug, PartialEq, Eq)]
pub enum DeviceError {
    /// The radio transport reported an error; this is its text.
    Ble(String),
    /// No adapter, or no device of the expected name within the scan
    /// timeout.
    NotFound,
    /// The device lacks the characteristic with this identifier.
    CharacteristicNotFound(u128),
    /// No link is up.
    NotConnected,
    /// A notification could not be decoded.
    Telemetry(TelemetryError),
    /// A write did not complete within the write timeout.
    WriteTimeout,
}

/// The text of a 128-bit identifier: its 32 hexadecimal digits in groups
/// of 8, 4, 4, 4 and 12, with hyphens between the groups.
pub open spec fn uuid_text(value: u128) -> Seq<char> {
    let digits = hex_digits(value as nat, 32);
    digits.subrange(0, 8) + seq!['-'] + digits.subrange(8, 12) + seq!['-'] + digits.subrange(
        12,
        16,
    ) + seq!['-'] + digits.subrange(16, 20) + seq!['-'] + digits.subrange(20, 32)
}

/// `uuid::Uuid::from_u128`, then the `Display` of the `Uuid`: the
/// identifier in lower-case hexadecimal, hyphenated.
#[verifier::external_body]
fn uuid_string(value: u128) -> (text: String)
    ensures
        text@ == uuid_text(value),
{
    uuid::Uuid::from_u128(value).to_string()
}

/// The text of a failure of the link. For a serial number that is not
/// valid UTF-8 these are the opening words only.
pub open spec fn device_error_text(kind: DeviceFailure) -> Seq<char> {
    match kind {
        DeviceFailure::Ble(text) => "BLE error: "@ + text,
        DeviceFailure::NotFound => "Device not found"@,
        DeviceFailure::CharacteristicNotFound(id) => "Characteristic not found: "@ + uuid_text(id),
        DeviceFailure::NotConnected => "Not connected"@,
        DeviceFailure::Telemetry(failure) => "Telemetry error: "@ + telemetry_error_text(failure),
        DeviceFailure::WriteTimeout => "Write timeout"@,
    }
}

impl DeviceError {
    /// The error as a mathematical value.
    pub open spec fn spec_kind(&self) -> DeviceFailure {
        match self {
            DeviceError::Ble(text) => DeviceFailure::Ble(text@),
            DeviceError::NotFound => DeviceFailure::NotFound,
            DeviceError::CharacteristicNotFound(id) => DeviceFailure::CharacteristicNotFound(*id),
            DeviceError::NotConnected => DeviceFailure::NotConnected,
            DeviceError::Telemetry(e) => DeviceFailure::Telemetry(e.spec_kind()),
            DeviceError::WriteTimeout => DeviceFailure::WriteTimeout,
        }
    }

    /// The text of the error is fixed by its kind: it is every error but
    /// that of a serial number that is not valid UTF-8.
    pub open spec fn has_fixed_text(&self) -> bool {
        !(self.spec_kind() == DeviceFailure::Telemetry(DecodeFailure::InvalidSerial))
    }

    /// The message of the error. For a serial number that is not valid
    /// UTF-8 the message opens with the fixed words and goes on with the
    /// text of the UTF-8 error, of which nothing is stated.
    pub fn message(&self) -> (text: String)
        ensures
            self.has_fixed_text() ==> text@ == device_error_text(self.spec_kind()),
            !self.has_fixed_text() ==> text@.len() >= device_error_text(self.spec_kind()).len()
                && text@.subrange(0, device_error_text(self.spec_kind()).len() as int)
                == device_error_text(self.spec_kind()),
    {
        match self {
            DeviceError::Ble(reason) => String::from_str("BLE error: ").concat(reason.as_str()),
            DeviceError::NotFound => String::from_str("Device not found"),
            DeviceError::CharacteristicNotFound(id) => {
                let shown = uuid_string(*id);
                String::from_str("Characteristic not found: ").concat(shown.as_str())
            },
            DeviceError::NotConnected => String::from_str("Not connected"),
            DeviceError::Telemetry(e) => {
                let inner = e.message();
                let text = String::from_str("Telemetry error: ").concat(inner.as_str());
                proof {
                    let want = device_error_text(self.spec_kind());
                    let head = "Telemetry error: "@;
                    let fixed = telemetry_error_text(e.spec_kind());
                    if e is InvalidSerial {
                        assert(inner@.subrange(0, fixed.len() as int) == fixed);
                        assert(text@.subrange(0, want.len() as int) =~= head + inner@.subrange(
                            0,
                            fixed.len() as int,
                        ));
                    }
                }
                text
            },
            DeviceError::WriteTimeout => String::from_str("Write timeout"),
        }
    }
}

impl From<TelemetryError> for DeviceError {
    fn from(error: TelemetryError) -> (e: Self) {
        DeviceError::Telemetry(error)
    }
}

impl vstd::std_specs::convert::FromSpecImpl<TelemetryError> for DeviceError {
    open spec fn obeys_from_spec() -> bool {
        true
    }

    open spec fn from_spec(error: TelemetryError) -> Self {
        DeviceError::Telemetry(error)
    }
}

} // verus!
