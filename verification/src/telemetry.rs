//! Notifications from the power station: telemetry snapshots, state
//! acknowledgements and command acknowledgements.
//!
//! Every field of a notification sits at a fixed byte offset. What a buffer
//! decodes to is given by the spec functions `decode_header`,
//! `decode_telemetry`, `decode_state_ack` and `decode_notification`; the
//! executable parsers return exactly that.

use crate::command::{command_type_of, CommandType};
use crate::text::{decimal_digits, decimal_string, hex_byte_digits, hex_byte_string};
use std::string::FromUtf8Error;
use vstd::prelude::*;
use vstd::slice::{slice_subrange, slice_to_vec};
use vstd::utf8::{decode_utf8, valid_utf8};

verus! {

/// The least number of bytes from which a header can be read.
pub const HEADER_LENGTH: usize = 10;

/// The least number of bytes of a state acknowledgement.
pub const STATE_ACK_LENGTH: usize = 13;

/// The least number of bytes of a telemetry snapshot.
pub const TELEMETRY_LENGTH: usize = 102;

/// Offset of the packet type.
pub const PACKET_TYPE_OFFSET: usize = 5;

/// Offset of the byte that tells telemetry from a state acknowledgement, or
/// names the acknowledged command.
pub const SUBTYPE_OFFSET: usize = 6;

/// Offset of the declared payload length, two bytes.
pub const PACKET_LENGTH_OFFSET: usize = 7;

/// Offset of the first byte of the serial number.
pub const SERIAL_START: usize = 85;

/// Offset just past the last byte of the serial number.
pub const SERIAL_END: usize = 101;

/// What the battery is doing.
#[derive(Debug, Clone, Copy, PartialEq, Eq, Structural)]
pub enum BatteryState {
    Idle,
    Discharging,
    Charging,
}

/// The level of the LED strip.
#[derive(Debug, Clone, Copy, PartialEq, Eq, Structural)]
pub enum LedState {
    Off,
    Low,
    Mid,
    High,
    Sos,
}

/// The class of a notification.
#[derive(Debug, Clone, Copy, PartialEq, Eq, Structural)]
pub enum PacketType {
    Telemetry,
    CommandAck,
}

/// The two notifications of the telemetry class.
#[derive(Debug, Clone, Copy, PartialEq, Eq, Structural)]
pub enum TelemetryType {
    StateAck,
    Telemetry,
}

/// Which expectation a buffer failed to meet.
#[derive(Debug, Clone, Copy, PartialEq, Eq, Structural)]
pub enum DecodeFailure {
    /// The buffer has fewer bytes than the notification needs.
    TooShort { expected: usize, actual: usize },
    /// The packet type byte is neither telemetry nor command acknowledgement.
    UnknownPacketType(u8),
    /// The sub-type byte is no known telemetry type, or no known opcode.
    UnknownTelemetryType(u8),
    /// The battery state byte is outside its range.
    UnknownBatteryState(u8),
    /// The LED level byte is outside its range.
    UnknownLedState(u8),
    /// The serial number is not valid UTF-8.
    InvalidSerial,
}

/// Why a buffer could not be decoded.
#[derive(Debug, PartialEq, Eq)]
pub enum TelemetryError {
    DataTooShort { expected: usize, actual: usize },
    UnknownPacketType(u8),
    UnknownTelemetryType(u8),
    UnknownBatteryState(u8),
    UnknownLedState(u8),
    InvalidSerial(FromUtf8Error),
}

/// The error that `String::from_utf8` returns for bytes that are not valid
/// UTF-8. Nothing is known of what it holds.
#[verifier::external_type_specification]
#[verifier::external_body]
pub struct ExFromUtf8Error(FromUtf8Error);

/// `String::from_utf8`: succeeds exactly on bytes that are valid UTF-8, and
/// the string then holds the characters that the bytes encode.
#[verifier::external_body]
fn string_from_utf8(bytes: Vec<u8>) -> (r: Result<String, FromUtf8Error>)
    ensures
        r is Ok <==> valid_utf8(bytes@),
        r is Ok ==> r->Ok_0@ == decode_utf8(bytes@),
{
    String::from_utf8(bytes)
}

/// `Display` of `FromUtf8Error`, through `format!`: the text of the error.
/// Nothing is stated of the text.
#[verifier::external_body]
fn utf8_error_text(error: &FromUtf8Error) -> (text: String) {
    format!("{}", error)
}

/// The battery state that a byte stands for, if any.
pub open spec fn battery_state_of(byte: u8) -> Option<BatteryState> {
    if byte == 0 {
        Some(BatteryState::Idle)
    } else if byte == 1 {
        Some(BatteryState::Discharging)
    } else if byte == 2 {
        Some(BatteryState::Charging)
    } else {
        None
    }
}

/// The LED level that a byte stands for, if any.
pub open spec fn led_state_of(byte: u8) -> Option<LedState> {
    if byte == 0 {
        Some(LedState::Off)
    } else if byte == 1 {
        Some(LedState::Low)
    } else if byte == 2 {
        Some(LedState::Mid)
    } else if byte == 3 {
        Some(LedState::High)
    } else if byte == 4 {
        Some(LedState::Sos)
    } else {
        None
    }
}

/// The packet type that a byte stands for, if any.
pub open spec fn packet_type_of(byte: u8) -> Option<PacketType> {
    if byte == 1 {
        Some(PacketType::Telemetry)
    } else if byte == 2 {
        Some(PacketType::CommandAck)
    } else {
        None
    }
}

/// The telemetry type that a byte stands for, if any.
pub open spec fn telemetry_type_of(byte: u8) -> Option<TelemetryType> {
    if byte == 0x48 {
        Some(TelemetryType::StateAck)
    } else if byte == 0x49 {
        Some(TelemetryType::Telemetry)
    } else {
        None
    }
}

impl BatteryState {
    /// The byte that stands for the state on the wire.
    pub open spec fn spec_code(&self) -> u8 {
        match self {
            BatteryState::Idle => 0,
            BatteryState::Discharging => 1,
            BatteryState::Charging => 2,
        }
    }

    /// The byte that stands for the state on the wire.
    pub fn code(&self) -> (byte: u8)
        ensures
            byte == self.spec_code(),
            battery_state_of(byte) == Some(*self),
    {
        match self {
            BatteryState::Idle => 0,
            BatteryState::Discharging => 1,
            BatteryState::Charging => 2,
        }
    }
}

impl LedState {
    /// The byte that stands for the level on the wire.
    pub open spec fn spec_code(&self) -> u8 {
        match self {
            LedState::Off => 0,
            LedState::Low => 1,
            LedState::Mid => 2,
            LedState::High => 3,
            LedState::Sos => 4,
        }
    }

    /// The byte that stands for the level on the wire.
    pub fn code(&self) -> (byte: u8)
        ensures
            byte == self.spec_code(),
            led_state_of(byte) == Some(*self),
    {
        match self {
            LedState::Off => 0,
            LedState::Low => 1,
            LedState::Mid => 2,
            LedState::High => 3,
            LedState::Sos => 4,
        }
    }
}

impl TelemetryError {
    /// Which expectation was not met.
    pub open spec fn spec_kind(&self) -> DecodeFailure {
        match self {
            TelemetryError::DataTooShort { expected, actual } => DecodeFailure::TooShort {
                expected: *expected,
                actual: *actual,
            },
            TelemetryError::UnknownPacketType(b) => DecodeFailure::UnknownPacketType(*b),
            TelemetryError::UnknownTelemetryType(b) => DecodeFailure::UnknownTelemetryType(*b),
            TelemetryError::UnknownBatteryState(b) => DecodeFailure::UnknownBatteryState(*b),
            TelemetryError::UnknownLedState(b) => DecodeFailure::UnknownLedState(*b),
            TelemetryError::InvalidSerial(_) => DecodeFailure::InvalidSerial,
        }
    }

    /// Which expectation was not met.
    pub fn kind(&self) -> (k: DecodeFailure)
        ensures
            k == self.spec_kind(),
    {
        match self {
            TelemetryError::DataTooShort { expected, actual } => DecodeFailure::TooShort {
                expected: *expected,
                actual: *actual,
            },
            TelemetryError::UnknownPacketType(b) => DecodeFailure::UnknownPacketType(*b),
            TelemetryError::UnknownTelemetryType(b) => DecodeFailure::UnknownTelemetryType(*b),
            TelemetryError::UnknownBatteryState(b) => DecodeFailure::UnknownBatteryState(*b),
            TelemetryError::UnknownLedState(b) => DecodeFailure::UnknownLedState(*b),
            TelemetryError::InvalidSerial(_) => DecodeFailure::InvalidSerial,
        }
    }

    /// The message of the error. For an invalid serial number the message
    /// opens with the fixed words and goes on with the text of the UTF-8
    /// error, of which nothing is stated.
    pub fn message(&self) -> (text: String)
        ensures
            !(self is InvalidSerial) ==> text@ == telemetry_error_text(self.spec_kind()),
            self is InvalidSerial ==> text@.len() >= telemetry_error_text(self.spec_kind()).len()
                && text@.subrange(0, telemetry_error_text(self.spec_kind()).len() as int)
                == telemetry_error_text(self.spec_kind()),
    {
        match self {
            TelemetryError::DataTooShort { expected, actual } => {
                let e = decimal_string(*expected as u64);
                let a = decimal_string(*actual as u64);
                let text = String::from_str("Data too short: expected at least ").concat(
                    e.as_str(),
                ).concat(", got ").concat(a.as_str());
                assert(text@ =~= "Data too short: expected at least "@ + decimal_digits(
                    *expected as nat,
                ) + ", got "@ + decimal_digits(*actual as nat));
                text
            },
            TelemetryError::UnknownPacketType(b) => {
                let d = decimal_string(*b as u64);
                String::from_str("Unknown packet type: ").concat(d.as_str())
            },
            TelemetryError::UnknownTelemetryType(b) => {
                let d = hex_byte_string(*b);
                String::from_str("Unknown telemetry type: 0x").concat(d.as_str())
            },
            TelemetryError::UnknownBatteryState(b) => {
                let d = decimal_string(*b as u64);
                String::from_str("Unknown battery state: ").concat(d.as_str())
            },
            TelemetryError::UnknownLedState(b) => {
                let d = decimal_string(*b as u64);
                String::from_str("Unknown LED state: ").concat(d.as_str())
            },
            TelemetryError::InvalidSerial(e) => {
                let d = utf8_error_text(e);
                let text = String::from_str("Invalid UTF-8 in serial: ").concat(d.as_str());
                assert(text@.subrange(0, "Invalid UTF-8 in serial: "@.len() as int)
                    =~= "Invalid UTF-8 in serial: "@);
                text
            },
        }
    }
}

/// The text of a decode failure. For an invalid serial number these are
/// the opening words only.
pub open spec fn telemetry_error_text(kind: DecodeFailure) -> Seq<char> {
    match kind {
        DecodeFailure::TooShort { expected, actual } => "Data too short: expected at least "@
            + decimal_digits(expected as nat) + ", got "@ + decimal_digits(actual as nat),
        DecodeFailure::UnknownPacketType(b) => "Unknown packet type: "@ + decimal_digits(b as nat),
        DecodeFailure::UnknownTelemetryType(b) => "Unknown telemetry type: 0x"@ + hex_byte_digits(
            b,
        ),
        DecodeFailure::UnknownBatteryState(b) => "Unknown battery state: "@ + decimal_digits(
            b as nat,
        ),
        DecodeFailure::UnknownLedState(b) => "Unknown LED state: "@ + decimal_digits(b as nat),
        DecodeFailure::InvalidSerial => "Invalid UTF-8 in serial: "@,
    }
}

impl TryFrom<u8> for BatteryState {
    type Error = TelemetryError;

    fn try_from(value: u8) -> (r: Result<Self, Self::Error>) {
        match value {
            0 => Ok(BatteryState::Idle),
            1 => Ok(BatteryState::Discharging),
            2 => Ok(BatteryState::Charging),
            _ => Err(TelemetryError::UnknownBatteryState(value)),
        }
    }
}

impl vstd::std_specs::convert::TryFromSpecImpl<u8> for BatteryState {
    open spec fn obeys_try_from_spec() -> bool {
        true
    }

    open spec fn try_from_spec(value: u8) -> Result<Self, Self::Error> {
        match battery_state_of(value) {
            Some(s) => Ok(s),
            None => Err(TelemetryError::UnknownBatteryState(value)),
        }
    }
}

impl TryFrom<u8> for LedState {
    type Error = TelemetryError;

    fn try_from(value: u8) -> (r: Result<Self, Self::Error>) {
        match value {
            0 => Ok(LedState::Off),
            1 => Ok(LedState::Low),
            2 => Ok(LedState::Mid),
            3 => Ok(LedState::High),
            4 => Ok(LedState::Sos),
            _ => Err(TelemetryError::UnknownLedState(value)),
        }
    }
}

impl vstd::std_specs::convert::TryFromSpecImpl<u8> for LedState {
    open spec fn obeys_try_from_spec() -> bool {
        true
    }

    open spec fn try_from_spec(value: u8) -> Result<Self, Self::Error> {
        match led_state_of(value) {
            Some(s) => Ok(s),
            None => Err(TelemetryError::UnknownLedState(value)),
        }
    }
}

impl TryFrom<u8> for PacketType {
    type Error = TelemetryError;

    fn try_from(value: u8) -> (r: Result<Self, Self::Error>) {
        match value {
            1 => Ok(PacketType::Telemetry),
            2 => Ok(PacketType::CommandAck),
            _ => Err(TelemetryError::UnknownPacketType(value)),
        }
    }
}

impl vstd::std_specs::convert::TryFromSpecImpl<u8> for PacketType {
    open spec fn obeys_try_from_spec() -> bool {
        true
    }

    open spec fn try_from_spec(value: u8) -> Result<Self, Self::Error> {
        match packet_type_of(value) {
            Some(t) => Ok(t),
            None => Err(TelemetryError::UnknownPacketType(value)),
        }
    }
}

impl TryFrom<u8> for TelemetryType {
    type Error = TelemetryError;

    fn try_from(value: u8) -> (r: Result<Self, Self::Error>) {
        match value {
            0x48 => Ok(TelemetryType::StateAck),
            0x49 => Ok(TelemetryType::Telemetry),
            _ => Err(TelemetryError::UnknownTelemetryType(value)),
        }
    }
}

impl vstd::std_specs::convert::TryFromSpecImpl<u8> for TelemetryType {
    open spec fn obeys_try_from_spec() -> bool {
        true
    }

    open spec fn try_from_spec(value: u8) -> Result<Self, Self::Error> {
        match telemetry_type_of(value) {
            Some(t) => Ok(t),
            None => Err(TelemetryError::UnknownTelemetryType(value)),
        }
    }
}

/// The 16-bit value whose low byte is at `index` and whose high byte
/// follows it.
pub open spec fn word_at(data: Seq<u8>, index: int) -> u16 {
    (data[index] as int + 256 * (data[index + 1] as int)) as u16
}

/// Whether the byte at `index` is set.
pub open spec fn flag_at(data: Seq<u8>, index: int) -> bool {
    data[index] != 0
}

/// Reads the little-endian 16-bit value at `index`.
pub fn extract16(data: &[u8], index: usize) -> (value: u16)
    requires
        index + 1 < data@.len(),
    ensures
        value == word_at(data@, index as int),
{
    let lo: u16 = data[index] as u16;
    let hi: u16 = data[index + 1] as u16;
    lo + 256 * hi
}

/// The first bytes of every notification.
#[derive(Debug, Clone, Copy, PartialEq, Eq, Structural)]
pub struct Header {
    pub packet_type: PacketType,
    pub telemetry_id: u8,
    pub packet_length: u16,
}

/// What the header of a buffer decodes to.
pub open spec fn decode_header(data: Seq<u8>) -> Result<Header, DecodeFailure> {
    if data.len() < HEADER_LENGTH {
        Err(DecodeFailure::TooShort { expected: HEADER_LENGTH, actual: data.len() as usize })
    } else {
        match packet_type_of(data[PACKET_TYPE_OFFSET as int]) {
            None => Err(DecodeFailure::UnknownPacketType(data[PACKET_TYPE_OFFSET as int])),
            Some(packet_type) => Ok(
                Header {
                    packet_type,
                    telemetry_id: data[SUBTYPE_OFFSET as int],
                    packet_length: word_at(data, PACKET_LENGTH_OFFSET as int),
                },
            ),
        }
    }
}

impl Header {
    /// Reads the header of a notification. The declared length is read and
    /// not held against the length of the buffer.
    pub fn from_bytes(data: &[u8]) -> (r: Result<Self, TelemetryError>)
        ensures
            match r {
                Ok(header) => decode_header(data@) == Ok::<Header, DecodeFailure>(header),
                Err(e) => decode_header(data@) == Err::<Header, DecodeFailure>(e.spec_kind()),
            },
    {
        if data.len() < HEADER_LENGTH {
            return Err(
                TelemetryError::DataTooShort { expected: HEADER_LENGTH, actual: data.len() },
            );
        }
        let packet_id = data[PACKET_TYPE_OFFSET];
        let telemetry_id = data[SUBTYPE_OFFSET];
        let packet_length = extract16(data, PACKET_LENGTH_OFFSET);
        let packet_type = match PacketType::try_from(packet_id) {
            Ok(t) => t,
            Err(e) => {
                return Err(e);
            },
        };
        Ok(Header { packet_type, telemetry_id, packet_length })
    }
}

/// One outlet or port: whether it is on, what it draws, and for the 12V
/// outlets the time left on the shared timer.
#[derive(Debug, Clone, Copy, PartialEq, Eq, Structural)]
pub struct Output {
    pub is_on: bool,
    pub watts: u16,
    pub time_remaining_seconds: Option<u16>,
}

/// One battery pack.
#[derive(Debug, Clone, Copy, PartialEq, Eq, Structural)]
pub struct Battery {
    pub temperature: u8,
    pub percentage: u8,
}

/// One telemetry snapshot.
///
/// The estimate of the time that the battery will last is kept as the two
/// bytes that the device sends: whole days and tenths of an hour. In hours
/// it is `24 * days + tenths / 10`.
#[derive(Debug, PartialEq, Eq)]
pub struct Telemetry {
    pub battery_remaining_days: u8,
    pub battery_remaining_tenths: u8,
    pub ac_outlet: Output,
    pub twelve_volt: Vec<Output>,
    pub usb_c: Vec<Output>,
    pub usb_a: Vec<Output>,
    pub total_output_watts: u16,
    pub ac_input_watts: u16,
    pub solar_input_watts: u16,
    pub total_input_watts: u16,
    pub internal_battery: Battery,
    pub external_battery: Battery,
    pub battery_state: BatteryState,
    pub total_battery_percentage: u8,
    pub device_serial: String,
}

/// A telemetry snapshot as a mathematical value.
pub struct TelemetryView {
    pub battery_remaining_days: u8,
    pub battery_remaining_tenths: u8,
    pub ac_outlet: Output,
    pub twelve_volt: Seq<Output>,
    pub usb_c: Seq<Output>,
    pub usb_a: Seq<Output>,
    pub total_output_watts: u16,
    pub ac_input_watts: u16,
    pub solar_input_watts: u16,
    pub total_input_watts: u16,
    pub internal_battery: Battery,
    pub external_battery: Battery,
    pub battery_state: BatteryState,
    pub total_battery_percentage: u8,
    pub device_serial: Seq<char>,
}

impl View for Telemetry {
    type V = TelemetryView;

    open spec fn view(&self) -> TelemetryView {
        TelemetryView {
            battery_remaining_days: self.battery_remaining_days,
            battery_remaining_tenths: self.battery_remaining_tenths,
            ac_outlet: self.ac_outlet,
            twelve_volt: self.twelve_volt@,
            usb_c: self.usb_c@,
            usb_a: self.usb_a@,
            total_output_watts: self.total_output_watts,
            ac_input_watts: self.ac_input_watts,
            solar_input_watts: self.solar_input_watts,
            total_input_watts: self.total_input_watts,
            internal_battery: self.internal_battery,
            external_battery: self.external_battery,
            battery_state: self.battery_state,
            total_battery_percentage: self.total_battery_percentage,
            device_serial: self.device_serial@,
        }
    }
}

/// Copies a list of outlets.
fn copy_outputs(outputs: &Vec<Output>) -> (copy: Vec<Output>)
    ensures
        copy@ == outputs@,
{
    let mut copy: Vec<Output> = Vec::new();
    let mut i: usize = 0;
    while i < outputs.len()
        invariant
            i <= outputs.len(),
            copy@ == outputs@.take(i as int),
        decreases outputs.len() - i,
    {
        copy.push(outputs[i]);
        i = i + 1;
        assert(copy@ =~= outputs@.take(i as int));
    }
    assert(outputs@.take(i as int) =~= outputs@);
    copy
}

impl Clone for Telemetry {
    fn clone(&self) -> (copy: Self)
        ensures
            copy@ == self@,
    {
        Telemetry {
            battery_remaining_days: self.battery_remaining_days,
            battery_remaining_tenths: self.battery_remaining_tenths,
            ac_outlet: self.ac_outlet,
            twelve_volt: copy_outputs(&self.twelve_volt),
            usb_c: copy_outputs(&self.usb_c),
            usb_a: copy_outputs(&self.usb_a),
            total_output_watts: self.total_output_watts,
            ac_input_watts: self.ac_input_watts,
            solar_input_watts: self.solar_input_watts,
            total_input_watts: self.total_input_watts,
            internal_battery: self.internal_battery,
            external_battery: self.external_battery,
            battery_state: self.battery_state,
            total_battery_percentage: self.total_battery_percentage,
            device_serial: self.device_serial.clone(),
        }
    }
}

impl TelemetryView {
    /// The estimate of the time that the battery will last, in tenths of an
    /// hour: a day counts 240 of them.
    pub open spec fn battery_remaining_tenth_hours(&self) -> nat {
        (240 * self.battery_remaining_days + self.battery_remaining_tenths) as nat
    }
}

/// An outlet without a timer, read from a flag byte and a 16-bit wattage.
pub open spec fn plain_output(data: Seq<u8>, flag: int, watts: int) -> Output {
    Output { is_on: flag_at(data, flag), watts: word_at(data, watts), time_remaining_seconds: None }
}

/// A 12V outlet: as a plain outlet, with the timer that both outlets share.
pub open spec fn timed_output(data: Seq<u8>, flag: int, watts: int) -> Output {
    Output {
        is_on: flag_at(data, flag),
        watts: word_at(data, watts),
        time_remaining_seconds: Some(word_at(data, 13)),
    }
}

/// The bytes of the serial number of a telemetry buffer.
pub open spec fn serial_bytes(data: Seq<u8>) -> Seq<u8> {
    data.subrange(SERIAL_START as int, SERIAL_END as int)
}

/// The fields of a telemetry buffer of at least 102 bytes whose serial
/// number is valid UTF-8 and whose battery state is `state`.
pub open spec fn telemetry_fields(data: Seq<u8>, state: BatteryState) -> TelemetryView {
    TelemetryView {
        battery_remaining_days: data[18],
        battery_remaining_tenths: data[17],
        ac_outlet: plain_output(data, 63, 21),
        twelve_volt: seq![timed_output(data, 80, 33), timed_output(data, 81, 35)],
        usb_c: seq![
            plain_output(data, 75, 23),
            plain_output(data, 76, 25),
            plain_output(data, 77, 27),
        ],
        usb_a: seq![plain_output(data, 78, 29), plain_output(data, 79, 31)],
        total_output_watts: word_at(data, 41),
        ac_input_watts: word_at(data, 19),
        solar_input_watts: word_at(data, 37),
        total_input_watts: word_at(data, 39),
        internal_battery: Battery { temperature: data[66], percentage: data[70] },
        external_battery: Battery { temperature: data[67], percentage: data[71] },
        battery_state: state,
        total_battery_percentage: data[72],
        device_serial: decode_utf8(serial_bytes(data)),
    }
}

/// What a telemetry buffer decodes to. The length is looked at first, then
/// the serial number, then the battery state.
pub open spec fn decode_telemetry(data: Seq<u8>) -> Result<TelemetryView, DecodeFailure> {
    if data.len() < TELEMETRY_LENGTH {
        Err(DecodeFailure::TooShort { expected: TELEMETRY_LENGTH, actual: data.len() as usize })
    } else if !valid_utf8(serial_bytes(data)) {
        Err(DecodeFailure::InvalidSerial)
    } else {
        match battery_state_of(data[68]) {
            None => Err(DecodeFailure::UnknownBatteryState(data[68])),
            Some(state) => Ok(telemetry_fields(data, state)),
        }
    }
}

/// Reads an outlet without a timer.
fn read_plain_output(data: &[u8], flag: usize, watts: usize) -> (out: Output)
    requires
        flag < data@.len(),
        watts + 1 < data@.len(),
    ensures
        out == plain_output(data@, flag as int, watts as int),
{
    Output { is_on: data[flag] != 0, watts: extract16(data, watts), time_remaining_seconds: None }
}

/// Reads a 12V outlet.
fn read_timed_output(data: &[u8], flag: usize, watts: usize) -> (out: Output)
    requires
        flag < data@.len(),
        watts + 1 < data@.len(),
        14 < data@.len(),
    ensures
        out == timed_output(data@, flag as int, watts as int),
{
    Output {
        is_on: data[flag] != 0,
        watts: extract16(data, watts),
        time_remaining_seconds: Some(extract16(data, 13)),
    }
}

impl Telemetry {
    /// Decodes a telemetry snapshot from a buffer of at least 102 bytes.
    pub fn from_bytes(data: &[u8]) -> (r: Result<Self, TelemetryError>)
        ensures
            match r {
                Ok(t) => decode_telemetry(data@) == Ok::<TelemetryView, DecodeFailure>(t@),
                Err(e) => decode_telemetry(data@) == Err::<TelemetryView, DecodeFailure>(
                    e.spec_kind(),
                ),
            },
    {
        if data.len() < TELEMETRY_LENGTH {
            return Err(
                TelemetryError::DataTooShort { expected: TELEMETRY_LENGTH, actual: data.len() },
            );
        }
        let ac_outlet = read_plain_output(data, 63, 21);
        let twelve_volt = vec![read_timed_output(data, 80, 33), read_timed_output(data, 81, 35)];
        let usb_c = vec![
            read_plain_output(data, 75, 23),
            read_plain_output(data, 76, 25),
            read_plain_output(data, 77, 27),
        ];
        let usb_a = vec![read_plain_output(data, 78, 29), read_plain_output(data, 79, 31)];
        let internal_battery = Battery { temperature: data[66], percentage: data[70] };
        let external_battery = Battery { temperature: data[67], percentage: data[71] };
        let serial = slice_to_vec(slice_subrange(data, SERIAL_START, SERIAL_END));
        let device_serial = match string_from_utf8(serial) {
            Ok(s) => s,
            Err(e) => {
                return Err(TelemetryError::InvalidSerial(e));
            },
        };
        let battery_state = match BatteryState::try_from(data[68]) {
            Ok(s) => s,
            Err(e) => {
                return Err(e);
            },
        };
        let t = Telemetry {
            battery_remaining_days: data[18],
            battery_remaining_tenths: data[17],
            ac_outlet,
            twelve_volt,
            usb_c,
            usb_a,
            total_output_watts: extract16(data, 41),
            ac_input_watts: extract16(data, 19),
            solar_input_watts: extract16(data, 37),
            total_input_watts: extract16(data, 39),
            internal_battery,
            external_battery,
            battery_state,
            total_battery_percentage: data[72],
            device_serial,
        };
        proof {
            let want = telemetry_fields(data@, battery_state);
            assert(t@.twelve_volt =~= want.twelve_volt);
            assert(t@.usb_c =~= want.usb_c);
            assert(t@.usb_a =~= want.usb_a);
            assert(t@ == want);
        }
        Ok(t)
    }

    /// The estimate of the time that the battery will last, in tenths of an
    /// hour.
    pub fn battery_remaining_tenth_hours(&self) -> (tenths: u16)
        ensures
            tenths == self@.battery_remaining_tenth_hours(),
    {
        240 * (self.battery_remaining_days as u16) + self.battery_remaining_tenths as u16
    }
}

/// What the device confirms of its own state.
#[derive(Debug, Clone, Copy, PartialEq, Eq, Structural)]
pub struct StateAck {
    pub ac_outlet_on: bool,
    pub twelve_volt_on: bool,
    pub power_save_on: bool,
    pub led_state: LedState,
}

/// What a state acknowledgement decodes to.
pub open spec fn decode_state_ack(data: Seq<u8>) -> Result<StateAck, DecodeFailure> {
    if data.len() < STATE_ACK_LENGTH {
        Err(DecodeFailure::TooShort { expected: STATE_ACK_LENGTH, actual: data.len() as usize })
    } else {
        match led_state_of(data[12]) {
            None => Err(DecodeFailure::UnknownLedState(data[12])),
            Some(led_state) => Ok(
                StateAck {
                    ac_outlet_on: flag_at(data, 9),
                    twelve_volt_on: flag_at(data, 10),
                    power_save_on: flag_at(data, 11),
                    led_state,
                },
            ),
        }
    }
}

impl StateAck {
    /// Decodes a state acknowledgement from a buffer of at least 13 bytes.
    pub fn from_bytes(data: &[u8]) -> (r: Result<Self, TelemetryError>)
        ensures
            match r {
                Ok(ack) => decode_state_ack(data@) == Ok::<StateAck, DecodeFailure>(ack),
                Err(e) => decode_state_ack(data@) == Err::<StateAck, DecodeFailure>(e.spec_kind()),
            },
    {
        if data.len() < STATE_ACK_LENGTH {
            return Err(
                TelemetryError::DataTooShort { expected: STATE_ACK_LENGTH, actual: data.len() },
            );
        }
        let led_state = match LedState::try_from(data[12]) {
            Ok(s) => s,
            Err(e) => {
                return Err(e);
            },
        };
        Ok(
            StateAck {
                ac_outlet_on: data[9] != 0,
                twelve_volt_on: data[10] != 0,
                power_save_on: data[11] != 0,
                led_state,
            },
        )
    }
}

/// The device has taken a command.
#[derive(Debug, Clone, Copy, PartialEq, Eq, Structural)]
pub struct CommandAck {
    pub command_type: CommandType,
}

/// A parsed notification.
#[derive(Debug, Clone, PartialEq, Eq)]
pub enum NotificationPacket {
    Telemetry(Telemetry),
    StateAck(StateAck),
    CommandAck(CommandAck),
}

/// A parsed notification as a mathematical value.
pub enum NotificationView {
    Telemetry(TelemetryView),
    StateAck(StateAck),
    CommandAck(CommandAck),
}

impl View for NotificationPacket {
    type V = NotificationView;

    open spec fn view(&self) -> NotificationView {
        match self {
            NotificationPacket::Telemetry(t) => NotificationView::Telemetry(t@),
            NotificationPacket::StateAck(a) => NotificationView::StateAck(*a),
            NotificationPacket::CommandAck(a) => NotificationView::CommandAck(*a),
        }
    }
}

/// What a notification decodes to: the header decides which of the three
/// it is, and the rest is read as that one.
pub open spec fn decode_notification(data: Seq<u8>) -> Result<NotificationView, DecodeFailure> {
    match decode_header(data) {
        Err(failure) => Err(failure),
        Ok(header) => match header.packet_type {
            PacketType::Telemetry => match telemetry_type_of(header.telemetry_id) {
                None => Err(DecodeFailure::UnknownTelemetryType(header.telemetry_id)),
                Some(TelemetryType::Telemetry) => match decode_telemetry(data) {
                    Ok(t) => Ok(NotificationView::Telemetry(t)),
                    Err(failure) => Err(failure),
                },
                Some(TelemetryType::StateAck) => match decode_state_ack(data) {
                    Ok(ack) => Ok(NotificationView::StateAck(ack)),
                    Err(failure) => Err(failure),
                },
            },
            PacketType::CommandAck => match command_type_of(header.telemetry_id) {
                None => Err(DecodeFailure::UnknownTelemetryType(header.telemetry_id)),
                Some(command_type) => Ok(NotificationView::CommandAck(CommandAck { command_type })),
            },
        },
    }
}

impl NotificationPacket {
    /// Decodes one notification. Whatever the bytes are, the call returns:
    /// a packet, or the expectation that the buffer did not meet.
    pub fn from_bytes(data: &[u8]) -> (r: Result<Self, TelemetryError>)
        ensures
            match r {
                Ok(packet) => decode_notification(data@) == Ok::<NotificationView, DecodeFailure>(
                    packet@,
                ),
                Err(e) => decode_notification(data@) == Err::<NotificationView, DecodeFailure>(
                    e.spec_kind(),
                ),
            },
    {
        let header = match Header::from_bytes(data) {
            Ok(h) => h,
            Err(e) => {
                return Err(e);
            },
        };
        match header.packet_type {
            PacketType::Telemetry => {
                let telemetry_type = match TelemetryType::try_from(header.telemetry_id) {
                    Ok(t) => t,
                    Err(e) => {
                        return Err(e);
                    },
                };
                match telemetry_type {
                    TelemetryType::Telemetry => match Telemetry::from_bytes(data) {
                        Ok(t) => Ok(NotificationPacket::Telemetry(t)),
                        Err(e) => Err(e),
                    },
                    TelemetryType::StateAck => match StateAck::from_bytes(data) {
                        Ok(ack) => Ok(NotificationPacket::StateAck(ack)),
                        Err(e) => Err(e),
                    },
                }
            },
            PacketType::CommandAck => match CommandType::try_from(header.telemetry_id) {
                Ok(command_type) => Ok(NotificationPacket::CommandAck(CommandAck { command_type })),
                Err(_) => Err(TelemetryError::UnknownTelemetryType(header.telemetry_id)),
            },
        }
    }
}

/// A buffer of fewer than ten bytes never decodes: whatever it holds, the
/// failure is that it is too short for a header.
pub proof fn lemma_short_buffer_fails(data: Seq<u8>)
    requires
        data.len() < HEADER_LENGTH,
    ensures
        decode_notification(data) == Err::<NotificationView, DecodeFailure>(
            DecodeFailure::TooShort { expected: HEADER_LENGTH, actual: data.len() as usize },
        ),
        decode_header(data) == Err::<Header, DecodeFailure>(
            DecodeFailure::TooShort { expected: HEADER_LENGTH, actual: data.len() as usize },
        ),
{
}

/// A telemetry snapshot is never made up from a battery state outside its
/// range: a buffer that decodes has one of the three states, and a telemetry
/// notification whose serial number is valid and whose battery state is out
/// of range fails with that byte.
pub proof fn lemma_battery_state_out_of_range_fails(data: Seq<u8>)
    requires
        data.len() >= TELEMETRY_LENGTH,
    ensures
        decode_telemetry(data) is Ok ==> data[68] <= 2,
        data[68] > 2 && valid_utf8(serial_bytes(data)) ==> decode_telemetry(data) == Err::<
            TelemetryView,
            DecodeFailure,
        >(DecodeFailure::UnknownBatteryState(data[68])),
        data[68] > 2 && valid_utf8(serial_bytes(data)) && data[PACKET_TYPE_OFFSET as int] == 1
            && data[SUBTYPE_OFFSET as int] == 0x49 ==> decode_notification(data) == Err::<
            NotificationView,
            DecodeFailure,
        >(DecodeFailure::UnknownBatteryState(data[68])),
{
}

/// Bytes below 128 are valid UTF-8, and they decode to the characters of
/// the same numbers: a serial number in ASCII is always accepted, as it
/// stands.
pub proof fn lemma_ascii_is_valid_utf8(bytes: Seq<u8>)
    requires
        forall|i: int| 0 <= i < bytes.len() ==> #[trigger] bytes[i] < 128,
    ensures
        valid_utf8(bytes),
        decode_utf8(bytes) == Seq::new(bytes.len(), |i: int| bytes[i] as char),
{
    let chars = Seq::new(bytes.len(), |i: int| bytes[i] as char);
    assert(vstd::utf8::is_ascii_chars(chars));
    vstd::utf8::is_ascii_chars_encode_utf8(chars);
    assert(vstd::utf8::encode_utf8(chars) =~= bytes);
    vstd::utf8::encode_utf8_valid_utf8(chars);
    vstd::utf8::encode_utf8_decode_utf8(chars);
}

/// The opcode table is one table for both directions: the opcode of a
/// command type stands for that type, and a command acknowledgement that
/// carries it decodes to the acknowledgement of that type.
pub proof fn lemma_command_ack_names_the_command(t: CommandType, data: Seq<u8>)
    requires
        data.len() >= HEADER_LENGTH,
        data[PACKET_TYPE_OFFSET as int] == 2,
        data[SUBTYPE_OFFSET as int] == crate::command::opcode_of(t),
    ensures
        command_type_of(crate::command::opcode_of(t)) == Some(t),
        decode_notification(data) == Ok::<NotificationView, DecodeFailure>(
            NotificationView::CommandAck(CommandAck { command_type: t }),
        ),
{
}

/// A telemetry snapshot is read from the first 102 bytes of the buffer:
/// what follows them changes nothing.
pub proof fn lemma_telemetry_reads_its_own_bytes_only(data: Seq<u8>)
    requires
        data.len() >= TELEMETRY_LENGTH,
    ensures
        decode_telemetry(data) == decode_telemetry(data.subrange(0, TELEMETRY_LENGTH as int)),
{
    let head = data.subrange(0, TELEMETRY_LENGTH as int);
    assert(serial_bytes(head) =~= serial_bytes(data));
    if decode_telemetry(data) is Ok {
        let state = battery_state_of(data[68])->Some_0;
        assert(telemetry_fields(head, state).twelve_volt =~= telemetry_fields(
            data,
            state,
        ).twelve_volt);
        assert(telemetry_fields(head, state).usb_c =~= telemetry_fields(data, state).usb_c);
        assert(telemetry_fields(head, state).usb_a =~= telemetry_fields(data, state).usb_a);
    }
}

} // verus!
