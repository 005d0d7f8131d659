//! Commands for the power station and their wire frames.
//!
//! A frame is the fixed six-byte header, the opcode, the declared frame
//! length, the parameter bytes and a checksum: the sum of every preceding
//! byte, modulo 256.

use crate::text::{decimal_digits, decimal_string, hex_byte_digits, hex_byte_string};
use vstd::prelude::*;

verus! {

/// The six bytes that open every command frame.
pub open spec fn frame_header() -> Seq<u8> {
    seq![0x08u8, 0xeeu8, 0x00u8, 0x00u8, 0x00u8, 0x02u8]
}

/// The sum of the bytes of `bytes`, as a natural number.
pub open spec fn byte_sum(bytes: Seq<u8>) -> nat
    decreases bytes.len(),
{
    if bytes.len() == 0 {
        0
    } else {
        byte_sum(bytes.drop_last()) + bytes.last() as nat
    }
}

/// The checksum of `bytes`: their sum, wrapped to eight bits.
pub open spec fn checksum(bytes: Seq<u8>) -> u8 {
    (byte_sum(bytes) % 256) as u8
}

/// Header, opcode, declared length and parameters: a frame without its
/// checksum.
pub open spec fn frame_body(opcode: u8, length: u8, parameters: Seq<u8>) -> Seq<u8> {
    frame_header() + seq![opcode, length] + parameters
}

/// The whole frame: the body followed by the checksum of the body.
pub open spec fn frame(opcode: u8, length: u8, parameters: Seq<u8>) -> Seq<u8> {
    frame_body(opcode, length, parameters).push(
        checksum(frame_body(opcode, length, parameters)),
    )
}

/// The parameter bytes of an on/off command.
pub open spec fn switch_parameters(is_on: bool) -> Seq<u8> {
    seq![0x00u8, if is_on { 1u8 } else { 0u8 }]
}

/// The parameter bytes of a level command.
pub open spec fn level_parameters(level: u8) -> Seq<u8> {
    seq![0x00u8, level]
}

/// The parameter bytes of a 16-bit value: a zero byte, then the value,
/// low byte first.
pub open spec fn word_parameters(value: u16) -> Seq<u8> {
    seq![0x00u8, (value % 256) as u8, (value / 256) as u8]
}

/// The parameter bytes of a timer: as for a 16-bit value, then two zero
/// bytes.
pub open spec fn timer_parameters(seconds: u16) -> Seq<u8> {
    seq![0x00u8, (seconds % 256) as u8, (seconds / 256) as u8, 0x00u8, 0x00u8]
}

/// The kind of a command, which is also the opcode byte of its frame.
#[derive(Debug, Clone, Copy, PartialEq, Eq, Structural)]
pub enum CommandType {
    AcTimer,
    TwelveVoltTimer,
    RechargePower,
    ScreenTimeout,
    AcOutput,
    TwelveVoltOutput,
    ScreenBrightness,
    PowerSave,
    Led,
}

/// The opcode byte of each command type.
pub open spec fn opcode_of(t: CommandType) -> u8 {
    match t {
        CommandType::AcTimer => 0x02,
        CommandType::TwelveVoltTimer => 0x03,
        CommandType::RechargePower => 0x80,
        CommandType::ScreenTimeout => 0x82,
        CommandType::AcOutput => 0x86,
        CommandType::TwelveVoltOutput => 0x87,
        CommandType::ScreenBrightness => 0x88,
        CommandType::PowerSave => 0x8A,
        CommandType::Led => 0x8B,
    }
}

/// The command type that an opcode byte stands for, if any.
pub open spec fn command_type_of(opcode: u8) -> Option<CommandType> {
    if opcode == 0x02 {
        Some(CommandType::AcTimer)
    } else if opcode == 0x03 {
        Some(CommandType::TwelveVoltTimer)
    } else if opcode == 0x80 {
        Some(CommandType::RechargePower)
    } else if opcode == 0x82 {
        Some(CommandType::ScreenTimeout)
    } else if opcode == 0x86 {
        Some(CommandType::AcOutput)
    } else if opcode == 0x87 {
        Some(CommandType::TwelveVoltOutput)
    } else if opcode == 0x88 {
        Some(CommandType::ScreenBrightness)
    } else if opcode == 0x8A {
        Some(CommandType::PowerSave)
    } else if opcode == 0x8B {
        Some(CommandType::Led)
    } else {
        None
    }
}

/// The snake-case name of each command type.
pub open spec fn command_name(t: CommandType) -> Seq<char> {
    match t {
        CommandType::AcTimer => "ac_timer"@,
        CommandType::TwelveVoltTimer => "twelve_volt_timer"@,
        CommandType::RechargePower => "recharge_power"@,
        CommandType::ScreenTimeout => "screen_timeout"@,
        CommandType::AcOutput => "ac_output"@,
        CommandType::TwelveVoltOutput => "twelve_volt_output"@,
        CommandType::ScreenBrightness => "screen_brightness"@,
        CommandType::PowerSave => "power_save"@,
        CommandType::Led => "led"@,
    }
}

impl CommandType {
    /// The snake-case name of the command type.
    pub fn as_str(&self) -> (name: &'static str)
        ensures
            name@ == command_name(*self),
    {
        match self {
            CommandType::AcTimer => "ac_timer",
            CommandType::TwelveVoltTimer => "twelve_volt_timer",
            CommandType::RechargePower => "recharge_power",
            CommandType::ScreenTimeout => "screen_timeout",
            CommandType::AcOutput => "ac_output",
            CommandType::TwelveVoltOutput => "twelve_volt_output",
            CommandType::ScreenBrightness => "screen_brightness",
            CommandType::PowerSave => "power_save",
            CommandType::Led => "led",
        }
    }

    /// The opcode byte of the command type.
    pub fn opcode(&self) -> (byte: u8)
        ensures
            byte == opcode_of(*self),
    {
        match self {
            CommandType::AcTimer => 0x02,
            CommandType::TwelveVoltTimer => 0x03,
            CommandType::RechargePower => 0x80,
            CommandType::ScreenTimeout => 0x82,
            CommandType::AcOutput => 0x86,
            CommandType::TwelveVoltOutput => 0x87,
            CommandType::ScreenBrightness => 0x88,
            CommandType::PowerSave => 0x8A,
            CommandType::Led => 0x8B,
        }
    }
}

/// Why a command or a command type was refused.
#[derive(Debug, Clone, PartialEq, Eq)]
pub enum CommandError {
    /// The byte is no opcode of the table.
    UnknownCommandType(u8),
    /// A parameter is outside its range; the text names the range and the
    /// value.
    InvalidValue(String),
}

/// The text of a command error.
pub open spec fn command_error_text(e: CommandError) -> Seq<char> {
    match e {
        CommandError::UnknownCommandType(byte) => "Unknown command type: 0x"@ + hex_byte_digits(
            byte,
        ),
        CommandError::InvalidValue(text) => "Invalid value: "@ + text@,
    }
}

impl CommandError {
    /// The message of the error, as it is shown to a caller.
    pub fn message(&self) -> (text: String)
        ensures
            text@ == command_error_text(*self),
    {
        match self {
            CommandError::UnknownCommandType(byte) => {
                let digits = hex_byte_string(*byte);
                String::from_str("Unknown command type: 0x").concat(digits.as_str())
            },
            CommandError::InvalidValue(reason) => {
                String::from_str("Invalid value: ").concat(reason.as_str())
            },
        }
    }
}

impl TryFrom<u8> for CommandType {
    type Error = CommandError;

    fn try_from(value: u8) -> (r: Result<Self, Self::Error>) {
        match value {
            0x02 => Ok(CommandType::AcTimer),
            0x03 => Ok(CommandType::TwelveVoltTimer),
            0x80 => Ok(CommandType::RechargePower),
            0x82 => Ok(CommandType::ScreenTimeout),
            0x86 => Ok(CommandType::AcOutput),
            0x87 => Ok(CommandType::TwelveVoltOutput),
            0x88 => Ok(CommandType::ScreenBrightness),
            0x8A => Ok(CommandType::PowerSave),
            0x8B => Ok(CommandType::Led),
            _ => Err(CommandError::UnknownCommandType(value)),
        }
    }
}

impl vstd::std_specs::convert::TryFromSpecImpl<u8> for CommandType {
    open spec fn obeys_try_from_spec() -> bool {
        true
    }

    open spec fn try_from_spec(value: u8) -> Result<Self, Self::Error> {
        match command_type_of(value) {
            Some(t) => Ok(t),
            None => Err(CommandError::UnknownCommandType(value)),
        }
    }
}

/// Appends the checksum of `body` to it.
fn seal(body: Vec<u8>) -> (out: Vec<u8>)
    ensures
        out@ == body@.push(checksum(body@)),
{
    let mut sum: u8 = 0;
    let mut i: usize = 0;
    while i < body.len()
        invariant
            i <= body.len(),
            sum == checksum(body@.take(i as int)),
        decreases body.len() - i,
    {
        proof {
            let next = body@.take(i + 1);
            assert(next.drop_last() =~= body@.take(i as int));
            assert(next.last() == body@[i as int]);
        }
        sum = sum.wrapping_add(body[i]);
        i = i + 1;
    }
    proof {
        assert(body@.take(i as int) =~= body@);
    }
    let mut out = body;
    out.push(sum);
    out
}

/// Builds the frame of a command from its three parts.
fn assemble(opcode: u8, length: u8, parameters: &Vec<u8>) -> (out: Vec<u8>)
    ensures
        out@ == frame(opcode, length, parameters@),
{
    let mut body: Vec<u8> = Vec::with_capacity(16);
    body.push(0x08);
    body.push(0xee);
    body.push(0x00);
    body.push(0x00);
    body.push(0x00);
    body.push(0x02);
    body.push(opcode);
    body.push(length);
    let mut i: usize = 0;
    while i < parameters.len()
        invariant
            i <= parameters.len(),
            body@ == frame_header() + seq![opcode, length] + parameters@.take(i as int),
        decreases parameters.len() - i,
    {
        body.push(parameters[i]);
        i = i + 1;
        assert(body@ =~= frame_header() + seq![opcode, length] + parameters@.take(i as int));
    }
    proof {
        assert(parameters@.take(i as int) =~= parameters@);
    }
    seal(body)
}

/// A command that can be framed for the device.
pub trait Command {
    /// The type of the command.
    spec fn spec_command_type(&self) -> CommandType;

    /// The length byte that the frame declares.
    spec fn spec_length(&self) -> u8;

    /// The parameter bytes of the frame.
    spec fn spec_parameters(&self) -> Seq<u8>;

    fn command_type(&self) -> (t: CommandType)
        ensures
            t == self.spec_command_type(),
    ;

    fn length(&self) -> (n: u8)
        ensures
            n == self.spec_length(),
    ;

    fn parameters(&self) -> (p: Vec<u8>)
        ensures
            p@ == self.spec_parameters(),
    ;

    /// The frame of the command: header, opcode, declared length,
    /// parameters, checksum.
    fn to_bytes(&self) -> (out: Vec<u8>)
        ensures
            out@ == frame(
                opcode_of(self.spec_command_type()),
                self.spec_length(),
                self.spec_parameters(),
            ),
    {
        let opcode = self.command_type().opcode();
        let length = self.length();
        let parameters = self.parameters();
        assemble(opcode, length, &parameters)
    }
}

/// The low and the high byte of a 16-bit value.
fn split_word(value: u16) -> (bytes: (u8, u8))
    ensures
        bytes.0 == (value % 256) as u8,
        bytes.1 == (value / 256) as u8,
{
    ((value % 256) as u8, (value / 256) as u8)
}

/// Turns Power Save mode on and off.
#[derive(Debug, Clone, PartialEq, Eq)]
pub struct PowerSaveCommand {
    pub is_on: bool,
}

impl PowerSaveCommand {
    pub fn new(is_on: bool) -> (cmd: Self)
        ensures
            cmd.is_on == is_on,
    {
        Self { is_on }
    }
}

impl Command for PowerSaveCommand {
    open spec fn spec_command_type(&self) -> CommandType {
        CommandType::PowerSave
    }

    open spec fn spec_length(&self) -> u8 {
        11
    }

    open spec fn spec_parameters(&self) -> Seq<u8> {
        switch_parameters(self.is_on)
    }

    fn command_type(&self) -> (t: CommandType) {
        CommandType::PowerSave
    }

    fn length(&self) -> (n: u8) {
        11
    }

    fn parameters(&self) -> (p: Vec<u8>) {
        let flag: u8 = if self.is_on { 1 } else { 0 };
        let p = vec![0x00, flag];
        assert(p@ =~= switch_parameters(self.is_on));
        p
    }
}

/// Turns the AC output on and off.
#[derive(Debug, Clone, PartialEq, Eq)]
pub struct AcOutputCommand {
    pub is_on: bool,
}

impl AcOutputCommand {
    pub fn new(is_on: bool) -> (cmd: Self)
        ensures
            cmd.is_on == is_on,
    {
        Self { is_on }
    }
}

impl Command for AcOutputCommand {
    open spec fn spec_command_type(&self) -> CommandType {
        CommandType::AcOutput
    }

    open spec fn spec_length(&self) -> u8 {
        11
    }

    open spec fn spec_parameters(&self) -> Seq<u8> {
        switch_parameters(self.is_on)
    }

    fn command_type(&self) -> (t: CommandType) {
        CommandType::AcOutput
    }

    fn length(&self) -> (n: u8) {
        11
    }

    fn parameters(&self) -> (p: Vec<u8>) {
        let flag: u8 = if self.is_on { 1 } else { 0 };
        let p = vec![0x00, flag];
        assert(p@ =~= switch_parameters(self.is_on));
        p
    }
}

/// Turns the 12V output on and off.
#[derive(Debug, Clone, PartialEq, Eq)]
pub struct TwelveVoltOutputCommand {
    pub is_on: bool,
}

impl TwelveVoltOutputCommand {
    pub fn new(is_on: bool) -> (cmd: Self)
        ensures
            cmd.is_on == is_on,
    {
        Self { is_on }
    }
}

impl Command for TwelveVoltOutputCommand {
    open spec fn spec_command_type(&self) -> CommandType {
        CommandType::TwelveVoltOutput
    }

    open spec fn spec_length(&self) -> u8 {
        11
    }

    open spec fn spec_parameters(&self) -> Seq<u8> {
        switch_parameters(self.is_on)
    }

    fn command_type(&self) -> (t: CommandType) {
        CommandType::TwelveVoltOutput
    }

    fn length(&self) -> (n: u8) {
        11
    }

    fn parameters(&self) -> (p: Vec<u8>) {
        let flag: u8 = if self.is_on { 1 } else { 0 };
        let p = vec![0x00, flag];
        assert(p@ =~= switch_parameters(self.is_on));
        p
    }
}

/// Sets the display brightness, from 0 to 3.
#[derive(Debug, PartialEq, Eq)]
pub struct ScreenBrightnessCommand {
    brightness: u8,
}

impl ScreenBrightnessCommand {
    /// The brightness that the command sets.
    pub closed spec fn spec_brightness(&self) -> u8 {
        self.brightness
    }

    /// The brightness is one that the device accepts.
    pub open spec fn is_valid(&self) -> bool {
        self.spec_brightness() <= 3
    }

    #[verifier::type_invariant]
    spec fn in_range(self) -> bool {
        self.brightness <= 3
    }

    /// Accepts a brightness from 0 to 3 and refuses every other.
    pub fn new(brightness: u8) -> (r: Result<Self, CommandError>)
        ensures
            brightness <= 3 ==> r is Ok && r->Ok_0.spec_brightness() == brightness
                && r->Ok_0.is_valid(),
            brightness > 3 ==> r is Err && r->Err_0 is InvalidValue
                && r->Err_0->InvalidValue_0@ == "brightness must be 0-3, got "@ + decimal_digits(
                brightness as nat,
            ),
    {
        if brightness > 3 {
            let value = decimal_string(brightness as u64);
            return Err(
                CommandError::InvalidValue(
                    String::from_str("brightness must be 0-3, got ").concat(value.as_str()),
                ),
            );
        }
        Ok(Self { brightness })
    }

    /// The brightness that the command sets.
    pub fn brightness(&self) -> (b: u8)
        ensures
            b == self.spec_brightness(),
            self.is_valid(),
    {
        proof {
            use_type_invariant(self);
        }
        self.brightness
    }
}

impl Clone for ScreenBrightnessCommand {
    fn clone(&self) -> (copy: Self)
        ensures
            copy == *self,
    {
        proof {
            use_type_invariant(self);
        }
        Self { brightness: self.brightness }
    }
}

impl Command for ScreenBrightnessCommand {
    open spec fn spec_command_type(&self) -> CommandType {
        CommandType::ScreenBrightness
    }

    open spec fn spec_length(&self) -> u8 {
        11
    }

    open spec fn spec_parameters(&self) -> Seq<u8> {
        level_parameters(self.spec_brightness())
    }

    fn command_type(&self) -> (t: CommandType) {
        CommandType::ScreenBrightness
    }

    fn length(&self) -> (n: u8) {
        11
    }

    fn parameters(&self) -> (p: Vec<u8>) {
        let p = vec![0x00, self.brightness];
        assert(p@ =~= level_parameters(self.spec_brightness()));
        p
    }
}

/// Sets the LED strip level, from 0 to 4, where 4 is the SOS mode.
#[derive(Debug, PartialEq, Eq)]
pub struct LedCommand {
    level: u8,
}

impl LedCommand {
    /// The level that the command sets.
    pub closed spec fn spec_level(&self) -> u8 {
        self.level
    }

    /// The level is one that the device accepts.
    pub open spec fn is_valid(&self) -> bool {
        self.spec_level() <= 4
    }

    #[verifier::type_invariant]
    spec fn in_range(self) -> bool {
        self.level <= 4
    }

    /// Accepts a level from 0 to 4 and refuses every other.
    pub fn new(level: u8) -> (r: Result<Self, CommandError>)
        ensures
            level <= 4 ==> r is Ok && r->Ok_0.spec_level() == level && r->Ok_0.is_valid(),
            level > 4 ==> r is Err && r->Err_0 is InvalidValue && r->Err_0->InvalidValue_0@
                == "LED level must be 0-4, got "@ + decimal_digits(level as nat),
    {
        if level > 4 {
            let value = decimal_string(level as u64);
            return Err(
                CommandError::InvalidValue(
                    String::from_str("LED level must be 0-4, got ").concat(value.as_str()),
                ),
            );
        }
        Ok(Self { level })
    }

    /// The level that the command sets.
    pub fn level(&self) -> (l: u8)
        ensures
            l == self.spec_level(),
            self.is_valid(),
    {
        proof {
            use_type_invariant(self);
        }
        self.level
    }
}

impl Clone for LedCommand {
    fn clone(&self) -> (copy: Self)
        ensures
            copy == *self,
    {
        proof {
            use_type_invariant(self);
        }
        Self { level: self.level }
    }
}

impl Command for LedCommand {
    open spec fn spec_command_type(&self) -> CommandType {
        CommandType::Led
    }

    open spec fn spec_length(&self) -> u8 {
        11
    }

    open spec fn spec_parameters(&self) -> Seq<u8> {
        level_parameters(self.spec_level())
    }

    fn command_type(&self) -> (t: CommandType) {
        CommandType::Led
    }

    fn length(&self) -> (n: u8) {
        11
    }

    fn parameters(&self) -> (p: Vec<u8>) {
        let p = vec![0x00, self.level];
        assert(p@ =~= level_parameters(self.spec_level()));
        p
    }
}

/// Sets the recharge power in watts, from 200 to 1440.
#[derive(Debug, PartialEq, Eq)]
pub struct RechargePowerCommand {
    watts: u16,
}

impl RechargePowerCommand {
    /// The power that the command sets.
    pub closed spec fn spec_watts(&self) -> u16 {
        self.watts
    }

    /// The power is one that the device accepts.
    pub open spec fn is_valid(&self) -> bool {
        200 <= self.spec_watts() <= 1440
    }

    #[verifier::type_invariant]
    spec fn in_range(self) -> bool {
        200 <= self.watts <= 1440
    }

    /// Accepts a power from 200 to 1440 watts and refuses every other.
    pub fn new(watts: u16) -> (r: Result<Self, CommandError>)
        ensures
            200 <= watts <= 1440 ==> r is Ok && r->Ok_0.spec_watts() == watts
                && r->Ok_0.is_valid(),
            !(200 <= watts <= 1440) ==> r is Err && r->Err_0 is InvalidValue
                && r->Err_0->InvalidValue_0@ == "recharge power must be 200-1440, got "@
                + decimal_digits(watts as nat),
    {
        if watts < 200 || watts > 1440 {
            let value = decimal_string(watts as u64);
            return Err(
                CommandError::InvalidValue(
                    String::from_str("recharge power must be 200-1440, got ").concat(
                        value.as_str(),
                    ),
                ),
            );
        }
        Ok(Self { watts })
    }

    /// The power that the command sets.
    pub fn watts(&self) -> (w: u16)
        ensures
            w == self.spec_watts(),
            self.is_valid(),
    {
        proof {
            use_type_invariant(self);
        }
        self.watts
    }
}

impl Clone for RechargePowerCommand {
    fn clone(&self) -> (copy: Self)
        ensures
            copy == *self,
    {
        proof {
            use_type_invariant(self);
        }
        Self { watts: self.watts }
    }
}

impl Command for RechargePowerCommand {
    open spec fn spec_command_type(&self) -> CommandType {
        CommandType::RechargePower
    }

    open spec fn spec_length(&self) -> u8 {
        12
    }

    open spec fn spec_parameters(&self) -> Seq<u8> {
        word_parameters(self.spec_watts())
    }

    fn command_type(&self) -> (t: CommandType) {
        CommandType::RechargePower
    }

    fn length(&self) -> (n: u8) {
        12
    }

    fn parameters(&self) -> (p: Vec<u8>) {
        let bytes = split_word(self.watts);
        let p = vec![0x00, bytes.0, bytes.1];
        assert(p@ =~= word_parameters(self.spec_watts()));
        p
    }
}

/// Sets the screen timeout in seconds; zero switches the timeout off.
#[derive(Debug, Clone, PartialEq, Eq)]
pub struct ScreenTimeoutCommand {
    pub seconds: u16,
}

impl ScreenTimeoutCommand {
    pub fn new(seconds: u16) -> (cmd: Self)
        ensures
            cmd.seconds == seconds,
    {
        Self { seconds }
    }
}

impl Command for ScreenTimeoutCommand {
    open spec fn spec_command_type(&self) -> CommandType {
        CommandType::ScreenTimeout
    }

    open spec fn spec_length(&self) -> u8 {
        12
    }

    open spec fn spec_parameters(&self) -> Seq<u8> {
        word_parameters(self.seconds)
    }

    fn command_type(&self) -> (t: CommandType) {
        CommandType::ScreenTimeout
    }

    fn length(&self) -> (n: u8) {
        12
    }

    fn parameters(&self) -> (p: Vec<u8>) {
        let bytes = split_word(self.seconds);
        let p = vec![0x00, bytes.0, bytes.1];
        assert(p@ =~= word_parameters(self.seconds));
        p
    }
}

/// Sets the timer after which the AC output switches off; zero disables it.
#[derive(Debug, Clone, PartialEq, Eq)]
pub struct AcTimerCommand {
    pub seconds: u16,
}

impl AcTimerCommand {
    pub fn new(seconds: u16) -> (cmd: Self)
        ensures
            cmd.seconds == seconds,
    {
        Self { seconds }
    }
}

impl Command for AcTimerCommand {
    open spec fn spec_command_type(&self) -> CommandType {
        CommandType::AcTimer
    }

    open spec fn spec_length(&self) -> u8 {
        14
    }

    open spec fn spec_parameters(&self) -> Seq<u8> {
        timer_parameters(self.seconds)
    }

    fn command_type(&self) -> (t: CommandType) {
        CommandType::AcTimer
    }

    fn length(&self) -> (n: u8) {
        14
    }

    fn parameters(&self) -> (p: Vec<u8>) {
        let bytes = split_word(self.seconds);
        let p = vec![0x00, bytes.0, bytes.1, 0x00, 0x00];
        assert(p@ =~= timer_parameters(self.seconds));
        p
    }
}

/// Sets the timer after which the 12V output switches off; zero disables it.
#[derive(Debug, Clone, PartialEq, Eq)]
pub struct TwelveVoltTimerCommand {
    pub seconds: u16,
}

impl TwelveVoltTimerCommand {
    pub fn new(seconds: u16) -> (cmd: Self)
        ensures
            cmd.seconds == seconds,
    {
        Self { seconds }
    }
}

impl Command for TwelveVoltTimerCommand {
    open spec fn spec_command_type(&self) -> CommandType {
        CommandType::TwelveVoltTimer
    }

    open spec fn spec_length(&self) -> u8 {
        14
    }

    open spec fn spec_parameters(&self) -> Seq<u8> {
        timer_parameters(self.seconds)
    }

    fn command_type(&self) -> (t: CommandType) {
        CommandType::TwelveVoltTimer
    }

    fn length(&self) -> (n: u8) {
        14
    }

    fn parameters(&self) -> (p: Vec<u8>) {
        let bytes = split_word(self.seconds);
        let p = vec![0x00, bytes.0, bytes.1, 0x00, 0x00];
        assert(p@ =~= timer_parameters(self.seconds));
        p
    }
}

/// Any one of the nine commands.
#[derive(Debug, Clone, PartialEq, Eq)]
pub enum AnkerCommand {
    PowerSave(PowerSaveCommand),
    AcOutput(AcOutputCommand),
    TwelveVoltOutput(TwelveVoltOutputCommand),
    ScreenBrightness(ScreenBrightnessCommand),
    Led(LedCommand),
    RechargePower(RechargePowerCommand),
    ScreenTimeout(ScreenTimeoutCommand),
    AcTimer(AcTimerCommand),
    TwelveVoltTimer(TwelveVoltTimerCommand),
}

impl AnkerCommand {
    /// The type of the command.
    pub open spec fn spec_command_type(&self) -> CommandType {
        match self {
            AnkerCommand::PowerSave(_) => CommandType::PowerSave,
            AnkerCommand::AcOutput(_) => CommandType::AcOutput,
            AnkerCommand::TwelveVoltOutput(_) => CommandType::TwelveVoltOutput,
            AnkerCommand::ScreenBrightness(_) => CommandType::ScreenBrightness,
            AnkerCommand::Led(_) => CommandType::Led,
            AnkerCommand::RechargePower(_) => CommandType::RechargePower,
            AnkerCommand::ScreenTimeout(_) => CommandType::ScreenTimeout,
            AnkerCommand::AcTimer(_) => CommandType::AcTimer,
            AnkerCommand::TwelveVoltTimer(_) => CommandType::TwelveVoltTimer,
        }
    }

    /// The parameter bytes of the command.
    pub open spec fn spec_parameters(&self) -> Seq<u8> {
        match self {
            AnkerCommand::PowerSave(c) => switch_parameters(c.is_on),
            AnkerCommand::AcOutput(c) => switch_parameters(c.is_on),
            AnkerCommand::TwelveVoltOutput(c) => switch_parameters(c.is_on),
            AnkerCommand::ScreenBrightness(c) => level_parameters(c.spec_brightness()),
            AnkerCommand::Led(c) => level_parameters(c.spec_level()),
            AnkerCommand::RechargePower(c) => word_parameters(c.spec_watts()),
            AnkerCommand::ScreenTimeout(c) => word_parameters(c.seconds),
            AnkerCommand::AcTimer(c) => timer_parameters(c.seconds),
            AnkerCommand::TwelveVoltTimer(c) => timer_parameters(c.seconds),
        }
    }

    /// The length that the frame of the command declares: the number of
    /// bytes of the whole frame.
    pub open spec fn spec_length(&self) -> u8 {
        (9 + self.spec_parameters().len()) as u8
    }

    /// The frame of the command.
    pub open spec fn spec_frame(&self) -> Seq<u8> {
        frame(opcode_of(self.spec_command_type()), self.spec_length(), self.spec_parameters())
    }

    /// Every parameter of the command is in the range that the device
    /// accepts.
    pub open spec fn is_valid(&self) -> bool {
        match self {
            AnkerCommand::ScreenBrightness(c) => c.is_valid(),
            AnkerCommand::Led(c) => c.is_valid(),
            AnkerCommand::RechargePower(c) => c.is_valid(),
            _ => true,
        }
    }

    /// The frame of the command: header, opcode, declared length,
    /// parameters, checksum.
    pub fn to_bytes(&self) -> (out: Vec<u8>)
        ensures
            out@ == self.spec_frame(),
    {
        match self {
            AnkerCommand::PowerSave(cmd) => cmd.to_bytes(),
            AnkerCommand::AcOutput(cmd) => cmd.to_bytes(),
            AnkerCommand::TwelveVoltOutput(cmd) => cmd.to_bytes(),
            AnkerCommand::ScreenBrightness(cmd) => cmd.to_bytes(),
            AnkerCommand::Led(cmd) => cmd.to_bytes(),
            AnkerCommand::RechargePower(cmd) => cmd.to_bytes(),
            AnkerCommand::ScreenTimeout(cmd) => cmd.to_bytes(),
            AnkerCommand::AcTimer(cmd) => cmd.to_bytes(),
            AnkerCommand::TwelveVoltTimer(cmd) => cmd.to_bytes(),
        }
    }

    /// The type of the command.
    pub fn command_type(&self) -> (t: CommandType)
        ensures
            t == self.spec_command_type(),
    {
        match self {
            AnkerCommand::PowerSave(_) => CommandType::PowerSave,
            AnkerCommand::AcOutput(_) => CommandType::AcOutput,
            AnkerCommand::TwelveVoltOutput(_) => CommandType::TwelveVoltOutput,
            AnkerCommand::ScreenBrightness(_) => CommandType::ScreenBrightness,
            AnkerCommand::Led(_) => CommandType::Led,
            AnkerCommand::RechargePower(_) => CommandType::RechargePower,
            AnkerCommand::ScreenTimeout(_) => CommandType::ScreenTimeout,
            AnkerCommand::AcTimer(_) => CommandType::AcTimer,
            AnkerCommand::TwelveVoltTimer(_) => CommandType::TwelveVoltTimer,
        }
    }

    /// Every parameter of a command that exists is in the range that the
    /// device accepts: the constructors refuse the rest.
    pub(crate) fn note_valid(&self)
        ensures
            self.is_valid(),
    {
        match self {
            AnkerCommand::ScreenBrightness(cmd) => {
                let _ = cmd.brightness();
            },
            AnkerCommand::Led(cmd) => {
                let _ = cmd.level();
            },
            AnkerCommand::RechargePower(cmd) => {
                let _ = cmd.watts();
            },
            _ => {},
        }
    }
}

/// The last byte of every command frame is the checksum of all the bytes
/// before it: their sum, wrapped to eight bits.
pub proof fn lemma_frame_ends_in_checksum(command: AnkerCommand)
    ensures
        command.spec_frame().len() >= 9,
        command.spec_frame().last() == checksum(command.spec_frame().drop_last()),
        command.spec_frame().drop_last() == frame_body(
            opcode_of(command.spec_command_type()),
            command.spec_length(),
            command.spec_parameters(),
        ),
{
    let body = frame_body(
        opcode_of(command.spec_command_type()),
        command.spec_length(),
        command.spec_parameters(),
    );
    assert(command.spec_frame().drop_last() =~= body);
}

/// The length byte of every command frame is the number of bytes of the
/// frame, the byte before it is the opcode of the command, and the frame opens
/// with the fixed header.
pub proof fn lemma_frame_layout(command: AnkerCommand)
    ensures
        command.spec_frame().len() == command.spec_length(),
        command.spec_frame().subrange(0, 6) == frame_header(),
        command.spec_frame()[6] == opcode_of(command.spec_command_type()),
        command.spec_frame()[7] == command.spec_length(),
        command.spec_frame().subrange(8, command.spec_frame().len() - 1)
            == command.spec_parameters(),
{
    let f = command.spec_frame();
    assert(f.subrange(0, 6) =~= frame_header());
    assert(f.subrange(8, f.len() - 1) =~= command.spec_parameters());
}

/// The command switches something on or off.
pub open spec fn is_switch(command: AnkerCommand) -> bool {
    command is PowerSave || command is AcOutput || command is TwelveVoltOutput
}

/// Whether a switching command switches on.
pub open spec fn switches_on(command: AnkerCommand) -> bool {
    match command {
        AnkerCommand::PowerSave(c) => c.is_on,
        AnkerCommand::AcOutput(c) => c.is_on,
        AnkerCommand::TwelveVoltOutput(c) => c.is_on,
        _ => false,
    }
}

/// The frames that switch one thing on and off have the same eleven
/// bytes but for two: the parameter byte, which is 1 for on and 0 for off,
/// and the checksum, which is greater by one (modulo 256) for on.
pub proof fn lemma_switch_frames_differ_in_one_parameter(on: AnkerCommand, off: AnkerCommand)
    requires
        is_switch(on),
        is_switch(off),
        on.spec_command_type() == off.spec_command_type(),
        switches_on(on),
        !switches_on(off),
    ensures
        on.spec_frame().len() == 11,
        off.spec_frame().len() == 11,
        forall|i: int| 0 <= i < 9 ==> on.spec_frame()[i] == off.spec_frame()[i],
        on.spec_frame()[9] == 1,
        off.spec_frame()[9] == 0,
        on.spec_frame()[10] as int == (off.spec_frame()[10] + 1) % 256,
{
    let t = on.spec_command_type();
    assert(on.spec_parameters() == switch_parameters(true));
    assert(off.spec_parameters() == switch_parameters(false));
    let body_on = frame_body(opcode_of(t), 11, switch_parameters(true));
    let body_off = frame_body(opcode_of(t), 11, switch_parameters(false));
    let common = frame_header() + seq![opcode_of(t), 11u8] + seq![0x00u8];
    assert(body_on.drop_last() =~= common);
    assert(body_off.drop_last() =~= common);
    assert(byte_sum(body_on) == byte_sum(common) + 1);
    assert(byte_sum(body_off) == byte_sum(common));
}

} // verus!
