//! What the HTTP interface answers: each request body becomes a command or
//! a refusal, and each outcome of a command becomes a response.
//!
//! Status codes are plain numbers here; a refusal is the code together with
//! the body that explains it.

use crate::command::{
    command_error_text, AcOutputCommand, AcTimerCommand, AnkerCommand, CommandError, LedCommand,
    PowerSaveCommand, RechargePowerCommand, ScreenBrightnessCommand, ScreenTimeoutCommand,
    TwelveVoltOutputCommand, TwelveVoltTimerCommand,
};
use crate::device::{
    connection_state_name, device_error_text, ConnectionState, DeviceError, DeviceState,
    DeviceStateView, SetState,
};
use crate::supervisor::{write_result, AnkerDevice, WriteOutcome};
use crate::telemetry::Telemetry;
use crate::text::decimal_digits;
use vstd::prelude::*;

verus! {

/// The status of a request that names a value outside its range.
pub const BAD_REQUEST: u16 = 400;

/// The status of a request that cannot be served now: there is no link to
/// the device, the write failed, or no telemetry has come yet.
pub const SERVICE_UNAVAILABLE: u16 = 503;

/// The body of a refusal.
#[derive(Debug, Clone, PartialEq, Eq)]
pub struct ApiError {
    pub error: String,
}

/// The body of the answer to a command that was sent.
#[derive(Debug, Clone, Copy, PartialEq, Eq)]
pub struct ApiSuccess {
    pub success: bool,
}

/// The body of the answer to a status request.
#[derive(Debug, Clone, PartialEq, Eq)]
pub struct StatusResponse {
    pub connected: bool,
    pub state: String,
}

/// A request to switch something on or off.
#[derive(Debug, Clone, Copy)]
pub struct BoolRequest {
    pub is_on: bool,
}

/// A request to set the screen brightness, from 0 to 3.
#[derive(Debug, Clone, Copy)]
pub struct BrightnessRequest {
    pub level: u8,
}

/// A request to set the LED level, from 0 to 4, where 4 is the SOS mode.
#[derive(Debug, Clone, Copy)]
pub struct LedRequest {
    pub level: u8,
}

/// A request to set the recharge power in watts, from 200 to 1440.
#[derive(Debug, Clone, Copy)]
pub struct WattsRequest {
    pub watts: u16,
}

/// A request to set a timeout or a timer in seconds.
#[derive(Debug, Clone, Copy)]
pub struct SecondsRequest {
    pub seconds: u16,
}

/// The refusal of a request whose value a command does not accept.
pub fn bad_request(error: &CommandError) -> (refusal: (u16, ApiError))
    ensures
        refusal.0 == BAD_REQUEST,
        refusal.1.error@ == command_error_text(*error),
{
    (BAD_REQUEST, ApiError { error: error.message() })
}

/// The refusal of a request that failed at the link to the device. The
/// body is the message of the error.
pub fn service_unavailable(error: &DeviceError) -> (refusal: (u16, ApiError))
    ensures
        refusal.0 == SERVICE_UNAVAILABLE,
        error.has_fixed_text() ==> refusal.1.error@ == device_error_text(error.spec_kind()),
        !error.has_fixed_text() ==> refusal.1.error@.len() >= device_error_text(
            error.spec_kind(),
        ).len() && refusal.1.error@.subrange(
            0,
            device_error_text(error.spec_kind()).len() as int,
        ) == device_error_text(error.spec_kind()),
{
    (SERVICE_UNAVAILABLE, ApiError { error: error.message() })
}

/// The status of the connection: its phase by name, and whether the phase
/// is `Connected`.
pub fn get_status(state: &DeviceState) -> (response: StatusResponse)
    ensures
        response.connected == (state.connection_state == ConnectionState::Connected),
        response.state@ == connection_state_name(state.connection_state),
{
    StatusResponse {
        connected: state.connection_state.is_connected(),
        state: String::from_str(state.connection_state.as_str()),
    }
}

/// The latest telemetry, or the refusal that none has come yet.
pub fn get_telemetry(state: &DeviceState) -> (r: Result<Telemetry, (u16, ApiError)>)
    ensures
        match r {
            Ok(t) => state@.last_telemetry == Some(t@),
            Err(refusal) => state@.last_telemetry is None && refusal.0 == SERVICE_UNAVAILABLE
                && refusal.1.error@ == "No telemetry available"@,
        },
{
    match &state.last_telemetry {
        Some(t) => Ok(t.clone()),
        None => Err(
            (SERVICE_UNAVAILABLE, ApiError { error: String::from_str("No telemetry available") }),
        ),
    }
}

/// The values last commanded.
pub fn get_device_state(state: &DeviceState) -> (set_state: SetState)
    ensures
        set_state == state.set_state,
{
    state.set_state
}

/// The command that switches the power save mode.
pub fn set_power_save(req: &BoolRequest) -> (command: AnkerCommand)
    ensures
        command matches AnkerCommand::PowerSave(c) && c.is_on == req.is_on,
{
    AnkerCommand::PowerSave(PowerSaveCommand::new(req.is_on))
}

/// The command that switches the AC output.
pub fn set_ac_output(req: &BoolRequest) -> (command: AnkerCommand)
    ensures
        command matches AnkerCommand::AcOutput(c) && c.is_on == req.is_on,
{
    AnkerCommand::AcOutput(AcOutputCommand::new(req.is_on))
}

/// The command that switches the 12V output.
pub fn set_twelve_volt_output(req: &BoolRequest) -> (command: AnkerCommand)
    ensures
        command matches AnkerCommand::TwelveVoltOutput(c) && c.is_on == req.is_on,
{
    AnkerCommand::TwelveVoltOutput(TwelveVoltOutputCommand::new(req.is_on))
}

/// The command that sets the screen brightness, or status 400 for a level
/// above 3.
pub fn set_screen_brightness(req: &BrightnessRequest) -> (r: Result<AnkerCommand, (u16, ApiError)>)
    ensures
        req.level <= 3 ==> (r matches Ok(AnkerCommand::ScreenBrightness(c)) && c.spec_brightness()
            == req.level),
        req.level > 3 ==> (r matches Err(refusal) && refusal.0 == BAD_REQUEST && refusal.1.error@
            == "Invalid value: "@ + ("brightness must be 0-3, got "@ + decimal_digits(
            req.level as nat,
        ))),
{
    match ScreenBrightnessCommand::new(req.level) {
        Ok(inner) => Ok(AnkerCommand::ScreenBrightness(inner)),
        Err(e) => Err(bad_request(&e)),
    }
}

/// The command that sets the LED level, or status 400 for a level above 4.
pub fn set_led(req: &LedRequest) -> (r: Result<AnkerCommand, (u16, ApiError)>)
    ensures
        req.level <= 4 ==> (r matches Ok(AnkerCommand::Led(c)) && c.spec_level() == req.level),
        req.level > 4 ==> (r matches Err(refusal) && refusal.0 == BAD_REQUEST && refusal.1.error@
            == "Invalid value: "@ + ("LED level must be 0-4, got "@ + decimal_digits(
            req.level as nat,
        ))),
{
    match LedCommand::new(req.level) {
        Ok(inner) => Ok(AnkerCommand::Led(inner)),
        Err(e) => Err(bad_request(&e)),
    }
}

/// The command that sets the recharge power, or status 400 for a power
/// below 200 or above 1440 watts.
pub fn set_recharge_power(req: &WattsRequest) -> (r: Result<AnkerCommand, (u16, ApiError)>)
    ensures
        200 <= req.watts <= 1440 ==> (r matches Ok(AnkerCommand::RechargePower(c)) && c.spec_watts()
            == req.watts),
        !(200 <= req.watts <= 1440) ==> (r matches Err(refusal) && refusal.0 == BAD_REQUEST
            && refusal.1.error@ == "Invalid value: "@ + ("recharge power must be 200-1440, got "@
            + decimal_digits(req.watts as nat))),
{
    match RechargePowerCommand::new(req.watts) {
        Ok(inner) => Ok(AnkerCommand::RechargePower(inner)),
        Err(e) => Err(bad_request(&e)),
    }
}

/// The command that sets the screen timeout.
pub fn set_screen_timeout(req: &SecondsRequest) -> (command: AnkerCommand)
    ensures
        command matches AnkerCommand::ScreenTimeout(c) && c.seconds == req.seconds,
{
    AnkerCommand::ScreenTimeout(ScreenTimeoutCommand::new(req.seconds))
}

/// The command that sets the AC timer.
pub fn set_ac_timer(req: &SecondsRequest) -> (command: AnkerCommand)
    ensures
        command matches AnkerCommand::AcTimer(c) && c.seconds == req.seconds,
{
    AnkerCommand::AcTimer(AcTimerCommand::new(req.seconds))
}

/// The command that sets the 12V timer.
pub fn set_twelve_volt_timer(req: &SecondsRequest) -> (command: AnkerCommand)
    ensures
        command matches AnkerCommand::TwelveVoltTimer(c) && c.seconds == req.seconds,
{
    AnkerCommand::TwelveVoltTimer(TwelveVoltTimerCommand::new(req.seconds))
}

/// The answer to a command once its write has ended. A write that
/// succeeded is noted among the values last commanded and answered with
/// success; every other is answered with status 503 and the text of the
/// error, and the device state stays as it was.
pub fn send_and_track(device: &mut AnkerDevice, command: &AnkerCommand, outcome: WriteOutcome) -> (r:
    Result<ApiSuccess, (u16, ApiError)>)
    ensures
        final(device).spec_stage() == old(device).spec_stage(),
        match r {
            Ok(answer) => answer.success && write_result(old(device).spec_stage(), outcome) is Ok
                && final(device).spec_state() == (DeviceStateView {
                set_state: old(device).spec_state().set_state.recorded(*command),
                ..old(device).spec_state()
            }),
            Err(refusal) => write_result(old(device).spec_stage(), outcome) is Err
                && final(device).spec_state() == old(device).spec_state() && refusal.0
                == SERVICE_UNAVAILABLE && refusal.1.error@ == device_error_text(
                write_result(old(device).spec_stage(), outcome)->Err_0,
            ),
        },
{
    match device.complete_command(outcome) {
        Ok(()) => {
            device.record_command(command);
            Ok(ApiSuccess { success: true })
        },
        Err(e) => Err(service_unavailable(&e)),
    }
}

} // verus!
