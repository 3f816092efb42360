//! A dialog from its order to its end.

use vstd::prelude::*;

use crate::cli::dialog;
use crate::cli::dialog::{
    ask, bho_toggled, edit_curve, fan_curve_written, fetch_desired, misused, power_mode_refused,
    power_mode_written, quiet, read_actual_fan_rpm, read_bho, read_brightness, read_charger,
    read_custom_cpu, read_custom_gpu, read_desired_boost, read_desired_brightness,
    read_desired_fan, read_desired_fan_curve, read_desired_logo, read_desired_power, read_ec_bho,
    read_ec_boost, read_ec_brightness, read_ec_power, read_fan_curve, read_fan_rpm,
    read_gpu_status, read_logo_mode, read_power_mode, read_stored_boost, say, write_brightness,
    write_fan_speed, write_logo_mode, Errand, NextView, Order, ReadSource, Turn, TurnView,
};
use crate::cli::request;
use crate::cli::request::{
    byte_argument, validate_and_write_bho, write_pwr_mode, AcState, OnOff, ProfileArg,
};
use crate::cli::show;
use crate::cli::show::LineView;
use crate::cli::status;
use crate::cli::status::{
    show_boost_row, show_brightness_row, show_domain, show_fan_row, show_head, show_limit_row,
    show_logo_row, show_power_row,
};
use crate::comms::{DaemonCommand, DaemonResponse};

verus! {

/// The dialog goes on with a request after some lines of output.
pub open spec fn tells(lines: Seq<LineView>, next: NextView) -> TurnView {
    TurnView { lines, next }
}

/// How the overview goes on, answer by answer: the state that should hold, the
/// charger, zone 1, both boosts, the brightness, both tachometers, the
/// setpoint and the charge limit.
pub open spec fn overview(errand: Errand, response: Option<DaemonResponse>) -> TurnView {
    match errand {
        Errand::StatusDesired => match dialog::desired_in(response) {
            Some(d) => dialog::asks(DaemonCommand::GetCharger, Errand::StatusCharger { d }),
            None => dialog::no_desired(response),
        },
        Errand::StatusCharger { d } => dialog::asks(
            DaemonCommand::GetEcPowerZone { zone: 1 },
            Errand::StatusZone { d, charger: charger_in(response) },
        ),
        Errand::StatusZone { d, charger } => tells(
            seq![
                show::output(status::head_row()),
                show::output(status::domain_row(d, charger)),
                show::output(status::power_row(d, zone_in(response))),
            ],
            NextView::Ask {
                command: DaemonCommand::GetEcBoost { gpu: false },
                errand: Errand::StatusCpu { d, zone: zone_in(response) },
            },
        ),
        Errand::StatusCpu { d, zone } => dialog::asks(
            DaemonCommand::GetEcBoost { gpu: true },
            Errand::StatusGpu { d, zone, cpu: boost_in(response) },
        ),
        Errand::StatusGpu { d, zone, cpu } => tells(
            seq![show::output(status::boost_row(d, cpu, boost_in(response)))],
            NextView::Ask {
                command: DaemonCommand::GetEcBrightness,
                errand: Errand::StatusBrightness { d, zone },
            },
        ),
        Errand::StatusBrightness { d, zone } => tells(
            seq![show::output(status::brightness_row(d, brightness_in(response)))],
            NextView::Ask {
                command: DaemonCommand::GetEcFanTach { zone: 1 },
                errand: Errand::StatusTach1 { d, zone },
            },
        ),
        Errand::StatusTach1 { d, zone } => dialog::asks(
            DaemonCommand::GetEcFanTach { zone: 2 },
            Errand::StatusTach2 { d, zone, tach: tach_in(response) },
        ),
        Errand::StatusTach2 { d, zone, tach } => dialog::asks(
            DaemonCommand::GetEcFanSetpoint { zone: 1 },
            Errand::StatusSetpoint { d, zone, tachs: (tach, tach_in(response)) },
        ),
        Errand::StatusSetpoint { d, zone, tachs } => tells(
            seq![show::output(status::fan_row(d, zone, tachs, setpoint_in(response)))],
            NextView::Ask { command: DaemonCommand::GetEcBho, errand: Errand::StatusBho { d } },
        ),
        Errand::StatusBho { d } => tells(
            seq![
                show::output(status::limit_row(d, limit_in(response))),
                show::output(status::logo_row(d)),
            ],
            NextView::Done { failed: false },
        ),
        _ => dialog::silence(),
    }
}

pub open spec fn charger_in(response: Option<DaemonResponse>) -> Option<u8> {
    match response {
        Some(DaemonResponse::GetCharger { actp }) => actp,
        _ => None,
    }
}

pub open spec fn zone_in(response: Option<DaemonResponse>) -> Option<(u8, u8)> {
    match response {
        Some(DaemonResponse::GetEcPowerZone { mode }) => mode,
        _ => None,
    }
}

pub open spec fn boost_in(response: Option<DaemonResponse>) -> Option<u8> {
    match response {
        Some(DaemonResponse::GetEcBoost { value }) => value,
        _ => None,
    }
}

pub open spec fn brightness_in(response: Option<DaemonResponse>) -> Option<u8> {
    match response {
        Some(DaemonResponse::GetEcBrightness { value }) => value,
        _ => None,
    }
}

pub open spec fn tach_in(response: Option<DaemonResponse>) -> Option<u16> {
    match response {
        Some(DaemonResponse::GetEcFanTach { rpm }) => rpm,
        _ => None,
    }
}

pub open spec fn setpoint_in(response: Option<DaemonResponse>) -> Option<u16> {
    match response {
        Some(DaemonResponse::GetEcFanSetpoint { rpm }) => rpm,
        _ => None,
    }
}

pub open spec fn limit_in(response: Option<DaemonResponse>) -> Option<(bool, u8)> {
    match response {
        Some(DaemonResponse::GetEcBho { state }) => state,
        _ => None,
    }
}

fn charger_of(response: &Option<DaemonResponse>) -> (r: Option<u8>)
    ensures
        r == charger_in(*response),
{
    match response {
        Some(DaemonResponse::GetCharger { actp }) => *actp,
        _ => None,
    }
}

fn zone_of(response: &Option<DaemonResponse>) -> (r: Option<(u8, u8)>)
    ensures
        r == zone_in(*response),
{
    match response {
        Some(DaemonResponse::GetEcPowerZone { mode }) => *mode,
        _ => None,
    }
}

fn boost_of(response: &Option<DaemonResponse>) -> (r: Option<u8>)
    ensures
        r == boost_in(*response),
{
    match response {
        Some(DaemonResponse::GetEcBoost { value }) => *value,
        _ => None,
    }
}

fn brightness_of(response: &Option<DaemonResponse>) -> (r: Option<u8>)
    ensures
        r == brightness_in(*response),
{
    match response {
        Some(DaemonResponse::GetEcBrightness { value }) => *value,
        _ => None,
    }
}

fn tach_of(response: &Option<DaemonResponse>) -> (r: Option<u16>)
    ensures
        r == tach_in(*response),
{
    match response {
        Some(DaemonResponse::GetEcFanTach { rpm }) => *rpm,
        _ => None,
    }
}

fn setpoint_of(response: &Option<DaemonResponse>) -> (r: Option<u16>)
    ensures
        r == setpoint_in(*response),
{
    match response {
        Some(DaemonResponse::GetEcFanSetpoint { rpm }) => *rpm,
        _ => None,
    }
}

fn limit_of(response: &Option<DaemonResponse>) -> (r: Option<(bool, u8)>)
    ensures
        r == limit_in(*response),
{
    match response {
        Some(DaemonResponse::GetEcBho { state }) => *state,
        _ => None,
    }
}

/// Takes the overview one turn further.
pub fn status(errand: Errand, response: &Option<DaemonResponse>) -> (t: Turn)
    ensures
        t@ == overview(errand, *response),
{
    let ghost awaited = errand;
    match errand {
        Errand::StatusDesired => match fetch_desired(response) {
            Ok(d) => ask(DaemonCommand::GetCharger, Errand::StatusCharger { d }),
            Err(t) => t,
        },
        Errand::StatusCharger { d } => ask(
            DaemonCommand::GetEcPowerZone { zone: 1 },
            Errand::StatusZone { d, charger: charger_of(response) },
        ),
        Errand::StatusZone { d, charger } => {
            let zone = zone_of(response);
            let mut t = ask(
                DaemonCommand::GetEcBoost { gpu: false },
                Errand::StatusCpu { d, zone },
            );
            t.print(show_head());
            t.print(show_domain(&d, charger));
            t.print(show_power_row(&d, zone));
            assert(t@.lines =~= overview(awaited, *response).lines);
            t
        },
        Errand::StatusCpu { d, zone } => ask(
            DaemonCommand::GetEcBoost { gpu: true },
            Errand::StatusGpu { d, zone, cpu: boost_of(response) },
        ),
        Errand::StatusGpu { d, zone, cpu } => {
            let mut t = ask(
                DaemonCommand::GetEcBrightness,
                Errand::StatusBrightness { d, zone },
            );
            t.print(show_boost_row(&d, cpu, boost_of(response)));
            assert(t@.lines =~= overview(awaited, *response).lines);
            t
        },
        Errand::StatusBrightness { d, zone } => {
            let mut t = ask(
                DaemonCommand::GetEcFanTach { zone: 1 },
                Errand::StatusTach1 { d, zone },
            );
            t.print(show_brightness_row(&d, brightness_of(response)));
            assert(t@.lines =~= overview(awaited, *response).lines);
            t
        },
        Errand::StatusTach1 { d, zone } => ask(
            DaemonCommand::GetEcFanTach { zone: 2 },
            Errand::StatusTach2 { d, zone, tach: tach_of(response) },
        ),
        Errand::StatusTach2 { d, zone, tach } => ask(
            DaemonCommand::GetEcFanSetpoint { zone: 1 },
            Errand::StatusSetpoint { d, zone, tachs: (tach, tach_of(response)) },
        ),
        Errand::StatusSetpoint { d, zone, tachs } => {
            let mut t = ask(DaemonCommand::GetEcBho, Errand::StatusBho { d });
            t.print(show_fan_row(&d, zone, tachs, setpoint_of(response)));
            assert(t@.lines =~= overview(awaited, *response).lines);
            t
        },
        Errand::StatusBho { d } => {
            let mut t = quiet();
            t.print(show_limit_row(&d, limit_of(response)));
            t.print(show_logo_row(&d));
            assert(t@.lines =~= overview(awaited, *response).lines);
            t
        },
        _ => quiet(),
    }
}

/// What is asked for a value that can come from either slot, from the
/// controller, or from what should hold.
pub open spec fn asked_from(
    source: Option<ReadSource>,
    desired: Errand,
    stored: (DaemonCommand, DaemonCommand, Errand),
    live: (DaemonCommand, Errand),
) -> TurnView {
    match source {
        None => dialog::asks(DaemonCommand::GetDesiredState, desired),
        Some(ReadSource::Bat) => dialog::asks(stored.0, stored.2),
        Some(ReadSource::Ac) => dialog::asks(stored.1, stored.2),
        Some(ReadSource::Ec) => dialog::asks(live.0, live.1),
    }
}

/// How a dialog opens.
pub open spec fn opening(order: Order) -> TurnView {
    match order {
        Order::Status => dialog::asks(DaemonCommand::GetDesiredState, Errand::StatusDesired),
        Order::ReadFan { source } => asked_from(
            source,
            Errand::DesiredFan,
            (
                DaemonCommand::GetFanSpeed { ac: 0 },
                DaemonCommand::GetFanSpeed { ac: 1 },
                Errand::StoredFan,
            ),
            (DaemonCommand::GetActualFanRpm, Errand::ActualFan),
        ),
        Order::ReadPower { source, zone } => match source {
            Some(ReadSource::Bat) => dialog::asks(
                DaemonCommand::GetPwrLevel { ac: 0 },
                Errand::StoredPower { ac: 0 },
            ),
            Some(ReadSource::Ac) => dialog::asks(
                DaemonCommand::GetPwrLevel { ac: 1 },
                Errand::StoredPower { ac: 1 },
            ),
            Some(ReadSource::Ec) => dialog::asks(
                DaemonCommand::GetEcPowerZone { zone },
                Errand::EcPower { zone },
            ),
            None => dialog::asks(DaemonCommand::GetDesiredState, Errand::DesiredPower),
        },
        Order::ReadBrightness { source } => asked_from(
            source,
            Errand::DesiredBrightness,
            (
                DaemonCommand::GetBrightness { ac: 0 },
                DaemonCommand::GetBrightness { ac: 1 },
                Errand::StoredBrightness,
            ),
            (DaemonCommand::GetEcBrightness, Errand::EcBrightness),
        ),
        Order::ReadLogo { source } => match source {
            Some(ReadSource::Ec) => dialog::says(
                "not readable on the 2025 EC [measured: state getter NOT_SUPPORTED]"@,
            ),
            Some(ReadSource::Bat) => dialog::asks(
                DaemonCommand::GetLogoLedState { ac: 0 },
                Errand::StoredLogo,
            ),
            Some(ReadSource::Ac) => dialog::asks(
                DaemonCommand::GetLogoLedState { ac: 1 },
                Errand::StoredLogo,
            ),
            None => dialog::asks(DaemonCommand::GetDesiredState, Errand::DesiredLogo),
        },
        Order::ReadBho { live } => if live {
            dialog::asks(DaemonCommand::GetEcBho, Errand::EcBho)
        } else {
            dialog::asks(DaemonCommand::GetBatteryHealthOptimizer, Errand::StoredBho)
        },
        Order::ReadBoost { gpu, source } => asked_from(
            source,
            Errand::DesiredBoost { gpu },
            if gpu {
                (
                    DaemonCommand::GetGPUBoost { ac: 0 },
                    DaemonCommand::GetGPUBoost { ac: 1 },
                    Errand::StoredBoost { gpu },
                )
            } else {
                (
                    DaemonCommand::GetCPUBoost { ac: 0 },
                    DaemonCommand::GetCPUBoost { ac: 1 },
                    Errand::StoredBoost { gpu },
                )
            },
            (DaemonCommand::GetEcBoost { gpu }, Errand::EcBoost),
        ),
        Order::ReadFanRpm => dialog::asks(DaemonCommand::GetActualFanRpm, Errand::ActualFan),
        Order::ReadGpu => dialog::asks(DaemonCommand::GetGpuStatus, Errand::GpuList),
        Order::ReadFanCurve { ac_state } => match ac_state {
            Some(a) => dialog::asks(
                DaemonCommand::GetFanCurve { ac: a.slot() },
                Errand::StoredCurve,
            ),
            None => dialog::asks(DaemonCommand::GetDesiredState, Errand::DesiredFanCurve),
        },
        Order::ReadCharger => dialog::asks(DaemonCommand::GetCharger, Errand::Charger),
        Order::WriteFan { ac_state, speed } => dialog::asks(
            DaemonCommand::SetFanSpeed { ac: ac_state.slot(), rpm: speed },
            Errand::FanWritten { ac: ac_state.slot(), rpm: speed },
        ),
        Order::WritePower { ac_state, profile, cpu, gpu } => match request::power_fault(
            ac_state.slot(),
            profile,
            cpu,
            gpu,
        ) {
            Some((kind, message)) => dialog::misuse(kind, message),
            None => dialog::asks(
                request::power_request(ac_state.slot(), profile, cpu, gpu),
                Errand::PowerWritten { ac: ac_state.slot() },
            ),
        },
        Order::WriteBrightness { ac_state, brightness } => dialog::asks(
            DaemonCommand::SetBrightness { ac: ac_state.slot(), val: (brightness % 256) as u8 },
            Errand::BrightnessWritten { ac: ac_state.slot() },
        ),
        Order::WriteLogo { ac_state, logo_state } => dialog::asks(
            DaemonCommand::SetLogoLedState {
                ac: ac_state.slot(),
                logo_state: (logo_state % 256) as u8,
            },
            Errand::LogoWritten { ac: ac_state.slot() },
        ),
        Order::WriteBho { state, threshold } => match request::limit_fault(threshold, state) {
            Some((kind, message)) => dialog::misuse(kind, message),
            None => dialog::asks(
                request::limit_request(threshold, state),
                Errand::BhoWritten {
                    on: state is On,
                    threshold: request::limit_asked(threshold, state),
                },
            ),
        },
        Order::WriteFanCurve(params) => dialog::asks(
            DaemonCommand::GetFanCurve { ac: params.ac_state.slot() },
            Errand::CurveToEdit { params },
        ),
    }
}

fn begin_read_power(source: Option<ReadSource>, zone: u8) -> (t: Turn)
    ensures
        t@ == opening(Order::ReadPower { source, zone }),
{
    match source {
        None => ask(DaemonCommand::GetDesiredState, Errand::DesiredPower),
        Some(ReadSource::Bat) => ask(
            DaemonCommand::GetPwrLevel { ac: 0 },
            Errand::StoredPower { ac: 0 },
        ),
        Some(ReadSource::Ac) => ask(
            DaemonCommand::GetPwrLevel { ac: 1 },
            Errand::StoredPower { ac: 1 },
        ),
        Some(ReadSource::Ec) => ask(
            DaemonCommand::GetEcPowerZone { zone },
            Errand::EcPower { zone },
        ),
    }
}

fn begin_read_boost(gpu: bool, source: Option<ReadSource>) -> (t: Turn)
    ensures
        t@ == opening(Order::ReadBoost { gpu, source }),
{
    match source {
        None => ask(DaemonCommand::GetDesiredState, Errand::DesiredBoost { gpu }),
        Some(ReadSource::Ec) => ask(DaemonCommand::GetEcBoost { gpu }, Errand::EcBoost),
        Some(slot) => {
            let ac: usize = match slot {
                ReadSource::Bat => 0,
                _ => 1,
            };
            if gpu {
                ask(DaemonCommand::GetGPUBoost { ac }, Errand::StoredBoost { gpu })
            } else {
                ask(DaemonCommand::GetCPUBoost { ac }, Errand::StoredBoost { gpu })
            }
        },
    }
}

fn begin_write_power(
    ac_state: AcState,
    profile: ProfileArg,
    cpu: Option<u8>,
    gpu: Option<u8>,
) -> (t: Turn)
    ensures
        t@ == opening(Order::WritePower { ac_state, profile, cpu, gpu }),
{
    let ac = ac_state.as_index();
    match write_pwr_mode(ac, profile, cpu, gpu) {
        Ok(command) => ask(command, Errand::PowerWritten { ac }),
        Err(e) => misused(e),
    }
}

fn begin_write_bho(state: OnOff, threshold: Option<u8>) -> (t: Turn)
    ensures
        t@ == opening(Order::WriteBho { state, threshold }),
{
    match validate_and_write_bho(threshold, state) {
        Ok(command) => {
            let asked: u8 = match threshold {
                Some(t) => {
                    if state.is_on() {
                        t
                    } else {
                        80
                    }
                },
                None => 80,
            };
            ask(command, Errand::BhoWritten { on: state.is_on(), threshold: asked })
        },
        Err(e) => misused(e),
    }
}

/// Opens a dialog.
pub fn begin(order: Order) -> (t: Turn)
    ensures
        t@ == opening(order),
{
    match order {
        Order::Status => ask(DaemonCommand::GetDesiredState, Errand::StatusDesired),
        Order::ReadFan { source } => match source {
            None => ask(DaemonCommand::GetDesiredState, Errand::DesiredFan),
            Some(ReadSource::Bat) => ask(DaemonCommand::GetFanSpeed { ac: 0 }, Errand::StoredFan),
            Some(ReadSource::Ac) => ask(DaemonCommand::GetFanSpeed { ac: 1 }, Errand::StoredFan),
            Some(ReadSource::Ec) => ask(DaemonCommand::GetActualFanRpm, Errand::ActualFan),
        },
        Order::ReadPower { source, zone } => begin_read_power(source, zone),
        Order::ReadBrightness { source } => match source {
            None => ask(DaemonCommand::GetDesiredState, Errand::DesiredBrightness),
            Some(ReadSource::Bat) => ask(
                DaemonCommand::GetBrightness { ac: 0 },
                Errand::StoredBrightness,
            ),
            Some(ReadSource::Ac) => ask(
                DaemonCommand::GetBrightness { ac: 1 },
                Errand::StoredBrightness,
            ),
            Some(ReadSource::Ec) => ask(DaemonCommand::GetEcBrightness, Errand::EcBrightness),
        },
        Order::ReadLogo { source } => match source {
            None => ask(DaemonCommand::GetDesiredState, Errand::DesiredLogo),
            Some(ReadSource::Bat) => ask(
                DaemonCommand::GetLogoLedState { ac: 0 },
                Errand::StoredLogo,
            ),
            Some(ReadSource::Ac) => ask(
                DaemonCommand::GetLogoLedState { ac: 1 },
                Errand::StoredLogo,
            ),
            Some(ReadSource::Ec) => say(
                "not readable on the 2025 EC [measured: state getter NOT_SUPPORTED]".to_owned(),
            ),
        },
        Order::ReadBho { live } => {
            if live {
                ask(DaemonCommand::GetEcBho, Errand::EcBho)
            } else {
                ask(DaemonCommand::GetBatteryHealthOptimizer, Errand::StoredBho)
            }
        },
        Order::ReadBoost { gpu, source } => begin_read_boost(gpu, source),
        Order::ReadFanRpm => ask(DaemonCommand::GetActualFanRpm, Errand::ActualFan),
        Order::ReadGpu => ask(DaemonCommand::GetGpuStatus, Errand::GpuList),
        Order::ReadFanCurve { ac_state } => match ac_state {
            Some(a) => ask(DaemonCommand::GetFanCurve { ac: a.as_index() }, Errand::StoredCurve),
            None => ask(DaemonCommand::GetDesiredState, Errand::DesiredFanCurve),
        },
        Order::ReadCharger => ask(DaemonCommand::GetCharger, Errand::Charger),
        Order::WriteFan { ac_state, speed } => {
            let ac = ac_state.as_index();
            ask(
                DaemonCommand::SetFanSpeed { ac, rpm: speed },
                Errand::FanWritten { ac, rpm: speed },
            )
        },
        Order::WritePower { ac_state, profile, cpu, gpu } => begin_write_power(
            ac_state,
            profile,
            cpu,
            gpu,
        ),
        Order::WriteBrightness { ac_state, brightness } => {
            let ac = ac_state.as_index();
            ask(
                DaemonCommand::SetBrightness { ac, val: byte_argument(brightness) },
                Errand::BrightnessWritten { ac },
            )
        },
        Order::WriteLogo { ac_state, logo_state } => {
            let ac = ac_state.as_index();
            ask(
                DaemonCommand::SetLogoLedState { ac, logo_state: byte_argument(logo_state) },
                Errand::LogoWritten { ac },
            )
        },
        Order::WriteBho { state, threshold } => begin_write_bho(state, threshold),
        Order::WriteFanCurve(params) => ask(
            DaemonCommand::GetFanCurve { ac: params.ac_state.as_index() },
            Errand::CurveToEdit { params },
        ),
    }
}

/// How a dialog goes on after an answer, or after none.
pub open spec fn answered(errand: Errand, response: Option<DaemonResponse>) -> TurnView {
    match errand {
        Errand::DesiredPower => dialog::desired_power(response),
        Errand::DesiredBoost { gpu } => dialog::desired_boost(gpu, response),
        Errand::DesiredBrightness => dialog::desired_brightness(response),
        Errand::DesiredLogo => dialog::desired_logo(response),
        Errand::DesiredFan => dialog::desired_fan(response),
        Errand::DesiredFanCurve => dialog::desired_fan_curve(response),
        Errand::StoredPower { ac } => dialog::stored_power(ac, response),
        Errand::CustomCpu { ac } => dialog::custom_cpu(ac, response),
        Errand::CustomGpu => dialog::custom_gpu(response),
        Errand::StoredBoost { gpu } => dialog::stored_boost(gpu, response),
        Errand::StoredBrightness => dialog::stored_brightness(response),
        Errand::StoredLogo => dialog::stored_logo(response),
        Errand::StoredFan => dialog::stored_fan(response),
        Errand::StoredBho => dialog::stored_bho(response),
        Errand::StoredCurve => dialog::stored_curve(response),
        Errand::EcPower { zone } => dialog::ec_power(zone, response),
        Errand::EcBoost => dialog::ec_boost(response),
        Errand::EcBrightness => dialog::ec_brightness(response),
        Errand::EcBho => dialog::ec_bho(response),
        Errand::ActualFan => dialog::actual_fan(response),
        Errand::GpuList => dialog::gpu_list(response),
        Errand::Charger => dialog::charger(response),
        Errand::FanWritten { ac, rpm } => dialog::fan_written(ac, rpm, response),
        Errand::PowerWritten { ac } => dialog::power_written(ac, response),
        Errand::PowerOffer => dialog::power_offer(response),
        Errand::BrightnessWritten { ac } => dialog::brightness_written(ac, response),
        Errand::LogoWritten { ac } => dialog::logo_written(ac, response),
        Errand::BhoWritten { on, threshold } => dialog::bho_written(on, threshold, response),
        Errand::CurveToEdit { params } => dialog::edited_curve(params, response),
        Errand::CurveWritten { ac } => dialog::curve_written(ac, response),
        _ => overview(errand, response),
    }
}

/// Takes a dialog one turn further.
pub fn answer(errand: Errand, response: Option<DaemonResponse>) -> (t: Turn)
    ensures
        t@ == answered(errand, response),
{
    match errand {
        Errand::DesiredPower => read_desired_power(&response),
        Errand::DesiredBoost { gpu } => read_desired_boost(gpu, &response),
        Errand::DesiredBrightness => read_desired_brightness(&response),
        Errand::DesiredLogo => read_desired_logo(&response),
        Errand::DesiredFan => read_desired_fan(&response),
        Errand::DesiredFanCurve => read_desired_fan_curve(&response),
        Errand::StoredPower { ac } => read_power_mode(ac, &response),
        Errand::CustomCpu { ac } => read_custom_cpu(ac, &response),
        Errand::CustomGpu => read_custom_gpu(&response),
        Errand::StoredBoost { gpu } => read_stored_boost(gpu, &response),
        Errand::StoredBrightness => read_brightness(&response),
        Errand::StoredLogo => read_logo_mode(&response),
        Errand::StoredFan => read_fan_rpm(&response),
        Errand::StoredBho => read_bho(&response),
        Errand::StoredCurve => read_fan_curve(response),
        Errand::EcPower { zone } => read_ec_power(zone, &response),
        Errand::EcBoost => read_ec_boost(&response),
        Errand::EcBrightness => read_ec_brightness(&response),
        Errand::EcBho => read_ec_bho(&response),
        Errand::ActualFan => read_actual_fan_rpm(&response),
        Errand::GpuList => read_gpu_status(&response),
        Errand::Charger => read_charger(&response),
        Errand::FanWritten { ac, rpm } => write_fan_speed(ac, rpm, &response),
        Errand::PowerWritten { ac } => power_mode_written(ac, &response),
        Errand::PowerOffer => power_mode_refused(&response),
        Errand::BrightnessWritten { ac } => write_brightness(ac, &response),
        Errand::LogoWritten { ac } => write_logo_mode(ac, &response),
        Errand::BhoWritten { on, threshold } => bho_toggled(on, threshold, &response),
        Errand::CurveToEdit { params } => edit_curve(params, response),
        Errand::CurveWritten { ac } => fan_curve_written(ac, &response),
        other => status(other, &response),
    }
}

/// How many answers a dialog can still await, at most.
pub open spec fn turns_left(errand: Errand) -> nat {
    match errand {
        Errand::StatusDesired => 10,
        Errand::StatusCharger { .. } => 9,
        Errand::StatusZone { .. } => 8,
        Errand::StatusCpu { .. } => 7,
        Errand::StatusGpu { .. } => 6,
        Errand::StatusBrightness { .. } => 5,
        Errand::StatusTach1 { .. } => 4,
        Errand::StatusTach2 { .. } => 3,
        Errand::StatusSetpoint { .. } => 2,
        Errand::PowerWritten { .. } => 4,
        Errand::StoredPower { .. } => 3,
        Errand::CustomCpu { .. } => 2,
        Errand::CurveToEdit { .. } => 3,
        Errand::CurveWritten { .. } => 2,
        Errand::DesiredFanCurve => 2,
        Errand::FanWritten { .. } => 2,
        Errand::BrightnessWritten { .. } => 2,
        Errand::LogoWritten { .. } => 2,
        _ => 1,
    }
}

/// Every dialog comes to an end: with each answer, or the lack of one, fewer
/// are left to await, and none awaits more than ten.
pub proof fn dialogs_end(order: Order, errand: Errand, response: Option<DaemonResponse>)
    ensures
        opening(order).next matches NextView::Ask { errand: first, .. } ==> turns_left(first) <= 10,
        answered(errand, response).next matches NextView::Ask { errand: following, .. }
            ==> turns_left(following) < turns_left(errand),
        answered(errand, response).next is AskCurve ==> turns_left(
            Errand::CurveWritten { ac: 0 },
        ) < turns_left(errand),
{
}

/// A dialog whose arguments make no sense never reaches the daemon, and only a
/// power request or a charge limit can be refused that way at the start.
pub proof fn misuse_is_caught_first(order: Order)
    ensures
        opening(order).next is Usage <==> {
            ||| order matches Order::WritePower { ac_state, profile, cpu, gpu }
                && request::power_fault(ac_state.slot(), profile, cpu, gpu) is Some
            ||| order matches Order::WriteBho { state, threshold } && request::limit_fault(
                threshold,
                state,
            ) is Some
        },
{
}

} // verus!
