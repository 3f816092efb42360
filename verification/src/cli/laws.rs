//! What the client asks for and what it shows: each order reaches the slot, the
//! zone and the value that it names, and each answer is shown as it came.

use vstd::prelude::*;

use crate::cli::dialog::{Errand, NextView, Order, ReadSource, TurnView};
use crate::cli::points;
use crate::cli::points::FanCurveParams;
use crate::cli::request::{AcState, CurveSourceArg, OnOff, ProfileArg};
use crate::cli::session;
use crate::cli::show;
use crate::cli::status;
use crate::comms::{
    ChargerDomainWire, CurveTempSource, DaemonCommand, DaemonResponse, DesiredStateWire, FanCurve,
    GpuInfo,
};
use crate::text;

verus! {

/// The turn asks for `command` on behalf of `errand` and prints nothing.
pub open spec fn asks_for(t: TurnView, command: DaemonCommand, errand: Errand) -> bool {
    &&& t.lines.len() == 0
    &&& t.next == NextView::Ask { command, errand }
}

/// The turn prints `line` and ends the dialog.
pub open spec fn prints(t: TurnView, line: Seq<char>) -> bool {
    &&& t.lines.len() == 1
    &&& !t.lines[0].error
    &&& t.lines[0].text == line
    &&& t.next == NextView::Done { failed: false }
}

/// The slot that a source of readings names.
pub open spec fn slot_named(source: ReadSource) -> usize {
    if source is Ac {
        1
    } else {
        0
    }
}

/// A reading of a stored fan speed asks for that slot and shows the speed.
pub proof fn a_stored_speed_is_shown(source: ReadSource, rpm: i32)
    requires
        source is Bat || source is Ac,
    ensures
        ({
            let t = session::opening(Order::ReadFan { source: Some(source) });
            let ac = slot_named(source);
            let shown = session::answered(
                Errand::StoredFan,
                Some(DaemonResponse::GetFanSpeed { rpm }),
            );
            &&& asks_for(t, DaemonCommand::GetFanSpeed { ac }, Errand::StoredFan)
            &&& rpm == 0 ==> prints(shown, "Auto (0)"@)
            &&& rpm > 0 ==> prints(shown, text::signed_dec(rpm as int) + " RPM"@)
            &&& rpm < 0 ==> prints(shown, "Unknown"@)
        }),
{
}

/// A reading of a stored brightness asks for that slot and shows the percentage.
pub proof fn a_stored_brightness_is_shown(source: ReadSource, result: u8)
    requires
        source is Bat || source is Ac,
    ensures
        ({
            let t = session::opening(Order::ReadBrightness { source: Some(source) });
            let ac = slot_named(source);
            let r = Some(DaemonResponse::GetBrightness { result });
            &&& asks_for(t, DaemonCommand::GetBrightness { ac }, Errand::StoredBrightness)
            &&& prints(session::answered(Errand::StoredBrightness, r), text::dec(result as nat))
        }),
{
}

/// A reading of a stored logo state asks for that slot and names the state.
pub proof fn a_stored_logo_is_shown(source: ReadSource, logo_state: u8)
    requires
        source is Bat || source is Ac,
    ensures
        ({
            let t = session::opening(Order::ReadLogo { source: Some(source) });
            let ac = slot_named(source);
            let shown = session::answered(
                Errand::StoredLogo,
                Some(DaemonResponse::GetLogoLedState { logo_state }),
            );
            &&& asks_for(t, DaemonCommand::GetLogoLedState { ac }, Errand::StoredLogo)
            &&& logo_state == 0 ==> prints(shown, "Off"@)
            &&& logo_state == 1 ==> prints(shown, "On"@)
            &&& logo_state == 2 ==> prints(shown, "Breathing"@)
            &&& logo_state > 2 ==> prints(shown, "Unknown"@)
        }),
{
}

/// A boost tier as it is shown: its number and its name.
pub open spec fn tier_shown(v: u8, line: Seq<char>) -> bool {
    &&& v == 0 ==> line == text::dec(0) + " ("@ + "Low"@ + ")"@
    &&& v == 1 ==> line == text::dec(1) + " ("@ + "Medium"@ + ")"@
    &&& v == 2 ==> line == text::dec(2) + " ("@ + "High"@ + ")"@
    &&& v == 3 ==> line == text::dec(3) + " ("@ + "Max"@ + ")"@
    &&& v > 3 ==> line == text::dec(v as nat) + " ("@ + "Unknown"@ + ")"@
}

/// A reading of a stored boost tier asks for the one of CPU or GPU in that slot
/// and shows it.
pub proof fn a_stored_tier_is_shown(source: ReadSource, v: u8)
    requires
        source is Bat || source is Ac,
    ensures
        ({
            let ac = slot_named(source);
            let cpu = session::opening(Order::ReadBoost { gpu: false, source: Some(source) });
            let gpu = session::opening(Order::ReadBoost { gpu: true, source: Some(source) });
            let c = session::answered(
                Errand::StoredBoost { gpu: false },
                Some(DaemonResponse::GetCPUBoost { cpu: v }),
            );
            let g = session::answered(
                Errand::StoredBoost { gpu: true },
                Some(DaemonResponse::GetGPUBoost { gpu: v }),
            );
            &&& asks_for(cpu, DaemonCommand::GetCPUBoost { ac }, Errand::StoredBoost { gpu: false })
            &&& asks_for(gpu, DaemonCommand::GetGPUBoost { ac }, Errand::StoredBoost { gpu: true })
            &&& prints(c, c.lines[0].text) && tier_shown(v, c.lines[0].text)
            &&& prints(g, g.lines[0].text) && tier_shown(v, g.lines[0].text)
        }),
{
}

/// A profile as it is shown: its number and its name.
pub open spec fn profile_shown(wire: u8, line: Seq<char>) -> bool {
    line == text::dec(wire as nat) + " ("@ + (match wire {
        0 => "Balanced (AC)"@,
        1 => "Gaming (legacy)"@,
        2 => "Performance"@,
        3 => "Battery Saver"@,
        4 => "Custom"@,
        5 => "Silent"@,
        6 => "Balanced (battery)"@,
        7 => "Turbo"@,
        _ => "Unknown"@,
    }) + ")"@
}

/// A reading of a stored profile asks for that slot and shows the profile. Under
/// Custom the tiers of the same slot follow, CPU first.
#[verifier::rlimit(30)]
pub proof fn a_stored_profile_is_shown(source: ReadSource, zone: u8, pwr: u8, v: u8)
    requires
        source is Bat || source is Ac,
    ensures
        ({
            let ac = slot_named(source);
            let t = session::opening(Order::ReadPower { source: Some(source), zone });
            let shown = session::answered(
                Errand::StoredPower { ac },
                Some(DaemonResponse::GetPwrLevel { pwr }),
            );
            let cpu = session::answered(
                Errand::CustomCpu { ac },
                Some(DaemonResponse::GetCPUBoost { cpu: v }),
            );
            let gpu = session::answered(
                Errand::CustomGpu,
                Some(DaemonResponse::GetGPUBoost { gpu: v }),
            );
            &&& asks_for(t, DaemonCommand::GetPwrLevel { ac }, Errand::StoredPower { ac })
            &&& shown.lines.len() == 1 && !shown.lines[0].error
            &&& profile_shown(pwr, shown.lines[0].text)
            &&& pwr == 4 ==> shown.next == (NextView::Ask {
                command: DaemonCommand::GetCPUBoost { ac },
                errand: Errand::CustomCpu { ac },
            })
            &&& pwr != 4 ==> shown.next == (NextView::Done { failed: false })
            &&& cpu.next == (NextView::Ask {
                command: DaemonCommand::GetGPUBoost { ac },
                errand: Errand::CustomGpu,
            })
            &&& cpu.lines.len() == 1 && cpu.lines[0].text == "boost cpu: "@ + show::explained(
                v,
                show::boost_text(v),
            )
            &&& gpu.lines.len() == 1 && gpu.lines[0].text == "boost gpu: "@ + show::explained(
                v,
                show::boost_text(v),
            )
        }),
{
}

/// The lines on a curve say whether it is on, what drives it, and its points on
/// the CPU and on the GPU side.
pub proof fn a_stored_curve_is_shown(a: AcState, curve: FanCurve)
    ensures
        ({
            let t = session::opening(Order::ReadFanCurve { ac_state: Some(a) });
            let ac: usize = if a is Ac { 1 } else { 0 };
            let shown = session::answered(
                Errand::StoredCurve,
                Some(DaemonResponse::GetFanCurve { curve }),
            );
            let c = curve@;
            &&& asks_for(t, DaemonCommand::GetFanCurve { ac }, Errand::StoredCurve)
            &&& shown.lines.len() == 4
            &&& forall|i: int| 0 <= i < 4 ==> !(#[trigger] shown.lines[i]).error
            &&& c.enabled ==> shown.lines[0].text == "Smart fan curve: "@ + "enabled"@
            &&& !c.enabled ==> shown.lines[0].text == "Smart fan curve: "@ + "disabled"@
            &&& c.source is Cpu ==> shown.lines[1].text == "Temperature source: "@ + "CPU"@
            &&& c.source is Gpu ==> shown.lines[1].text == "Temperature source: "@ + "GPU"@
            &&& c.source is Both ==> shown.lines[1].text == "Temperature source: "@
                + "Both (higher resulting RPM)"@
            &&& shown.lines[2].text == "CPU points: "@ + points::shown_points(c.cpu_points)
            &&& shown.lines[3].text == "GPU points: "@ + points::shown_points(c.gpu_points)
            &&& shown.next == NextView::Done { failed: false }
        }),
{
}

/// A stored charge limit is shown with its threshold while it is on.
pub proof fn a_stored_limit_is_shown(is_on: bool, threshold: u8)
    ensures
        ({
            let t = session::opening(Order::ReadBho { live: false });
            let shown = session::answered(
                Errand::StoredBho,
                Some(DaemonResponse::GetBatteryHealthOptimizer { is_on, threshold }),
            );
            &&& asks_for(t, DaemonCommand::GetBatteryHealthOptimizer, Errand::StoredBho)
            &&& is_on ==> prints(shown, "on"@ + " (threshold "@ + text::dec(threshold as nat) + " %)"@)
            &&& !is_on ==> prints(shown, "off"@)
        }),
{
}

/// A reading from the controller asks it, in the zone that was named, and marks
/// what it said.
#[verifier::rlimit(30)]
pub proof fn a_live_value_is_shown(zone: u8, m: u8, f: u8, v: u8, on: bool)
    ensures
        ({
            let ec = Some(ReadSource::Ec);
            let power = session::answered(
                Errand::EcPower { zone },
                Some(DaemonResponse::GetEcPowerZone { mode: Some((m, f)) }),
            );
            let boost = session::answered(
                Errand::EcBoost,
                Some(DaemonResponse::GetEcBoost { value: Some(v) }),
            );
            let light = session::answered(
                Errand::EcBrightness,
                Some(DaemonResponse::GetEcBrightness { value: Some(v) }),
            );
            let limit = session::answered(
                Errand::EcBho,
                Some(DaemonResponse::GetEcBho { state: Some((on, v)) }),
            );
            &&& asks_for(
                session::opening(Order::ReadPower { source: ec, zone }),
                DaemonCommand::GetEcPowerZone { zone },
                Errand::EcPower { zone },
            )
            &&& asks_for(
                session::opening(Order::ReadBoost { gpu: on, source: ec }),
                DaemonCommand::GetEcBoost { gpu: on },
                Errand::EcBoost,
            )
            &&& asks_for(
                session::opening(Order::ReadBrightness { source: ec }),
                DaemonCommand::GetEcBrightness,
                Errand::EcBrightness,
            )
            &&& asks_for(
                session::opening(Order::ReadBho { live: true }),
                DaemonCommand::GetEcBho,
                Errand::EcBho,
            )
            &&& prints(
                power,
                "zone"@ + text::dec(zone as nat) + ": mode="@ + text::dec(m as nat)
                    + " fan_state="@ + text::dec(f as nat) + "  [ec]"@,
            )
            &&& prints(boost, boost.lines[0].text) && tier_shown(v, boost.lines[0].text.take(
                boost.lines[0].text.len() - 6,
            ))
            &&& prints(light, text::dec(v as nat) + "  [ec]"@)
            &&& on ==> prints(
                limit,
                "on"@ + " (threshold "@ + text::dec(v as nat) + " %)"@ + "  [ec]"@,
            )
            &&& !on ==> prints(
                limit,
                "off"@ + " (threshold "@ + text::dec(v as nat) + " %)"@ + "  [ec]"@,
            )
        }),
{
    let line = show::explained(v, show::boost_text(v));
    reveal_strlit("  [ec]");
    assert((line + "  [ec]"@).take((line + "  [ec]"@).len() - 6) =~= line);
}

/// The fan speed that is measured, and the adapter class, are asked for and
/// shown as they came; without one the client says so.
pub proof fn a_measured_value_is_shown(rpm: i32, class: u8)
    ensures
        asks_for(
            session::opening(Order::ReadFanRpm),
            DaemonCommand::GetActualFanRpm,
            Errand::ActualFan,
        ),
        asks_for(
            session::opening(Order::ReadFan { source: Some(ReadSource::Ec) }),
            DaemonCommand::GetActualFanRpm,
            Errand::ActualFan,
        ),
        asks_for(session::opening(Order::ReadCharger), DaemonCommand::GetCharger, Errand::Charger),
        asks_for(session::opening(Order::ReadGpu), DaemonCommand::GetGpuStatus, Errand::GpuList),
        ({
            let fan = session::answered(
                Errand::ActualFan,
                Some(DaemonResponse::GetActualFanRpm { rpm }),
            );
            let charger = session::answered(
                Errand::Charger,
                Some(DaemonResponse::GetCharger { actp: Some(class) }),
            );
            let lost = session::answered(
                Errand::Charger,
                Some(DaemonResponse::GetCharger { actp: None }),
            );
            &&& rpm >= 0 ==> prints(fan, text::signed_dec(rpm as int))
            &&& rpm < 0 ==> fan.lines.len() == 1 && fan.lines[0].error
            &&& prints(charger, "0x"@ + text::hex2(class))
            &&& lost.lines.len() == 1 && lost.lines[0].error
            &&& lost.next == NextView::Done { failed: true }
        }),
{
}

/// Without a source the desired state is asked for, and the part that was named
/// is shown of it.
#[verifier::rlimit(30)]
pub proof fn a_desired_value_is_shown(d: DesiredStateWire, zone: u8, gpu: bool)
    ensures
        ({
            let ask = DaemonCommand::GetDesiredState;
            let r = Some(DaemonResponse::GetDesiredState { state: Some(d) });
            let power = session::answered(Errand::DesiredPower, r);
            let boost = session::answered(Errand::DesiredBoost { gpu }, r);
            let light = session::answered(Errand::DesiredBrightness, r);
            let logo = session::answered(Errand::DesiredLogo, r);
            let fan = session::answered(Errand::DesiredFan, r);
            let none: Option<ReadSource> = None;
            &&& asks_for(
                session::opening(Order::ReadPower { source: none, zone }),
                ask,
                Errand::DesiredPower,
            )
            &&& asks_for(
                session::opening(Order::ReadBoost { gpu, source: none }),
                ask,
                Errand::DesiredBoost { gpu },
            )
            &&& asks_for(
                session::opening(Order::ReadBrightness { source: none }),
                ask,
                Errand::DesiredBrightness,
            )
            &&& asks_for(
                session::opening(Order::ReadLogo { source: none }),
                ask,
                Errand::DesiredLogo,
            )
            &&& asks_for(session::opening(Order::ReadFan { source: none }), ask, Errand::DesiredFan)
            &&& exists|line: Seq<char>| #[trigger]
                profile_shown(d.wire, line) && prints(
                    power,
                    line + " ["@ + (match d.domain {
                        ChargerDomainWire::Barrel => "Barrel"@,
                        ChargerDomainWire::Pd => "PD"@,
                        ChargerDomainWire::Battery => "Battery"@,
                    }) + "]"@,
                )
            &&& d.boosts matches Some((c, g)) ==> prints(boost, boost.lines[0].text) && (gpu
                ==> tier_shown(g, boost.lines[0].text)) && (!gpu ==> tier_shown(
                c,
                boost.lines[0].text,
            ))
            &&& exists|p: nat|
                -49 <= 100 * p - d.brightness * 10000 / 255 <= 50 && prints(
                    light,
                    text::dec(d.brightness as nat) + " ("@ + #[trigger] text::dec(p) + " %)"@,
                )
            &&& d.logo == 0 ==> prints(logo, text::dec(0) + " ("@ + "off"@ + ")"@)
            &&& d.logo != 0 ==> prints(logo, text::dec(d.logo as nat) + " ("@ + "on"@ + ")"@)
            &&& d.fan_mode == 0 ==> prints(fan, "Auto"@)
            &&& d.fan_mode == 1 ==> prints(
                fan,
                "Manual "@ + text::signed_dec(d.fan_rpm as int) + " rpm"@,
            )
            &&& d.fan_mode == 2 ==> prints(fan, "Curve"@)
        }),
{
    assert(profile_shown(d.wire, show::power_text(d.wire)));
    let p = show::brightness_percent(d.brightness);
    assert(text::dec(p) == text::dec(p));
}

/// A fan speed, a brightness or a logo state is sent to the slot that was named,
/// and once it was answered the same slot is read back. A refused speed fails.
#[verifier::rlimit(30)]
pub proof fn a_written_setting_is_read_back(a: AcState, n: i32, r: DaemonResponse)
    requires
        0 <= n < 256,
    ensures
        ({
            let ac: usize = if a is Ac { 1 } else { 0 };
            let val = n as u8;
            let refused = session::answered(
                Errand::FanWritten { ac, rpm: n },
                Some(DaemonResponse::SetFanSpeed { result: false }),
            );
            &&& asks_for(
                session::opening(Order::WriteFan { ac_state: a, speed: n }),
                DaemonCommand::SetFanSpeed { ac, rpm: n },
                Errand::FanWritten { ac, rpm: n },
            )
            &&& asks_for(
                session::opening(Order::WriteBrightness { ac_state: a, brightness: n }),
                DaemonCommand::SetBrightness { ac, val },
                Errand::BrightnessWritten { ac },
            )
            &&& asks_for(
                session::opening(Order::WriteLogo { ac_state: a, logo_state: n }),
                DaemonCommand::SetLogoLedState { ac, logo_state: val },
                Errand::LogoWritten { ac },
            )
            &&& r != (DaemonResponse::SetFanSpeed { result: false }) ==> asks_for(
                session::answered(Errand::FanWritten { ac, rpm: n }, Some(r)),
                DaemonCommand::GetFanSpeed { ac },
                Errand::StoredFan,
            )
            &&& asks_for(
                session::answered(Errand::BrightnessWritten { ac }, Some(r)),
                DaemonCommand::GetBrightness { ac },
                Errand::StoredBrightness,
            )
            &&& asks_for(
                session::answered(Errand::LogoWritten { ac }, Some(r)),
                DaemonCommand::GetLogoLedState { ac },
                Errand::StoredLogo,
            )
            &&& refused.next == (NextView::Done { failed: true })
            &&& refused.lines.len() == 1 && refused.lines[0].error
        }),
{
}

/// A brightness or a logo state that does not fit a byte is sent by its low byte.
pub proof fn a_wide_value_keeps_its_low_byte(a: AcState, n: i32)
    ensures
        session::opening(Order::WriteBrightness { ac_state: a, brightness: n }).next matches NextView::Ask {
            command: DaemonCommand::SetBrightness { val, .. },
            ..
        } && (n - val) % 256 == 0,
        session::opening(Order::WriteLogo { ac_state: a, logo_state: n }).next matches NextView::Ask {
            command: DaemonCommand::SetLogoLedState { logo_state, .. },
            ..
        } && (n - logo_state) % 256 == 0,
{
}

/// A fan speed is sent as it was given, whatever its size.
pub proof fn any_speed_is_sent_as_given(a: AcState, rpm: i32)
    ensures
        session::opening(Order::WriteFan { ac_state: a, speed: rpm }).next matches NextView::Ask {
            command: DaemonCommand::SetFanSpeed { ac, rpm: sent },
            ..
        } && sent == rpm && (ac == 1 <==> a is Ac) && (ac == 0 <==> a is Bat),
{
}

/// The number by which a profile goes in a slot, where it is there: plugged in
/// Balanced 0, Performance 2, Silent 5, Custom 4, Turbo 7; on battery Balanced
/// 6, Battery Saver 3.
pub open spec fn number_of(profile: ProfileArg, plugged: bool) -> Option<u8> {
    match (profile, plugged) {
        (ProfileArg::Balanced, true) => Some(0),
        (ProfileArg::Performance, true) => Some(2),
        (ProfileArg::Silent, true) => Some(5),
        (ProfileArg::Custom, true) => Some(4),
        (ProfileArg::Turbo, true) => Some(7),
        (ProfileArg::Balanced, false) => Some(6),
        (ProfileArg::BatterySaver, false) => Some(3),
        _ => None,
    }
}

/// A profile of the slot is sent to it under its number, Custom with the tiers
/// that were given, every other one with none. All else is misuse and reaches
/// nobody.
pub proof fn a_profile_is_sent_to_its_slot(
    a: AcState,
    profile: ProfileArg,
    cpu: Option<u8>,
    gpu: Option<u8>,
)
    ensures
        ({
            let t = session::opening(Order::WritePower { ac_state: a, profile, cpu, gpu });
            let ac: usize = if a is Ac { 1 } else { 0 };
            let fits = if profile is Custom {
                (cpu matches Some(c) && c <= 2) && (gpu matches Some(g) && g <= 2)
            } else {
                cpu is None && gpu is None
            };
            &&& number_of(profile, a is Ac) is None || !fits ==> t.next is Usage && t.lines.len() == 0
            &&& number_of(profile, a is Ac) matches Some(w) ==> {
                &&& fits && profile is Custom ==> asks_for(
                    t,
                    DaemonCommand::SetPowerMode { ac, pwr: w, cpu: cpu->0, gpu: gpu->0 },
                    Errand::PowerWritten { ac },
                )
                &&& fits && !(profile is Custom) ==> asks_for(
                    t,
                    DaemonCommand::SetPowerMode { ac, pwr: w, cpu: 0, gpu: 0 },
                    Errand::PowerWritten { ac },
                )
            }
        }),
{
}

/// After a profile was taken the same slot is read back; where it was refused
/// the client asks what that slot offers, and ends in misuse.
pub proof fn a_written_profile_is_read_back(ac: usize, offer: Option<DaemonResponse>)
    ensures
        asks_for(
            session::answered(
                Errand::PowerWritten { ac },
                Some(DaemonResponse::SetPowerMode { result: true }),
            ),
            DaemonCommand::GetPwrLevel { ac },
            Errand::StoredPower { ac },
        ),
        asks_for(
            session::answered(
                Errand::PowerWritten { ac },
                Some(DaemonResponse::SetPowerMode { result: false }),
            ),
            DaemonCommand::GetCapabilities { ac },
            Errand::PowerOffer,
        ),
        session::answered(Errand::PowerWritten { ac }, None).next is Usage,
        session::answered(Errand::PowerOffer, offer).next matches NextView::Usage { kind, .. }
            && kind is InvalidValue,
{
}

/// A charge limit is sent on with the threshold that was given, off with 80. A
/// threshold is a multiple of five from 50 to 80; on without one is misuse.
pub proof fn a_limit_is_sent_as_asked(t: u8, result: bool)
    ensures
        ({
            let on = session::opening(Order::WriteBho { state: OnOff::On, threshold: Some(t) });
            let off = session::opening(Order::WriteBho { state: OnOff::Off, threshold: None });
            let bare = session::opening(Order::WriteBho { state: OnOff::On, threshold: None });
            let taken = session::answered(
                Errand::BhoWritten { on: true, threshold: t },
                Some(DaemonResponse::SetBatteryHealthOptimizer { result }),
            );
            let fits = t == 50 || t == 55 || t == 60 || t == 65 || t == 70 || t == 75 || t == 80;
            &&& fits ==> asks_for(
                on,
                DaemonCommand::SetBatteryHealthOptimizer { is_on: true, threshold: t },
                Errand::BhoWritten { on: true, threshold: t },
            )
            &&& !fits ==> (on.next matches NextView::Usage { kind, .. } && kind is InvalidValue)
            &&& asks_for(
                off,
                DaemonCommand::SetBatteryHealthOptimizer { is_on: false, threshold: 80 },
                Errand::BhoWritten { on: false, threshold: 80 },
            )
            &&& bare.next matches NextView::Usage { kind, .. } && kind is MissingRequiredArgument
            &&& result ==> prints(
                taken,
                "on"@ + " (threshold "@ + text::dec(t as nat) + " %)"@,
            )
            &&& !result ==> taken.lines.len() == 1 && taken.lines[0].error
        }),
{
}

/// A curve is edited in the slot that was named: the stored one is read, what
/// the arguments name is replaced and the rest kept, and the result goes back to
/// the same slot. Off wins over on.
pub proof fn an_edited_curve_keeps_what_is_not_named(params: FanCurveParams, curve: FanCurve)
    ensures
        ({
            let ac: usize = if params.ac_state is Ac { 1 } else { 0 };
            let t = session::opening(Order::WriteFanCurve(params));
            let sent = session::answered(
                Errand::CurveToEdit { params },
                Some(DaemonResponse::GetFanCurve { curve }),
            );
            &&& asks_for(t, DaemonCommand::GetFanCurve { ac }, Errand::CurveToEdit { params })
            &&& params.cpu_points is None && params.gpu_points is None ==> sent.next is AskCurve
            &&& sent.next matches NextView::AskCurve { ac: slot, curve: c } ==> {
                &&& slot == ac
                &&& params.disable ==> !c.enabled
                &&& !params.disable && params.enable ==> c.enabled
                &&& !params.disable && !params.enable ==> c.enabled == curve@.enabled
                &&& params.source is None ==> c.source == curve@.source
                &&& params.source matches Some(CurveSourceArg::Cpu) ==> c.source
                    == CurveTempSource::Cpu
                &&& params.source matches Some(CurveSourceArg::Gpu) ==> c.source
                    == CurveTempSource::Gpu
                &&& params.source matches Some(CurveSourceArg::Both) ==> c.source
                    == CurveTempSource::Both
                &&& params.cpu_points is None ==> c.cpu_points == curve@.cpu_points
                &&& params.gpu_points is None ==> c.gpu_points == curve@.gpu_points
                &&& params.cpu_points matches Some(raw) ==> points::curve_points_in(raw@) == Ok::<
                    _,
                    Seq<char>,
                >(c.cpu_points)
                &&& params.gpu_points matches Some(raw) ==> points::curve_points_in(raw@) == Ok::<
                    _,
                    Seq<char>,
                >(c.gpu_points)
            }
        }),
{
}

/// A curve that was saved is read back from its slot; one that was not is
/// complained about.
pub proof fn a_saved_curve_is_read_back(ac: usize)
    ensures
        asks_for(
            session::answered(
                Errand::CurveWritten { ac },
                Some(DaemonResponse::SetFanCurve { result: true }),
            ),
            DaemonCommand::GetFanCurve { ac },
            Errand::StoredCurve,
        ),
        ({
            let lost = session::answered(
                Errand::CurveWritten { ac },
                Some(DaemonResponse::SetFanCurve { result: false }),
            );
            lost.lines.len() == 1 && lost.lines[0].error
        }),
{
}

/// The curve in force is that of the slot of the domain: the battery slot on
/// battery, else the other one.
pub proof fn the_curve_in_force_is_shown(d: DesiredStateWire)
    ensures
        asks_for(
            session::opening(Order::ReadFanCurve { ac_state: None }),
            DaemonCommand::GetDesiredState,
            Errand::DesiredFanCurve,
        ),
        ({
            let t = session::answered(
                Errand::DesiredFanCurve,
                Some(DaemonResponse::GetDesiredState { state: Some(d) }),
            );
            let domain = match d.domain {
                ChargerDomainWire::Barrel => "Barrel"@,
                ChargerDomainWire::Pd => "PD"@,
                ChargerDomainWire::Battery => "Battery"@,
            };
            &&& t.lines.len() == 1 && !t.lines[0].error
            &&& d.domain is Battery ==> {
                &&& t.lines[0].text == "["@ + domain + "] "@ + "bat"@ + " slot:"@
                &&& t.next == (NextView::Ask {
                    command: DaemonCommand::GetFanCurve { ac: 0 },
                    errand: Errand::StoredCurve,
                })
            }
            &&& !(d.domain is Battery) ==> {
                &&& t.lines[0].text == "["@ + domain + "] "@ + "ac"@ + " slot:"@
                &&& t.next == (NextView::Ask {
                    command: DaemonCommand::GetFanCurve { ac: 1 },
                    errand: Errand::StoredCurve,
                })
            }
        }),
{
}

/// The list of GPUs has a line for each, in the order in which they came, with
/// its kind, slot, name, driver and status, and ends with runtime power
/// management of the discrete one.
pub proof fn every_gpu_has_its_line(gpus: Vec<GpuInfo>, pm: bool, i: int)
    requires
        0 <= i < gpus@.len(),
    ensures
        ({
            let t = session::answered(
                Errand::GpuList,
                Some(DaemonResponse::GetGpuStatus { gpus, dgpu_runtime_pm: pm }),
            );
            let g = gpus@[i];
            let kind = if g.gpu_type@ == "dgpu"@ { "dGPU"@ } else { "iGPU"@ };
            let last = t.lines[(gpus@.len() + 1) as int];
            &&& t.lines.len() == gpus@.len() + 2
            &&& t.lines[i + 1].text == "  "@ + kind + " ["@ + g.pci_slot@ + "] "@ + g.name@
                + " (driver: "@ + g.driver@ + ", status: "@ + g.runtime_status@ + ")"@
            &&& pm ==> last.text == "dGPU Runtime PM: "@ + "auto (power saving)"@
            &&& !pm ==> last.text == "dGPU Runtime PM: "@ + "on (always active)"@
        }),
{
}

/// The columns of the table line up: the label at the left, what should hold
/// from the twelfth column on, what does hold behind it, as long as the first
/// two fit their columns.
pub proof fn the_columns_line_up(label: Seq<char>, desired: Seq<char>, actual: Seq<char>)
    requires
        label.len() <= 11,
        desired.len() <= 30,
    ensures
        ({
            let row = status::row(label, desired, actual);
            &&& row.len() == 43 + actual.len()
            &&& row.subrange(0, label.len() as int) == label
            &&& row.subrange(12, (12 + desired.len()) as int) == desired
            &&& row.skip(43) == actual
        }),
{
    reveal_strlit(" ");
    let row = status::row(label, desired, actual);
    assert(row.subrange(0, label.len() as int) =~= label);
    assert(row.subrange(12, (12 + desired.len()) as int) =~= desired);
    assert(row.skip(43) =~= actual);
}

/// The overview asks for what should hold, the class, and the mode of zone 1,
/// and shows domain and profile: what should hold first, then what the
/// controller said.
#[verifier::rlimit(30)]
pub proof fn the_overview_shows_domain_and_profile(
    d: DesiredStateWire,
    wanted: Seq<char>,
    class: u8,
    mode: u8,
    f: u8,
)
    requires
        profile_shown(d.wire, wanted),
    ensures
        ({
            let first = session::opening(Order::Status);
            let second = session::answered(
                Errand::StatusDesired,
                Some(DaemonResponse::GetDesiredState { state: Some(d) }),
            );
            let third = session::answered(
                Errand::StatusCharger { d },
                Some(DaemonResponse::GetCharger { actp: Some(class) }),
            );
            let t = session::answered(
                Errand::StatusZone { d, charger: Some(class) },
                Some(DaemonResponse::GetEcPowerZone { mode: Some((mode, f)) }),
            );
            let domain = match d.domain {
                ChargerDomainWire::Barrel => "Barrel"@,
                ChargerDomainWire::Pd => "PD"@,
                ChargerDomainWire::Battery => "Battery"@,
            };
            &&& asks_for(first, DaemonCommand::GetDesiredState, Errand::StatusDesired)
            &&& asks_for(second, DaemonCommand::GetCharger, Errand::StatusCharger { d })
            &&& asks_for(
                third,
                DaemonCommand::GetEcPowerZone { zone: 1 },
                Errand::StatusZone { d, charger: Some(class) },
            )
            &&& t.lines.len() == 3
            &&& t.lines[0].text == status::row(""@, "DESIRED"@, "ACTUAL"@)
            &&& t.lines[1].text == status::row(
                "domain"@,
                domain,
                "0x"@ + text::hex2(class) + "  [ec]"@,
            )
            &&& t.lines[2].text == status::row(
                "power"@,
                wanted,
                text::dec(mode as nat) + "  [ec]"@,
            )
            &&& t.next == (NextView::Ask {
                command: DaemonCommand::GetEcBoost { gpu: false },
                errand: Errand::StatusCpu { d, zone: Some((mode, f)) },
            })
        }),
{
    assert(wanted == show::power_text(d.wire));
}

/// Then it asks for both boost tiers and for the brightness, and shows them: CPU
/// before GPU, and the stored level as level and percentage.
#[verifier::rlimit(30)]
pub proof fn the_overview_shows_boost_and_brightness(
    d: DesiredStateWire,
    zone: Option<(u8, u8)>,
    cpu: u8,
    gpu: u8,
    level: u8,
)
    ensures
        ({
            let second = session::answered(
                Errand::StatusCpu { d, zone },
                Some(DaemonResponse::GetEcBoost { value: Some(cpu) }),
            );
            let third = session::answered(
                Errand::StatusGpu { d, zone, cpu: Some(cpu) },
                Some(DaemonResponse::GetEcBoost { value: Some(gpu) }),
            );
            let t = session::answered(
                Errand::StatusBrightness { d, zone },
                Some(DaemonResponse::GetEcBrightness { value: Some(level) }),
            );
            let held = "cpu "@ + text::dec(cpu as nat) + " / gpu "@ + text::dec(gpu as nat)
                + "  [ec]"@;
            let off = if d.lighting { ""@ } else { "  [lighting off \u{2014} stored only]"@ };
            &&& asks_for(
                second,
                DaemonCommand::GetEcBoost { gpu: true },
                Errand::StatusGpu { d, zone, cpu: Some(cpu) },
            )
            &&& third.lines.len() == 1
            &&& d.boosts matches Some((c, g)) ==> third.lines[0].text == status::row(
                "boost"@,
                "cpu "@ + text::dec(c as nat) + " / gpu "@ + text::dec(g as nat),
                held,
            )
            &&& d.boosts is None ==> third.lines[0].text == status::row("boost"@, "\u{2014}"@, held)
            &&& third.next == (NextView::Ask {
                command: DaemonCommand::GetEcBrightness,
                errand: Errand::StatusBrightness { d, zone },
            })
            &&& t.lines.len() == 1
            &&& exists|p: nat|
                -49 <= 100 * p - d.brightness * 10000 / 255 <= 50 && t.lines[0].text == status::row(
                    "brightness"@,
                    text::dec(d.brightness as nat) + " ("@ + #[trigger] text::dec(p) + " %)"@ + off,
                    text::dec(level as nat) + "  [ec]"@,
                )
            &&& t.next == (NextView::Ask {
                command: DaemonCommand::GetEcFanTach { zone: 1 },
                errand: Errand::StatusTach1 { d, zone },
            })
        }),
{
    let p = show::brightness_percent(d.brightness);
    assert(text::dec(p) == text::dec(p));
}

/// Then it asks for both fans and for the speed they are set to, and shows them
/// zone by zone beside the mode that zone 1 reported.
#[verifier::rlimit(30)]
pub proof fn the_overview_shows_the_fans(
    d: DesiredStateWire,
    mode: u8,
    f: u8,
    one: u16,
    two: u16,
    set: u16,
)
    ensures
        ({
            let zone = Some((mode, f));
            let second = session::answered(
                Errand::StatusTach1 { d, zone },
                Some(DaemonResponse::GetEcFanTach { rpm: Some(one) }),
            );
            let third = session::answered(
                Errand::StatusTach2 { d, zone, tach: Some(one) },
                Some(DaemonResponse::GetEcFanTach { rpm: Some(two) }),
            );
            let t = session::answered(
                Errand::StatusSetpoint { d, zone, tachs: (Some(one), Some(two)) },
                Some(DaemonResponse::GetEcFanSetpoint { rpm: Some(set) }),
            );
            let state = if f == 0 { "auto"@ } else { "manual"@ };
            let held = "tach z1 "@ + text::dec(one as nat) + " / z2 "@ + text::dec(two as nat)
                + " rpm"@ + " \u{b7} "@ + ("mode "@ + text::dec(f as nat) + " ("@ + state + ")"@)
                + " \u{b7} "@ + ("setpoint "@ + text::dec(set as nat) + " rpm"@) + "  [ec]"@;
            &&& asks_for(
                second,
                DaemonCommand::GetEcFanTach { zone: 2 },
                Errand::StatusTach2 { d, zone, tach: Some(one) },
            )
            &&& asks_for(
                third,
                DaemonCommand::GetEcFanSetpoint { zone: 1 },
                Errand::StatusSetpoint { d, zone, tachs: (Some(one), Some(two)) },
            )
            &&& t.lines.len() == 1
            &&& d.fan_mode == 0 ==> t.lines[0].text == status::row("fan"@, "Auto"@, held)
            &&& d.fan_mode == 1 ==> t.lines[0].text == status::row(
                "fan"@,
                "Manual "@ + text::signed_dec(d.fan_rpm as int) + " rpm"@,
                held,
            )
            &&& d.fan_mode == 2 ==> t.lines[0].text == status::row("fan"@, "Curve"@, held)
            &&& t.next == (NextView::Ask {
                command: DaemonCommand::GetEcBho,
                errand: Errand::StatusBho { d },
            })
        }),
{
}

/// At the end it shows the charge limit, stored and held, and the logo, and is
/// done.
#[verifier::rlimit(30)]
pub proof fn the_overview_ends_with_limit_and_logo(d: DesiredStateWire, on: bool, threshold: u8)
    ensures
        ({
            let t = session::answered(
                Errand::StatusBho { d },
                Some(DaemonResponse::GetEcBho { state: Some((on, threshold)) }),
            );
            let wanted = if d.bho_on { "on"@ } else { "off"@ };
            let held = if on { "on"@ } else { "off"@ };
            let logo = if d.logo != 0 { "on"@ } else { "off"@ };
            let off = if d.lighting { ""@ } else { "  [lighting off \u{2014} stored only]"@ };
            &&& t.lines.len() == 2
            &&& t.lines[0].text == status::row(
                "bho"@,
                wanted + ", "@ + text::dec(d.bho_threshold as nat) + " %"@,
                held + " (threshold "@ + text::dec(threshold as nat) + " %)"@ + "  [ec]"@,
            )
            &&& t.lines[1].text == status::row(
                "logo"@,
                text::dec(d.logo as nat) + " ("@ + logo + ")"@ + off,
                "\u{2014}"@,
            )
            &&& t.next == NextView::Done { failed: false }
        }),
{
}

/// What the controller did not answer is shown as an error, not as a value.
pub proof fn a_silent_controller_is_an_error(d: DesiredStateWire, zone: u8, v: Option<u8>)
    ensures
        status::domain_row(d, None) == status::row(
            "domain"@,
            show::domain_text(d.domain),
            "error: no reply"@,
        ),
        status::power_row(d, None) == status::row(
            "power"@,
            show::power_text(d.wire),
            "error: no 0x82 reply"@,
        ),
        d.boosts is None ==> status::boost_row(d, None, v) == status::row(
            "boost"@,
            "\u{2014}"@,
            "error: no 0x87 reply"@,
        ),
        status::boost_row(d, v, None) == status::boost_row(d, None, v),
        session::answered(Errand::EcBoost, Some(DaemonResponse::GetEcBoost { value: None })).lines[0].error,
        session::answered(
            Errand::EcBrightness,
            Some(DaemonResponse::GetEcBrightness { value: None }),
        ).lines[0].error,
        session::answered(Errand::EcBho, Some(DaemonResponse::GetEcBho { state: None })).lines[0].error,
        session::answered(
            Errand::EcPower { zone },
            Some(DaemonResponse::GetEcPowerZone { mode: None }),
        ).lines[0].error,
{
}

/// A profile that was refused is explained by the model and the names of all
/// profiles that it offers, in their order.
pub proof fn a_refusal_tells_what_is_offered(
    wires: Vec<u8>,
    max_boost_tier: u8,
    model: String,
    i: int,
)
    requires
        0 <= i < wires@.len(),
    ensures
        ({
            let r = Some(DaemonResponse::GetCapabilities { wires, max_boost_tier, model });
            let t = session::answered(Errand::PowerOffer, r);
            let names = crate::cli::request::names_of(wires@);
            let offer = model@ + " currently offers: "@ + text::joined(names, ", "@);
            &&& t.lines.len() == 0
            &&& t.next matches NextView::Usage { kind, message } && kind is InvalidValue && message
                == "the daemon rejected this request \u{2014} "@ + offer
                + " (reason: journalctl --user -u razercontrol)"@
            &&& names.len() == wires@.len()
            &&& wires@[i] == 0 || wires@[i] == 6 ==> names[i] == "Balanced"@
            &&& wires@[i] == 2 ==> names[i] == "Performance"@
            &&& wires@[i] == 3 ==> names[i] == "Battery Saver"@
            &&& wires@[i] == 4 ==> names[i] == "Custom"@
            &&& wires@[i] == 5 ==> names[i] == "Silent"@
            &&& wires@[i] == 7 ==> names[i] == "Turbo"@
        }),
{
}

/// Where the daemon does not answer, or answers something else, the client
/// complains and asks for nothing more.
pub proof fn silence_is_complained_about(errand: Errand)
    requires
        match errand {
            Errand::StoredFan | Errand::StoredBrightness | Errand::StoredLogo => true,
            Errand::StoredBoost { .. } | Errand::StoredBho | Errand::StoredCurve => true,
            Errand::EcPower { .. } | Errand::EcBoost | Errand::EcBrightness | Errand::EcBho => true,
            Errand::ActualFan | Errand::GpuList | Errand::Charger => true,
            Errand::DesiredPower | Errand::DesiredBoost { .. } | Errand::DesiredFan => true,
            Errand::DesiredBrightness | Errand::DesiredLogo | Errand::DesiredFanCurve => true,
            Errand::FanWritten { .. } | Errand::BrightnessWritten { .. } => true,
            Errand::LogoWritten { .. } | Errand::BhoWritten { .. } => true,
            Errand::CurveToEdit { .. } | Errand::CurveWritten { .. } | Errand::StatusDesired => true,
            _ => false,
        },
    ensures
        ({
            let t = session::answered(errand, None);
            &&& t.lines.len() == 1 && t.lines[0].error
            &&& t.next is Done
        }),
{
}

} // verus!
