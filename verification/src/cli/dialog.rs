//! The dialog of the command line with the daemon: an order opens it, every
//! answer of the daemon takes it one turn further.

use vstd::prelude::*;

use crate::cli::points;
use crate::cli::points::{format_points, write_fan_curve, FanCurveParams};
use crate::cli::request;
use crate::cli::request::{
    power_answer, refused_power, unanswered_power, AcState, OnOff, PowerAnswer, ProfileArg,
    UsageError, UsageKind,
};
use crate::cli::show;
use crate::cli::show::{
    boost_label, domain_label, explain, logo_label, on_off_text,
    show_brightness, show_charger, show_fan, show_gpu, show_limit, show_power, show_speed,
    source_label, Line, LineView,
};
use crate::cli::status;
use crate::cli::status::show_from_controller;
use crate::comms::{
    ChargerDomainWire, DaemonCommand, DaemonResponse, DesiredStateWire, FanCurve, FanCurveView,
    GpuInfo,
};
use crate::text;
use crate::text::{decimal, signed_decimal};

verus! {

/// Where a value is read from: a slot of the configuration, or the controller.
#[derive(Debug, Clone, Copy, PartialEq, Eq, Structural)]
pub enum ReadSource {
    Bat,
    Ac,
    Ec,
}

/// What the command line was told to do. Without a source a read tells what
/// should hold right now.
#[allow(inconsistent_fields)]
#[derive(Debug)]
pub enum Order {
    Status,
    ReadFan { source: Option<ReadSource> },
    ReadPower { source: Option<ReadSource>, zone: u8 },
    ReadBrightness { source: Option<ReadSource> },
    ReadLogo { source: Option<ReadSource> },
    ReadBho { live: bool },
    ReadBoost { gpu: bool, source: Option<ReadSource> },
    ReadFanRpm,
    ReadGpu,
    ReadFanCurve { ac_state: Option<AcState> },
    ReadCharger,
    WriteFan { ac_state: AcState, speed: i32 },
    WritePower { ac_state: AcState, profile: ProfileArg, cpu: Option<u8>, gpu: Option<u8> },
    WriteBrightness { ac_state: AcState, brightness: i32 },
    WriteLogo { ac_state: AcState, logo_state: i32 },
    WriteBho { state: OnOff, threshold: Option<u8> },
    WriteFanCurve(FanCurveParams),
}

/// What an answer of the daemon is awaited for.
#[allow(inconsistent_fields)]
#[derive(Debug)]
pub enum Errand {
    DesiredPower,
    DesiredBoost { gpu: bool },
    DesiredBrightness,
    DesiredLogo,
    DesiredFan,
    DesiredFanCurve,
    StoredPower { ac: usize },
    CustomCpu { ac: usize },
    CustomGpu,
    StoredBoost { gpu: bool },
    StoredBrightness,
    StoredLogo,
    StoredFan,
    StoredBho,
    StoredCurve,
    EcPower { zone: u8 },
    EcBoost,
    EcBrightness,
    EcBho,
    ActualFan,
    GpuList,
    Charger,
    FanWritten { ac: usize, rpm: i32 },
    PowerWritten { ac: usize },
    PowerOffer,
    BrightnessWritten { ac: usize },
    LogoWritten { ac: usize },
    BhoWritten { on: bool, threshold: u8 },
    CurveToEdit { params: FanCurveParams },
    CurveWritten { ac: usize },
    StatusDesired,
    StatusCharger { d: DesiredStateWire },
    StatusZone { d: DesiredStateWire, charger: Option<u8> },
    StatusCpu { d: DesiredStateWire, zone: Option<(u8, u8)> },
    StatusGpu { d: DesiredStateWire, zone: Option<(u8, u8)>, cpu: Option<u8> },
    StatusBrightness { d: DesiredStateWire, zone: Option<(u8, u8)> },
    StatusTach1 { d: DesiredStateWire, zone: Option<(u8, u8)> },
    StatusTach2 { d: DesiredStateWire, zone: Option<(u8, u8)>, tach: Option<u16> },
    StatusSetpoint {
        d: DesiredStateWire,
        zone: Option<(u8, u8)>,
        tachs: (Option<u16>, Option<u16>),
    },
    StatusBho { d: DesiredStateWire },
}

/// How a dialog goes on.
#[derive(Debug)]
pub enum Next {
    /// Send this to the daemon and come back with its answer.
    Ask { command: DaemonCommand, errand: Errand },
    /// The dialog is over, in failure or not.
    Done { failed: bool },
    /// The arguments make no sense.
    Usage(UsageError),
}

/// One turn of a dialog: lines to print, in order, and how to go on.
#[derive(Debug)]
pub struct Turn {
    pub lines: Vec<Line>,
    pub next: Next,
}

/// How a dialog goes on, by what it says.
pub enum NextView {
    Ask { command: DaemonCommand, errand: Errand },
    /// A curve goes to the daemon.
    AskCurve { ac: usize, curve: FanCurveView },
    Done { failed: bool },
    Usage { kind: UsageKind, message: Seq<char> },
}

/// What a turn says.
pub struct TurnView {
    pub lines: Seq<LineView>,
    pub next: NextView,
}

impl View for Next {
    type V = NextView;

    open spec fn view(&self) -> NextView {
        match *self {
            Next::Ask { command, errand } => match (command, errand) {
                (
                    DaemonCommand::SetFanCurve { ac, curve },
                    Errand::CurveWritten { ac: slot },
                ) if ac == slot => NextView::AskCurve { ac, curve: curve@ },
                _ => NextView::Ask { command, errand },
            },
            Next::Done { failed } => NextView::Done { failed },
            Next::Usage(e) => NextView::Usage { kind: e.kind, message: e.message@ },
        }
    }
}

impl View for Turn {
    type V = TurnView;

    open spec fn view(&self) -> TurnView {
        TurnView { lines: show::shown(self.lines@), next: self.next@ }
    }
}

/// The dialog ends without a word.
pub open spec fn silence() -> TurnView {
    TurnView { lines: seq![], next: NextView::Done { failed: false } }
}

/// The dialog ends with one line on standard output.
pub open spec fn says(text: Seq<char>) -> TurnView {
    TurnView { lines: seq![show::output(text)], next: NextView::Done { failed: false } }
}

/// The dialog ends with one line on standard error.
pub open spec fn complains(text: Seq<char>) -> TurnView {
    TurnView { lines: seq![show::complaint(text)], next: NextView::Done { failed: false } }
}

/// The dialog fails with one line on standard error.
pub open spec fn fails(text: Seq<char>) -> TurnView {
    TurnView { lines: seq![show::complaint(text)], next: NextView::Done { failed: true } }
}

/// The dialog goes on with a request.
pub open spec fn asks(command: DaemonCommand, errand: Errand) -> TurnView {
    TurnView { lines: seq![], next: NextView::Ask { command, errand } }
}

/// The dialog ends with a complaint about the arguments.
pub open spec fn misuse(kind: UsageKind, message: Seq<char>) -> TurnView {
    TurnView { lines: seq![], next: NextView::Usage { kind, message } }
}

pub(crate) fn quiet() -> (t: Turn)
    ensures
        t@ == silence(),
{
    let t = Turn { lines: Vec::new(), next: Next::Done { failed: false } };
    assert(t@.lines =~= silence().lines);
    t
}

pub(crate) fn say(text: String) -> (t: Turn)
    ensures
        t@ == says(text@),
{
    let mut lines: Vec<Line> = Vec::new();
    lines.push(Line { error: false, text });
    let t = Turn { lines, next: Next::Done { failed: false } };
    assert(t@.lines =~= says(text@).lines);
    t
}

fn complain(text: &str) -> (t: Turn)
    ensures
        t@ == complains(text@),
{
    let mut lines: Vec<Line> = Vec::new();
    lines.push(Line { error: true, text: text.to_owned() });
    let t = Turn { lines, next: Next::Done { failed: false } };
    assert(t@.lines =~= complains(text@).lines);
    t
}

fn fail(text: &str) -> (t: Turn)
    ensures
        t@ == fails(text@),
{
    let mut lines: Vec<Line> = Vec::new();
    lines.push(Line { error: true, text: text.to_owned() });
    let t = Turn { lines, next: Next::Done { failed: true } };
    assert(t@.lines =~= fails(text@).lines);
    t
}

pub(crate) fn ask(command: DaemonCommand, errand: Errand) -> (t: Turn)
    requires
        !(command is SetFanCurve),
    ensures
        t@ == asks(command, errand),
{
    let t = Turn { lines: Vec::new(), next: Next::Ask { command, errand } };
    assert(t@.lines =~= asks(command, errand).lines);
    t
}

impl Turn {
    /// Prints one more line.
    pub(crate) fn print(&mut self, line: Line)
        ensures
            final(self)@ == (TurnView { lines: old(self)@.lines.push(line@), next: old(self)@.next }),
    {
        let ghost before = self@.lines;
        self.lines.push(line);
        assert(self@.lines =~= before.push(line@));
    }
}

pub(crate) fn misused(e: UsageError) -> (t: Turn)
    ensures
        t@ == misuse(e.kind, e.message@),
{
    let t = Turn { lines: Vec::new(), next: Next::Usage(e) };
    assert(t@.lines =~= misuse(e.kind, e.message@).lines);
    t
}

/// What should hold, if the daemon said.
pub open spec fn desired_in(response: Option<DaemonResponse>) -> Option<DesiredStateWire> {
    match response {
        Some(DaemonResponse::GetDesiredState { state }) => state,
        _ => None,
    }
}

/// What is said when the daemon did not tell what should hold.
pub open spec fn no_desired(response: Option<DaemonResponse>) -> TurnView {
    match response {
        Some(DaemonResponse::GetDesiredState { .. }) => complains(
            "error: no device attached \u{2014} domain unresolved"@,
        ),
        _ => complains("error: daemon did not answer (predates GetDesiredState?)"@),
    }
}

pub(crate) fn fetch_desired(response: &Option<DaemonResponse>) -> (r: Result<DesiredStateWire, Turn>)
    ensures
        match desired_in(*response) {
            Some(d) => r == Ok::<DesiredStateWire, Turn>(d),
            None => r matches Err(t) && t@ == no_desired(*response),
        },
{
    match response {
        Some(DaemonResponse::GetDesiredState { state }) => match state {
            Some(d) => Ok(*d),
            None => Err(complain("error: no device attached \u{2014} domain unresolved")),
        },
        _ => Err(complain("error: daemon did not answer (predates GetDesiredState?)")),
    }
}

pub open spec fn desired_power(response: Option<DaemonResponse>) -> TurnView {
    match desired_in(response) {
        Some(d) => says(
            show::power_text(d.wire) + " ["@ + show::domain_text(d.domain) + "]"@,
        ),
        None => no_desired(response),
    }
}

pub(crate) fn read_desired_power(response: &Option<DaemonResponse>) -> (t: Turn)
    ensures
        t@ == desired_power(*response),
{
    match fetch_desired(response) {
        Ok(d) => {
            let mut s = show_power(d.wire);
            s.append(" [");
            s.append(domain_label(&d.domain));
            s.append("]");
            say(s)
        },
        Err(t) => t,
    }
}

pub open spec fn desired_boost(gpu: bool, response: Option<DaemonResponse>) -> TurnView {
    match desired_in(response) {
        Some(d) => match d.boosts {
            Some((c, g)) => {
                let v = if gpu {
                    g
                } else {
                    c
                };
                says(show::explained(v, show::boost_text(v)))
            },
            None => says("\u{2014} (not part of desired state: wire != Custom)"@),
        },
        None => no_desired(response),
    }
}

pub(crate) fn read_desired_boost(gpu: bool, response: &Option<DaemonResponse>) -> (t: Turn)
    ensures
        t@ == desired_boost(gpu, *response),
{
    match fetch_desired(response) {
        Ok(d) => match d.boosts {
            Some((c, g)) => {
                let v: u8 = if gpu {
                    g
                } else {
                    c
                };
                say(explain(v, boost_label(v)))
            },
            None => say("\u{2014} (not part of desired state: wire != Custom)".to_owned()),
        },
        Err(t) => t,
    }
}

pub open spec fn desired_brightness(response: Option<DaemonResponse>) -> TurnView {
    match desired_in(response) {
        Some(d) => says(show::brightness_text(d.brightness)),
        None => no_desired(response),
    }
}

pub(crate) fn read_desired_brightness(response: &Option<DaemonResponse>) -> (t: Turn)
    ensures
        t@ == desired_brightness(*response),
{
    match fetch_desired(response) {
        Ok(d) => say(show_brightness(d.brightness)),
        Err(t) => t,
    }
}

pub open spec fn desired_logo(response: Option<DaemonResponse>) -> TurnView {
    match desired_in(response) {
        Some(d) => says(show::explained(d.logo, show::on_off(d.logo != 0))),
        None => no_desired(response),
    }
}

pub(crate) fn read_desired_logo(response: &Option<DaemonResponse>) -> (t: Turn)
    ensures
        t@ == desired_logo(*response),
{
    match fetch_desired(response) {
        Ok(d) => say(explain(d.logo, on_off_text(d.logo != 0))),
        Err(t) => t,
    }
}

pub open spec fn desired_fan(response: Option<DaemonResponse>) -> TurnView {
    match desired_in(response) {
        Some(d) => match show::fan_text(d.fan_mode, d.fan_rpm) {
            Some(s) => says(s),
            None => complains("error: unknown fan mode "@ + text::dec(d.fan_mode as nat)),
        },
        None => no_desired(response),
    }
}

pub(crate) fn read_desired_fan(response: &Option<DaemonResponse>) -> (t: Turn)
    ensures
        t@ == desired_fan(*response),
{
    match fetch_desired(response) {
        Ok(d) => match show_fan(d.fan_mode, d.fan_rpm) {
            Some(s) => say(s),
            None => {
                let mut s = "error: unknown fan mode ".to_owned();
                s.append(decimal(d.fan_mode as u64).as_str());
                complain(s.as_str())
            },
        },
        Err(t) => t,
    }
}

/// The slot that the domain in charge reads its curve from.
pub open spec fn desired_fan_curve(response: Option<DaemonResponse>) -> TurnView {
    match desired_in(response) {
        Some(d) => {
            let battery = d.domain is Battery;
            TurnView {
                lines: seq![
                    show::output(
                        "["@ + show::domain_text(d.domain) + "] "@ + (if battery {
                            "bat"@
                        } else {
                            "ac"@
                        }) + " slot:"@,
                    ),
                ],
                next: NextView::Ask {
                    command: DaemonCommand::GetFanCurve {
                        ac: if battery {
                            0
                        } else {
                            1
                        },
                    },
                    errand: Errand::StoredCurve,
                },
            }
        },
        None => no_desired(response),
    }
}

pub(crate) fn read_desired_fan_curve(response: &Option<DaemonResponse>) -> (t: Turn)
    ensures
        t@ == desired_fan_curve(*response),
{
    match fetch_desired(response) {
        Ok(d) => {
            let ac: usize = match d.domain {
                ChargerDomainWire::Battery => 0,
                _ => 1,
            };
            let mut s = "[".to_owned();
            s.append(domain_label(&d.domain));
            s.append("] ");
            if ac == 1 {
                s.append("ac");
            } else {
                s.append("bat");
            }
            s.append(" slot:");
            let mut t = ask(DaemonCommand::GetFanCurve { ac }, Errand::StoredCurve);
            t.print(Line { error: false, text: s });
            assert(t@.lines =~= desired_fan_curve(*response).lines);
            t
        },
        Err(t) => t,
    }
}

pub open spec fn ec_power(zone: u8, response: Option<DaemonResponse>) -> TurnView {
    match response {
        Some(DaemonResponse::GetEcPowerZone { mode: Some((m, f)) }) => says(
            "zone"@ + text::dec(zone as nat) + ": mode="@ + text::dec(m as nat) + " fan_state="@
                + text::dec(f as nat) + "  [ec]"@,
        ),
        Some(DaemonResponse::GetEcPowerZone { mode: None }) => complains(
            "error: EC gave no confirmed 0x82 reply"@,
        ),
        _ => complains("error: daemon did not answer"@),
    }
}

pub(crate) fn read_ec_power(zone: u8, response: &Option<DaemonResponse>) -> (t: Turn)
    ensures
        t@ == ec_power(zone, *response),
{
    match response {
        Some(DaemonResponse::GetEcPowerZone { mode: Some((m, f)) }) => {
            let mut s = "zone".to_owned();
            s.append(decimal(zone as u64).as_str());
            s.append(": mode=");
            s.append(decimal(*m as u64).as_str());
            s.append(" fan_state=");
            s.append(decimal(*f as u64).as_str());
            s.append("  [ec]");
            say(s)
        },
        Some(DaemonResponse::GetEcPowerZone { mode: None }) => complain(
            "error: EC gave no confirmed 0x82 reply",
        ),
        _ => complain("error: daemon did not answer"),
    }
}

pub open spec fn ec_boost(response: Option<DaemonResponse>) -> TurnView {
    match response {
        Some(DaemonResponse::GetEcBoost { value: Some(v) }) => says(
            show::explained(v, show::boost_text(v)) + "  [ec]"@,
        ),
        Some(DaemonResponse::GetEcBoost { value: None }) => complains(
            "error: EC gave no confirmed 0x87 reply"@,
        ),
        _ => complains("error: daemon did not answer"@),
    }
}

pub(crate) fn read_ec_boost(response: &Option<DaemonResponse>) -> (t: Turn)
    ensures
        t@ == ec_boost(*response),
{
    match response {
        Some(DaemonResponse::GetEcBoost { value: Some(v) }) => {
            let mut s = explain(*v, boost_label(*v));
            s.append("  [ec]");
            say(s)
        },
        Some(DaemonResponse::GetEcBoost { value: None }) => complain(
            "error: EC gave no confirmed 0x87 reply",
        ),
        _ => complain("error: daemon did not answer"),
    }
}

pub open spec fn ec_brightness(response: Option<DaemonResponse>) -> TurnView {
    match response {
        Some(DaemonResponse::GetEcBrightness { value: Some(v) }) => says(
            status::from_controller(v),
        ),
        Some(DaemonResponse::GetEcBrightness { value: None }) => complains(
            "error: EC gave no confirmed 0x83 reply"@,
        ),
        _ => complains("error: daemon did not answer"@),
    }
}

pub(crate) fn read_ec_brightness(response: &Option<DaemonResponse>) -> (t: Turn)
    ensures
        t@ == ec_brightness(*response),
{
    match response {
        Some(DaemonResponse::GetEcBrightness { value: Some(v) }) => say(show_from_controller(*v)),
        Some(DaemonResponse::GetEcBrightness { value: None }) => complain(
            "error: EC gave no confirmed 0x83 reply",
        ),
        _ => complain("error: daemon did not answer"),
    }
}

pub open spec fn ec_bho(response: Option<DaemonResponse>) -> TurnView {
    match response {
        Some(DaemonResponse::GetEcBho { state: Some((on, threshold)) }) => says(
            show::limit_text(on, threshold) + "  [ec]"@,
        ),
        Some(DaemonResponse::GetEcBho { state: None }) => complains(
            "error: EC gave no 0x92 reply \u{2014} read failed or BHO unsupported here"@,
        ),
        _ => complains("error: daemon did not answer"@),
    }
}

pub(crate) fn read_ec_bho(response: &Option<DaemonResponse>) -> (t: Turn)
    ensures
        t@ == ec_bho(*response),
{
    match response {
        Some(DaemonResponse::GetEcBho { state: Some((on, threshold)) }) => {
            let mut s = show_limit(*on, *threshold);
            s.append("  [ec]");
            say(s)
        },
        Some(DaemonResponse::GetEcBho { state: None }) => complain(
            "error: EC gave no 0x92 reply \u{2014} read failed or BHO unsupported here",
        ),
        _ => complain("error: daemon did not answer"),
    }
}

pub open spec fn stored_boost(gpu: bool, response: Option<DaemonResponse>) -> TurnView {
    match (gpu, response) {
        (true, Some(DaemonResponse::GetGPUBoost { gpu: v })) => says(
            show::explained(v, show::boost_text(v)),
        ),
        (false, Some(DaemonResponse::GetCPUBoost { cpu: v })) => says(
            show::explained(v, show::boost_text(v)),
        ),
        _ => complains("error: daemon did not answer"@),
    }
}

pub(crate) fn read_stored_boost(gpu: bool, response: &Option<DaemonResponse>) -> (t: Turn)
    ensures
        t@ == stored_boost(gpu, *response),
{
    match response {
        Some(DaemonResponse::GetGPUBoost { gpu: v }) => {
            if gpu {
                return say(explain(*v, boost_label(*v)));
            }
        },
        Some(DaemonResponse::GetCPUBoost { cpu: v }) => {
            if !gpu {
                return say(explain(*v, boost_label(*v)));
            }
        },
        _ => {},
    }
    complain("error: daemon did not answer")
}

pub open spec fn stored_bho(response: Option<DaemonResponse>) -> TurnView {
    match response {
        Some(DaemonResponse::GetBatteryHealthOptimizer { is_on, threshold }) => if is_on {
            says(show::limit_text(true, threshold))
        } else {
            says("off"@)
        },
        Some(_) => silence(),
        None => complains("error: daemon did not answer"@),
    }
}

pub(crate) fn read_bho(response: &Option<DaemonResponse>) -> (t: Turn)
    ensures
        t@ == stored_bho(*response),
{
    match response {
        Some(DaemonResponse::GetBatteryHealthOptimizer { is_on, threshold }) => {
            if *is_on {
                say(show_limit(true, *threshold))
            } else {
                say("off".to_owned())
            }
        },
        Some(_) => quiet(),
        None => complain("error: daemon did not answer"),
    }
}

pub open spec fn bho_written(on: bool, threshold: u8, response: Option<DaemonResponse>) -> TurnView {
    match response {
        Some(DaemonResponse::SetBatteryHealthOptimizer { result }) => match (on, result) {
            (true, true) => says(show::limit_text(true, threshold)),
            (true, false) => complains(
                "Failed to turn on bho with threshold of "@ + text::dec(threshold as nat),
            ),
            (false, true) => says("Successfully turned off bho"@),
            (false, false) => complains("Failed to turn off bho"@),
        },
        Some(_) => silence(),
        None => complains("Unknown error occured when toggling bho"@),
    }
}

pub(crate) fn bho_toggled(on: bool, threshold: u8, response: &Option<DaemonResponse>) -> (t: Turn)
    ensures
        t@ == bho_written(on, threshold, *response),
{
    match response {
        Some(DaemonResponse::SetBatteryHealthOptimizer { result }) => {
            match (on, *result) {
                (true, true) => say(show_limit(true, threshold)),
                (true, false) => {
                    let mut s = "Failed to turn on bho with threshold of ".to_owned();
                    s.append(decimal(threshold as u64).as_str());
                    complain(s.as_str())
                },
                (false, true) => say("Successfully turned off bho".to_owned()),
                (false, false) => complain("Failed to turn off bho"),
            }
        },
        Some(_) => quiet(),
        None => complain("Unknown error occured when toggling bho"),
    }
}

/// What is said when an answer is of the wrong kind, or there is none.
pub open spec fn no_answer(response: Option<DaemonResponse>) -> TurnView {
    if response is Some {
        complains("error: invalid daemon response"@)
    } else {
        complains("error: daemon did not answer"@)
    }
}

fn unanswered(response: &Option<DaemonResponse>) -> (t: Turn)
    ensures
        t@ == no_answer(*response),
{
    if response.is_some() {
        complain("error: invalid daemon response")
    } else {
        complain("error: daemon did not answer")
    }
}

pub open spec fn stored_fan(response: Option<DaemonResponse>) -> TurnView {
    match response {
        Some(DaemonResponse::GetFanSpeed { rpm }) => says(show::speed_text(rpm)),
        _ => no_answer(response),
    }
}

pub(crate) fn read_fan_rpm(response: &Option<DaemonResponse>) -> (t: Turn)
    ensures
        t@ == stored_fan(*response),
{
    match response {
        Some(DaemonResponse::GetFanSpeed { rpm }) => say(show_speed(*rpm)),
        _ => unanswered(response),
    }
}

pub open spec fn actual_fan(response: Option<DaemonResponse>) -> TurnView {
    match response {
        Some(DaemonResponse::GetActualFanRpm { rpm }) => if rpm < 0 {
            complains("error: EC gave no tach reply"@)
        } else {
            says(text::signed_dec(rpm as int))
        },
        _ => no_answer(response),
    }
}

pub(crate) fn read_actual_fan_rpm(response: &Option<DaemonResponse>) -> (t: Turn)
    ensures
        t@ == actual_fan(*response),
{
    match response {
        Some(DaemonResponse::GetActualFanRpm { rpm }) => {
            if *rpm < 0 {
                complain("error: EC gave no tach reply")
            } else {
                say(signed_decimal(*rpm))
            }
        },
        _ => unanswered(response),
    }
}

pub open spec fn stored_logo(response: Option<DaemonResponse>) -> TurnView {
    match response {
        Some(DaemonResponse::GetLogoLedState { logo_state }) => says(show::logo_text(logo_state)),
        _ => no_answer(response),
    }
}

pub(crate) fn read_logo_mode(response: &Option<DaemonResponse>) -> (t: Turn)
    ensures
        t@ == stored_logo(*response),
{
    match response {
        Some(DaemonResponse::GetLogoLedState { logo_state }) => say(
            logo_label(*logo_state).to_owned(),
        ),
        _ => unanswered(response),
    }
}

pub open spec fn stored_brightness(response: Option<DaemonResponse>) -> TurnView {
    match response {
        Some(DaemonResponse::GetBrightness { result }) => says(text::dec(result as nat)),
        _ => no_answer(response),
    }
}

pub(crate) fn read_brightness(response: &Option<DaemonResponse>) -> (t: Turn)
    ensures
        t@ == stored_brightness(*response),
{
    match response {
        Some(DaemonResponse::GetBrightness { result }) => say(decimal(*result as u64)),
        _ => unanswered(response),
    }
}

/// The stored profile; Custom goes on to its boost tiers.
pub open spec fn stored_power(ac: usize, response: Option<DaemonResponse>) -> TurnView {
    match response {
        Some(DaemonResponse::GetPwrLevel { pwr }) => TurnView {
            lines: seq![show::output(show::power_text(pwr))],
            next: if pwr == 4 {
                NextView::Ask {
                    command: DaemonCommand::GetCPUBoost { ac },
                    errand: Errand::CustomCpu { ac },
                }
            } else {
                NextView::Done { failed: false }
            },
        },
        Some(_) => complains("error: invalid daemon response"@),
        None => silence(),
    }
}

pub(crate) fn read_power_mode(ac: usize, response: &Option<DaemonResponse>) -> (t: Turn)
    ensures
        t@ == stored_power(ac, *response),
{
    match response {
        Some(DaemonResponse::GetPwrLevel { pwr }) => {
            let line = Line { error: false, text: show_power(*pwr) };
            let mut t = if *pwr == 4 {
                ask(DaemonCommand::GetCPUBoost { ac }, Errand::CustomCpu { ac })
            } else {
                quiet()
            };
            t.print(line);
            assert(t@.lines =~= stored_power(ac, *response).lines);
            t
        },
        Some(_) => complain("error: invalid daemon response"),
        None => quiet(),
    }
}

/// The line on a boost tier of a stored Custom profile.
pub open spec fn custom_boost(label: Seq<char>, v: u8) -> Seq<LineView> {
    seq![show::output(label + show::explained(v, show::boost_text(v)))]
}

pub open spec fn custom_cpu(ac: usize, response: Option<DaemonResponse>) -> TurnView {
    TurnView {
        lines: match response {
            Some(DaemonResponse::GetCPUBoost { cpu }) => custom_boost("boost cpu: "@, cpu),
            _ => seq![],
        },
        next: NextView::Ask { command: DaemonCommand::GetGPUBoost { ac }, errand: Errand::CustomGpu },
    }
}

pub(crate) fn read_custom_cpu(ac: usize, response: &Option<DaemonResponse>) -> (t: Turn)
    ensures
        t@ == custom_cpu(ac, *response),
{
    let mut t = ask(DaemonCommand::GetGPUBoost { ac }, Errand::CustomGpu);
    if let Some(DaemonResponse::GetCPUBoost { cpu }) = response {
        let mut s = "boost cpu: ".to_owned();
        s.append(explain(*cpu, boost_label(*cpu)).as_str());
        t.print(Line { error: false, text: s });
    }
    assert(t@.lines =~= custom_cpu(ac, *response).lines);
    t
}

pub open spec fn custom_gpu(response: Option<DaemonResponse>) -> TurnView {
    TurnView {
        lines: match response {
            Some(DaemonResponse::GetGPUBoost { gpu }) => custom_boost("boost gpu: "@, gpu),
            _ => seq![],
        },
        next: NextView::Done { failed: false },
    }
}

pub(crate) fn read_custom_gpu(response: &Option<DaemonResponse>) -> (t: Turn)
    ensures
        t@ == custom_gpu(*response),
{
    let mut t = quiet();
    if let Some(DaemonResponse::GetGPUBoost { gpu }) = response {
        let mut s = "boost gpu: ".to_owned();
        s.append(explain(*gpu, boost_label(*gpu)).as_str());
        t.print(Line { error: false, text: s });
    }
    assert(t@.lines =~= custom_gpu(*response).lines);
    t
}

/// After a power request: show what is stored now, or say what is offered.
pub open spec fn power_written(ac: usize, response: Option<DaemonResponse>) -> TurnView {
    match response {
        Some(DaemonResponse::SetPowerMode { result: false }) => asks(
            DaemonCommand::GetCapabilities { ac },
            Errand::PowerOffer,
        ),
        Some(_) => asks(DaemonCommand::GetPwrLevel { ac }, Errand::StoredPower { ac }),
        None => misuse(
            UsageKind::DisplayHelp,
            "An error occurred while sending the command to the daemon"@,
        ),
    }
}

pub(crate) fn power_mode_written(ac: usize, response: &Option<DaemonResponse>) -> (t: Turn)
    ensures
        t@ == power_written(ac, *response),
{
    match power_answer(response) {
        PowerAnswer::Refused => ask(DaemonCommand::GetCapabilities { ac }, Errand::PowerOffer),
        PowerAnswer::Show => ask(DaemonCommand::GetPwrLevel { ac }, Errand::StoredPower { ac }),
        PowerAnswer::Unanswered => misused(unanswered_power()),
    }
}

/// After a refused power request: complain with what the model offers.
pub open spec fn power_offer(response: Option<DaemonResponse>) -> TurnView {
    misuse(UsageKind::InvalidValue, request::refused_power_text(response))
}

pub(crate) fn power_mode_refused(response: &Option<DaemonResponse>) -> (t: Turn)
    ensures
        t@ == power_offer(*response),
{
    misused(refused_power(response))
}

/// After a write of the brightness: show what is stored now.
pub open spec fn brightness_written(ac: usize, response: Option<DaemonResponse>) -> TurnView {
    if response is Some {
        asks(DaemonCommand::GetBrightness { ac }, Errand::StoredBrightness)
    } else {
        complains("Unknown error!"@)
    }
}

pub(crate) fn write_brightness(ac: usize, response: &Option<DaemonResponse>) -> (t: Turn)
    ensures
        t@ == brightness_written(ac, *response),
{
    if response.is_some() {
        ask(DaemonCommand::GetBrightness { ac }, Errand::StoredBrightness)
    } else {
        complain("Unknown error!")
    }
}

/// After a write of the logo state: show what is stored now.
pub open spec fn logo_written(ac: usize, response: Option<DaemonResponse>) -> TurnView {
    if response is Some {
        asks(DaemonCommand::GetLogoLedState { ac }, Errand::StoredLogo)
    } else {
        complains("Unknown error!"@)
    }
}

pub(crate) fn write_logo_mode(ac: usize, response: &Option<DaemonResponse>) -> (t: Turn)
    ensures
        t@ == logo_written(ac, *response),
{
    if response.is_some() {
        ask(DaemonCommand::GetLogoLedState { ac }, Errand::StoredLogo)
    } else {
        complain("Unknown error!")
    }
}

/// After a write of the fan speed: show what is stored now, or report the
/// refusal.
pub open spec fn fan_written(ac: usize, rpm: i32, response: Option<DaemonResponse>) -> TurnView {
    match response {
        Some(DaemonResponse::SetFanSpeed { result: false }) => fails(
            "Daemon rejected fan rpm "@ + text::signed_dec(rpm as int)
                + " (0 = auto, otherwise the model range; see `journalctl --user -u razercontrol`)."@,
        ),
        Some(_) => asks(DaemonCommand::GetFanSpeed { ac }, Errand::StoredFan),
        None => complains("Unknown error!"@),
    }
}

pub(crate) fn write_fan_speed(ac: usize, rpm: i32, response: &Option<DaemonResponse>) -> (t: Turn)
    ensures
        t@ == fan_written(ac, rpm, *response),
{
    match response {
        Some(DaemonResponse::SetFanSpeed { result: false }) => {
            let mut s = "Daemon rejected fan rpm ".to_owned();
            s.append(signed_decimal(rpm).as_str());
            s.append(
                " (0 = auto, otherwise the model range; see `journalctl --user -u razercontrol`).",
            );
            fail(s.as_str())
        },
        Some(_) => ask(DaemonCommand::GetFanSpeed { ac }, Errand::StoredFan),
        None => complain("Unknown error!"),
    }
}

pub open spec fn charger(response: Option<DaemonResponse>) -> TurnView {
    match response {
        Some(DaemonResponse::GetCharger { actp: Some(v) }) => says(show::charger_text(v)),
        Some(DaemonResponse::GetCharger { actp: None }) => fails(
            "charger: EC read failed (no value)"@,
        ),
        _ => fails("charger: unexpected or no response from daemon"@),
    }
}

pub(crate) fn read_charger(response: &Option<DaemonResponse>) -> (t: Turn)
    ensures
        t@ == charger(*response),
{
    match response {
        Some(DaemonResponse::GetCharger { actp: Some(v) }) => say(show_charger(*v)),
        Some(DaemonResponse::GetCharger { actp: None }) => fail(
            "charger: EC read failed (no value)",
        ),
        _ => fail("charger: unexpected or no response from daemon"),
    }
}

/// The lines of the GPU list.
pub open spec fn gpu_lines(gpus: Seq<GpuInfo>, dgpu_runtime_pm: bool) -> Seq<LineView> {
    seq![show::output("Detected GPUs:"@)] + gpus.map_values(
        |g: GpuInfo| show::output(show::gpu_text(g)),
    ) + seq![
        show::output(
            "dGPU Runtime PM: "@ + (if dgpu_runtime_pm {
                "auto (power saving)"@
            } else {
                "on (always active)"@
            }),
        ),
    ]
}

pub open spec fn gpu_list(response: Option<DaemonResponse>) -> TurnView {
    match response {
        Some(DaemonResponse::GetGpuStatus { gpus, dgpu_runtime_pm }) => TurnView {
            lines: gpu_lines(gpus@, dgpu_runtime_pm),
            next: NextView::Done { failed: false },
        },
        _ => no_answer(response),
    }
}

pub(crate) fn read_gpu_status(response: &Option<DaemonResponse>) -> (t: Turn)
    ensures
        t@ == gpu_list(*response),
{
    match response {
        Some(DaemonResponse::GetGpuStatus { gpus, dgpu_runtime_pm }) => {
            let mut t = say("Detected GPUs:".to_owned());
            let mut i: usize = 0;
            let ghost listed = gpus@.map_values(|g: GpuInfo| show::output(show::gpu_text(g)));
            assert(t@.lines =~= seq![show::output("Detected GPUs:"@)] + listed.take(0));
            while i < gpus.len()
                invariant
                    i <= gpus@.len(),
                    listed == gpus@.map_values(|g: GpuInfo| show::output(show::gpu_text(g))),
                    t@.lines == seq![show::output("Detected GPUs:"@)] + listed.take(i as int),
                    t.next@ == (NextView::Done { failed: false }),
                decreases gpus@.len() - i,
            {
                let ghost before = t@.lines;
                t.print(Line { error: false, text: show_gpu(&gpus[i]) });
                assert(t@.lines =~= before.push(listed[i as int]));
                i = i + 1;
                assert(t@.lines =~= seq![show::output("Detected GPUs:"@)] + listed.take(i as int));
            }
            assert(listed.take(i as int) =~= listed);
            let mut s = "dGPU Runtime PM: ".to_owned();
            if *dgpu_runtime_pm {
                s.append("auto (power saving)");
            } else {
                s.append("on (always active)");
            }
            t.print(Line { error: false, text: s });
            assert(t@.lines =~= gpu_lines(gpus@, *dgpu_runtime_pm));
            t
        },
        _ => unanswered(response),
    }
}

/// The curve that the daemon told, or what is said when it told none.
pub open spec fn no_curve(response: Option<DaemonResponse>) -> TurnView {
    if response is Some {
        complains("error: invalid daemon response"@)
    } else {
        complains("Unknown daemon error!"@)
    }
}

fn get_fan_curve(response: Option<DaemonResponse>) -> (r: Result<FanCurve, Turn>)
    ensures
        match response {
            Some(DaemonResponse::GetFanCurve { curve }) => r == Ok::<FanCurve, Turn>(curve),
            _ => r matches Err(t) && t@ == no_curve(response),
        },
{
    match response {
        Some(DaemonResponse::GetFanCurve { curve }) => Ok(curve),
        Some(_) => Err(complain("error: invalid daemon response")),
        None => Err(complain("Unknown daemon error!")),
    }
}

/// The lines on a curve.
pub open spec fn curve_lines(curve: FanCurveView) -> Seq<LineView> {
    seq![
        show::output(
            "Smart fan curve: "@ + (if curve.enabled {
                "enabled"@
            } else {
                "disabled"@
            }),
        ),
        show::output("Temperature source: "@ + show::source_text(curve.source)),
        show::output("CPU points: "@ + points::shown_points(curve.cpu_points)),
        show::output("GPU points: "@ + points::shown_points(curve.gpu_points)),
    ]
}

pub open spec fn stored_curve(response: Option<DaemonResponse>) -> TurnView {
    match response {
        Some(DaemonResponse::GetFanCurve { curve }) => TurnView {
            lines: curve_lines(curve@),
            next: NextView::Done { failed: false },
        },
        _ => no_curve(response),
    }
}

pub(crate) fn read_fan_curve(response: Option<DaemonResponse>) -> (t: Turn)
    ensures
        t@ == stored_curve(response),
{
    match get_fan_curve(response) {
        Ok(curve) => {
            let mut lines: Vec<Line> = Vec::new();
            let mut enabled = "Smart fan curve: ".to_owned();
            if curve.enabled {
                enabled.append("enabled");
            } else {
                enabled.append("disabled");
            }
            lines.push(Line { error: false, text: enabled });
            let mut source = "Temperature source: ".to_owned();
            source.append(source_label(curve.source));
            lines.push(Line { error: false, text: source });
            let mut cpu = "CPU points: ".to_owned();
            cpu.append(format_points(&curve.cpu_points).as_str());
            lines.push(Line { error: false, text: cpu });
            let mut gpu = "GPU points: ".to_owned();
            gpu.append(format_points(&curve.gpu_points).as_str());
            lines.push(Line { error: false, text: gpu });
            let t = Turn { lines, next: Next::Done { failed: false } };
            assert(t@.lines =~= curve_lines(curve@));
            t
        },
        Err(t) => t,
    }
}

/// The arguments change the stored curve, which goes back to the daemon.
pub open spec fn edited_curve(params: FanCurveParams, response: Option<DaemonResponse>) -> TurnView {
    match response {
        Some(DaemonResponse::GetFanCurve { curve }) => match points::edited(params, curve@) {
            Ok(edited) => TurnView {
                lines: seq![],
                next: NextView::AskCurve { ac: params.ac_state.slot(), curve: edited },
            },
            Err(e) => misuse(UsageKind::InvalidValue, e),
        },
        _ => no_curve(response),
    }
}

pub(crate) fn edit_curve(params: FanCurveParams, response: Option<DaemonResponse>) -> (t: Turn)
    ensures
        t@ == edited_curve(params, response),
{
    match get_fan_curve(response) {
        Ok(stored) => match write_fan_curve(&params, stored) {
            Ok(curve) => {
                let ac = params.ac_state.as_index();
                let t = Turn {
                    lines: Vec::new(),
                    next: Next::Ask {
                        command: DaemonCommand::SetFanCurve { ac, curve },
                        errand: Errand::CurveWritten { ac },
                    },
                };
                assert(t@.lines =~= Seq::<LineView>::empty());
                t
            },
            Err(message) => misused(UsageError { kind: UsageKind::InvalidValue, message }),
        },
        Err(t) => t,
    }
}

/// After a write of a curve: show what is stored now.
pub open spec fn curve_written(ac: usize, response: Option<DaemonResponse>) -> TurnView {
    match response {
        Some(DaemonResponse::SetFanCurve { result }) => if result {
            asks(DaemonCommand::GetFanCurve { ac }, Errand::StoredCurve)
        } else {
            complains("Failed to save fan curve"@)
        },
        _ => no_answer(response),
    }
}

pub(crate) fn fan_curve_written(ac: usize, response: &Option<DaemonResponse>) -> (t: Turn)
    ensures
        t@ == curve_written(ac, *response),
{
    match response {
        Some(DaemonResponse::SetFanCurve { result }) => {
            if *result {
                ask(DaemonCommand::GetFanCurve { ac }, Errand::StoredCurve)
            } else {
                complain("Failed to save fan curve")
            }
        },
        _ => unanswered(response),
    }
}

} // verus!
