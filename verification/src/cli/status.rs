//! The table of what should hold and what does.

use vstd::prelude::*;

use crate::cli::show;
use crate::cli::show::{
    domain_label, on_off_text, show_brightness, show_charger, show_fan, show_limit, show_power, Line,
};
use crate::comms::DesiredStateWire;
use crate::text;
use crate::text::{decimal, pad};

verus! {

/// A row of the table: a label, what should hold, and what does.
pub open spec fn row(label: Seq<char>, desired: Seq<char>, actual: Seq<char>) -> Seq<char> {
    text::filled(label, 11) + " "@ + text::filled(desired, 30) + " "@ + actual
}

fn show_row(label: &str, desired: &str, actual: &str) -> (r: Line)
    ensures
        r@ == show::output(row(label@, desired@, actual@)),
{
    let mut r = pad(label, 11);
    r.append(" ");
    r.append(pad(desired, 30).as_str());
    r.append(" ");
    r.append(actual);
    Line { error: false, text: r }
}

/// The head of the table.
pub open spec fn head_row() -> Seq<char> {
    row(""@, "DESIRED"@, "ACTUAL"@)
}

pub fn show_head() -> (r: Line)
    ensures
        r@ == show::output(head_row()),
{
    show_row("", "DESIRED", "ACTUAL")
}

pub open spec fn domain_row(d: DesiredStateWire, charger: Option<u8>) -> Seq<char> {
    row(
        "domain"@,
        show::domain_text(d.domain),
        match charger {
            Some(class) => show::charger_text(class) + "  [ec]"@,
            None => "error: no reply"@,
        },
    )
}

pub fn show_domain(d: &DesiredStateWire, charger: Option<u8>) -> (r: Line)
    ensures
        r@ == show::output(domain_row(*d, charger)),
{
    let actual = match charger {
        Some(class) => {
            let mut s = show_charger(class);
            s.append("  [ec]");
            s
        },
        None => "error: no reply".to_owned(),
    };
    show_row("domain", domain_label(&d.domain), actual.as_str())
}

/// A value that came from the controller.
pub open spec fn from_controller(v: u8) -> Seq<char> {
    text::dec(v as nat) + "  [ec]"@
}

pub fn show_from_controller(v: u8) -> (r: String)
    ensures
        r@ == from_controller(v),
{
    let mut r = decimal(v as u64);
    r.append("  [ec]");
    r
}

pub open spec fn power_row(d: DesiredStateWire, zone: Option<(u8, u8)>) -> Seq<char> {
    row(
        "power"@,
        show::power_text(d.wire),
        match zone {
            Some((mode, _)) => from_controller(mode),
            None => "error: no 0x82 reply"@,
        },
    )
}

pub fn show_power_row(d: &DesiredStateWire, zone: Option<(u8, u8)>) -> (r: Line)
    ensures
        r@ == show::output(power_row(*d, zone)),
{
    let actual = match zone {
        Some((mode, _)) => show_from_controller(mode),
        None => "error: no 0x82 reply".to_owned(),
    };
    show_row("power", show_power(d.wire).as_str(), actual.as_str())
}

/// Both boost tiers.
pub open spec fn boosts_text(cpu: u8, gpu: u8) -> Seq<char> {
    "cpu "@ + text::dec(cpu as nat) + " / gpu "@ + text::dec(gpu as nat)
}

fn show_boosts(cpu: u8, gpu: u8) -> (r: String)
    ensures
        r@ == boosts_text(cpu, gpu),
{
    let mut r = "cpu ".to_owned();
    r.append(decimal(cpu as u64).as_str());
    r.append(" / gpu ");
    r.append(decimal(gpu as u64).as_str());
    r
}

pub open spec fn boost_row(d: DesiredStateWire, cpu: Option<u8>, gpu: Option<u8>) -> Seq<char> {
    row(
        "boost"@,
        match d.boosts {
            Some((c, g)) => boosts_text(c, g),
            None => "\u{2014}"@,
        },
        match (cpu, gpu) {
            (Some(c), Some(g)) => boosts_text(c, g) + "  [ec]"@,
            _ => "error: no 0x87 reply"@,
        },
    )
}

pub fn show_boost_row(d: &DesiredStateWire, cpu: Option<u8>, gpu: Option<u8>) -> (r: Line)
    ensures
        r@ == show::output(boost_row(*d, cpu, gpu)),
{
    let desired = match d.boosts {
        Some((c, g)) => show_boosts(c, g),
        None => "\u{2014}".to_owned(),
    };
    let actual = match (cpu, gpu) {
        (Some(c), Some(g)) => {
            let mut s = show_boosts(c, g);
            s.append("  [ec]");
            s
        },
        _ => "error: no 0x87 reply".to_owned(),
    };
    show_row("boost", desired.as_str(), actual.as_str())
}

/// What marks a lighting value while the daemon writes no lighting.
pub open spec fn lighting_tag(d: DesiredStateWire) -> Seq<char> {
    if d.lighting {
        ""@
    } else {
        "  [lighting off \u{2014} stored only]"@
    }
}

fn show_lighting_tag(d: &DesiredStateWire) -> (r: &'static str)
    ensures
        r@ == lighting_tag(*d),
{
    if d.lighting {
        ""
    } else {
        "  [lighting off \u{2014} stored only]"
    }
}

pub open spec fn brightness_row(d: DesiredStateWire, actual: Option<u8>) -> Seq<char> {
    row(
        "brightness"@,
        show::brightness_text(d.brightness) + lighting_tag(d),
        match actual {
            Some(b) => from_controller(b),
            None => "error: no 0x83 reply"@,
        },
    )
}

pub fn show_brightness_row(d: &DesiredStateWire, actual: Option<u8>) -> (r: Line)
    ensures
        r@ == show::output(brightness_row(*d, actual)),
{
    let mut desired = show_brightness(d.brightness);
    desired.append(show_lighting_tag(d));
    let actual = match actual {
        Some(b) => show_from_controller(b),
        None => "error: no 0x83 reply".to_owned(),
    };
    show_row("brightness", desired.as_str(), actual.as_str())
}

/// What the fans should do.
pub open spec fn fan_goal(d: DesiredStateWire) -> Seq<char> {
    match show::fan_text(d.fan_mode, d.fan_rpm) {
        Some(s) => s,
        None => "unknown mode "@ + text::dec(d.fan_mode as nat),
    }
}

/// What the fans do: both tachometers, the zone's mode and its setpoint.
pub open spec fn fan_actual(
    zone: Option<(u8, u8)>,
    tachs: (Option<u16>, Option<u16>),
    setpoint: Option<u16>,
) -> Seq<char> {
    (match tachs {
        (Some(a), Some(b)) => "tach z1 "@ + text::dec(a as nat) + " / z2 "@ + text::dec(b as nat)
            + " rpm"@,
        _ => "tach: error"@,
    }) + " \u{b7} "@ + (match zone {
        Some((_, f)) => "mode "@ + text::dec(f as nat) + " ("@ + (if f == 0 {
            "auto"@
        } else {
            "manual"@
        }) + ")"@,
        None => "mode ?"@,
    }) + " \u{b7} "@ + (match setpoint {
        Some(v) => "setpoint "@ + text::dec(v as nat) + " rpm"@,
        None => "setpoint ?"@,
    }) + "  [ec]"@
}

fn show_fan_actual(
    zone: Option<(u8, u8)>,
    tachs: (Option<u16>, Option<u16>),
    setpoint: Option<u16>,
) -> (r: String)
    ensures
        r@ == fan_actual(zone, tachs, setpoint),
{
    let tach = match tachs {
        (Some(a), Some(b)) => {
            let mut s = "tach z1 ".to_owned();
            s.append(decimal(a as u64).as_str());
            s.append(" / z2 ");
            s.append(decimal(b as u64).as_str());
            s.append(" rpm");
            s
        },
        _ => "tach: error".to_owned(),
    };
    let mode = match zone {
        Some((_, f)) => {
            let mut s = "mode ".to_owned();
            s.append(decimal(f as u64).as_str());
            s.append(" (");
            if f == 0 {
                s.append("auto");
            } else {
                s.append("manual");
            }
            s.append(")");
            s
        },
        None => "mode ?".to_owned(),
    };
    let goal = match setpoint {
        Some(v) => {
            let mut s = "setpoint ".to_owned();
            s.append(decimal(v as u64).as_str());
            s.append(" rpm");
            s
        },
        None => "setpoint ?".to_owned(),
    };
    let mut r = tach;
    r.append(" \u{b7} ");
    r.append(mode.as_str());
    r.append(" \u{b7} ");
    r.append(goal.as_str());
    r.append("  [ec]");
    r
}

pub open spec fn fan_row(
    d: DesiredStateWire,
    zone: Option<(u8, u8)>,
    tachs: (Option<u16>, Option<u16>),
    setpoint: Option<u16>,
) -> Seq<char> {
    row("fan"@, fan_goal(d), fan_actual(zone, tachs, setpoint))
}

pub fn show_fan_row(
    d: &DesiredStateWire,
    zone: Option<(u8, u8)>,
    tachs: (Option<u16>, Option<u16>),
    setpoint: Option<u16>,
) -> (r: Line)
    ensures
        r@ == show::output(fan_row(*d, zone, tachs, setpoint)),
{
    let goal = match show_fan(d.fan_mode, d.fan_rpm) {
        Some(s) => s,
        None => {
            let mut s = "unknown mode ".to_owned();
            s.append(decimal(d.fan_mode as u64).as_str());
            s
        },
    };
    let actual = show_fan_actual(zone, tachs, setpoint);
    show_row("fan", goal.as_str(), actual.as_str())
}

pub open spec fn limit_row(d: DesiredStateWire, actual: Option<(bool, u8)>) -> Seq<char> {
    row(
        "bho"@,
        show::on_off(d.bho_on) + ", "@ + text::dec(d.bho_threshold as nat) + " %"@,
        match actual {
            Some((on, threshold)) => show::limit_text(on, threshold) + "  [ec]"@,
            None => "error: no 0x92 reply"@,
        },
    )
}

pub fn show_limit_row(d: &DesiredStateWire, actual: Option<(bool, u8)>) -> (r: Line)
    ensures
        r@ == show::output(limit_row(*d, actual)),
{
    let mut desired = on_off_text(d.bho_on).to_owned();
    desired.append(", ");
    desired.append(decimal(d.bho_threshold as u64).as_str());
    desired.append(" %");
    let actual = match actual {
        Some((on, threshold)) => {
            let mut s = show_limit(on, threshold);
            s.append("  [ec]");
            s
        },
        None => "error: no 0x92 reply".to_owned(),
    };
    show_row("bho", desired.as_str(), actual.as_str())
}

/// The logo cannot be read back.
pub open spec fn logo_row(d: DesiredStateWire) -> Seq<char> {
    row(
        "logo"@,
        show::explained(d.logo, show::on_off(d.logo != 0)) + lighting_tag(d),
        "\u{2014}"@,
    )
}

pub fn show_logo_row(d: &DesiredStateWire) -> (r: Line)
    ensures
        r@ == show::output(logo_row(*d)),
{
    let mut desired = show::explain(d.logo, on_off_text(d.logo != 0));
    desired.append(show_lighting_tag(d));
    show_row("logo", desired.as_str(), "\u{2014}")
}

} // verus!
