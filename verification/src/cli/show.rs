//! What the command line prints.

use vstd::prelude::*;

use crate::comms;
use crate::comms::{profile_name, ChargerDomainWire, CurveTempSource, GpuInfo};
use crate::text;
use crate::text::{decimal, hex_byte, same_text, signed_decimal};

verus! {

/// A line for standard output or, when `error` holds, for standard error.
#[derive(Debug)]
pub struct Line {
    pub error: bool,
    pub text: String,
}

/// Where a line goes and what it says.
pub struct LineView {
    pub error: bool,
    pub text: Seq<char>,
}

impl View for Line {
    type V = LineView;

    open spec fn view(&self) -> LineView {
        LineView { error: self.error, text: self.text@ }
    }
}

/// A line for standard output.
pub open spec fn output(text: Seq<char>) -> LineView {
    LineView { error: false, text }
}

/// A line for standard error.
pub open spec fn complaint(text: Seq<char>) -> LineView {
    LineView { error: true, text }
}

/// What lines say.
pub open spec fn shown(lines: Seq<Line>) -> Seq<LineView> {
    lines.map_values(|l: Line| l@)
}

pub open spec fn on_off(on: bool) -> Seq<char> {
    if on {
        "on"@
    } else {
        "off"@
    }
}

pub fn on_off_text(on: bool) -> (r: &'static str)
    ensures
        r@ == on_off(on),
{
    if on {
        "on"
    } else {
        "off"
    }
}

pub open spec fn domain_text(d: ChargerDomainWire) -> Seq<char> {
    match d {
        ChargerDomainWire::Barrel => "Barrel"@,
        ChargerDomainWire::Pd => "PD"@,
        ChargerDomainWire::Battery => "Battery"@,
    }
}

pub fn domain_label(d: &ChargerDomainWire) -> (r: &'static str)
    ensures
        r@ == domain_text(*d),
{
    match d {
        ChargerDomainWire::Barrel => "Barrel",
        ChargerDomainWire::Pd => "PD",
        ChargerDomainWire::Battery => "Battery",
    }
}

pub open spec fn boost_text(v: u8) -> Seq<char> {
    if v == 0 {
        "Low"@
    } else if v == 1 {
        "Medium"@
    } else if v == 2 {
        "High"@
    } else if v == 3 {
        "Max"@
    } else {
        "Unknown"@
    }
}

pub fn boost_label(v: u8) -> (r: &'static str)
    ensures
        r@ == boost_text(v),
{
    match v {
        0 => "Low",
        1 => "Medium",
        2 => "High",
        3 => "Max",
        _ => "Unknown",
    }
}

pub open spec fn source_text(source: CurveTempSource) -> Seq<char> {
    match source {
        CurveTempSource::Cpu => "CPU"@,
        CurveTempSource::Gpu => "GPU"@,
        CurveTempSource::Both => "Both (higher resulting RPM)"@,
    }
}

pub fn source_label(source: CurveTempSource) -> (r: &'static str)
    ensures
        r@ == source_text(source),
{
    match source {
        CurveTempSource::Cpu => "CPU",
        CurveTempSource::Gpu => "GPU",
        CurveTempSource::Both => "Both (higher resulting RPM)",
    }
}

/// A value and what it means: `value (meaning)`.
pub open spec fn explained(value: u8, meaning: Seq<char>) -> Seq<char> {
    text::dec(value as nat) + " ("@ + meaning + ")"@
}

pub fn explain(value: u8, meaning: &str) -> (r: String)
    ensures
        r@ == explained(value, meaning@),
{
    let mut r = decimal(value as u64);
    r.append(" (");
    r.append(meaning);
    r.append(")");
    r
}

/// A profile by its wire value; the two Balanced values name their domain.
pub open spec fn power_text(wire: u8) -> Seq<char> {
    explained(
        wire,
        if wire == 0 {
            "Balanced (AC)"@
        } else if wire == 6 {
            "Balanced (battery)"@
        } else {
            comms::profile_label(wire)
        },
    )
}

pub fn show_power(wire: u8) -> (r: String)
    ensures
        r@ == power_text(wire),
{
    let name = match wire {
        0 => "Balanced (AC)",
        6 => "Balanced (battery)",
        _ => profile_name(wire),
    };
    explain(wire, name)
}

/// A brightness out of 255 as a rounded percentage.
pub open spec fn brightness_percent(v: u8) -> nat {
    ((v as nat * 100 * 100) / 255 + 50) / 100
}

/// A brightness with its percentage.
pub open spec fn brightness_text(v: u8) -> Seq<char> {
    text::dec(v as nat) + " ("@ + text::dec(brightness_percent(v)) + " %)"@
}

pub fn show_brightness(v: u8) -> (r: String)
    ensures
        r@ == brightness_text(v),
{
    let wide: u32 = v as u32;
    let percent: u32 = (wide * 100 * 100 / 255 + 50) / 100;
    let mut r = decimal(v as u64);
    r.append(" (");
    r.append(decimal(percent as u64).as_str());
    r.append(" %)");
    r
}

/// What the fans should do; `None` when the mode is not known.
pub open spec fn fan_text(mode: u8, rpm: i32) -> Option<Seq<char>> {
    if mode == 0 {
        Some("Auto"@)
    } else if mode == 1 {
        Some("Manual "@ + text::signed_dec(rpm as int) + " rpm"@)
    } else if mode == 2 {
        Some("Curve"@)
    } else {
        None
    }
}

pub fn show_fan(mode: u8, rpm: i32) -> (r: Option<String>)
    ensures
        r is Some <==> fan_text(mode, rpm) is Some,
        r matches Some(s) ==> fan_text(mode, rpm) == Some(s@),
{
    match mode {
        0 => Some("Auto".to_owned()),
        1 => {
            let mut r = "Manual ".to_owned();
            r.append(signed_decimal(rpm).as_str());
            r.append(" rpm");
            Some(r)
        },
        2 => Some("Curve".to_owned()),
        _ => None,
    }
}

/// A charge limit with its threshold: `on (threshold 80 %)`.
pub open spec fn limit_text(on: bool, threshold: u8) -> Seq<char> {
    on_off(on) + " (threshold "@ + text::dec(threshold as nat) + " %)"@
}

pub fn show_limit(on: bool, threshold: u8) -> (r: String)
    ensures
        r@ == limit_text(on, threshold),
{
    let mut r = on_off_text(on).to_owned();
    r.append(" (threshold ");
    r.append(decimal(threshold as u64).as_str());
    r.append(" %)");
    r
}

/// An adapter class: `0x` and two hexadecimal digits.
pub open spec fn charger_text(class: u8) -> Seq<char> {
    "0x"@ + text::hex2(class)
}

pub fn show_charger(class: u8) -> (r: String)
    ensures
        r@ == charger_text(class),
{
    let mut r = "0x".to_owned();
    r.append(hex_byte(class).as_str());
    r
}

/// A stored fan speed.
pub open spec fn speed_text(rpm: i32) -> Seq<char> {
    if rpm < 0 {
        "Unknown"@
    } else if rpm == 0 {
        "Auto (0)"@
    } else {
        text::signed_dec(rpm as int) + " RPM"@
    }
}

pub fn show_speed(rpm: i32) -> (r: String)
    ensures
        r@ == speed_text(rpm),
{
    if rpm < 0 {
        "Unknown".to_owned()
    } else if rpm == 0 {
        "Auto (0)".to_owned()
    } else {
        let mut r = signed_decimal(rpm);
        r.append(" RPM");
        r
    }
}

/// A stored logo state.
pub open spec fn logo_text(state: u8) -> Seq<char> {
    if state == 0 {
        "Off"@
    } else if state == 1 {
        "On"@
    } else if state == 2 {
        "Breathing"@
    } else {
        "Unknown"@
    }
}

pub fn logo_label(state: u8) -> (r: &'static str)
    ensures
        r@ == logo_text(state),
{
    match state {
        0 => "Off",
        1 => "On",
        2 => "Breathing",
        _ => "Unknown",
    }
}

/// One GPU of the list.
pub open spec fn gpu_text(gpu: GpuInfo) -> Seq<char> {
    "  "@ + (if gpu.gpu_type@ == "dgpu"@ {
        "dGPU"@
    } else {
        "iGPU"@
    }) + " ["@ + gpu.pci_slot@ + "] "@ + gpu.name@ + " (driver: "@ + gpu.driver@ + ", status: "@
        + gpu.runtime_status@ + ")"@
}

pub fn show_gpu(gpu: &GpuInfo) -> (r: String)
    ensures
        r@ == gpu_text(*gpu),
{
    let mut r = "  ".to_owned();
    if same_text(gpu.gpu_type.as_str(), "dgpu") {
        r.append("dGPU");
    } else {
        r.append("iGPU");
    }
    r.append(" [");
    r.append(gpu.pci_slot.as_str());
    r.append("] ");
    r.append(gpu.name.as_str());
    r.append(" (driver: ");
    r.append(gpu.driver.as_str());
    r.append(", status: ");
    r.append(gpu.runtime_status.as_str());
    r.append(")");
    r
}

} // verus!
