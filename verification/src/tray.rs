//! The tooltip of the tray icon.

use vstd::prelude::*;

use crate::gpu;
use crate::gpu::file_says;
use crate::text;
use crate::text::{decimal, join, parse_unsigned, same_text, signed_decimal, trim};

verus! {

/// What the tooltip tells.
#[derive(Debug)]
pub struct SensorState {
    pub fan_speed: Option<i32>,
    pub on_ac: Option<bool>,
    pub battery_pct: Option<u8>,
    pub battery_status: Option<String>,
    /// Battery power in watts, written with one decimal.
    pub battery_power: Option<String>,
}

impl SensorState {
    /// The line on the fan.
    pub open spec fn fan_line(self) -> Seq<Seq<char>> {
        match self.fan_speed {
            Some(rpm) => seq![
                if rpm == 0 {
                    "Fan: Auto"@
                } else {
                    "Fan: "@ + text::signed_dec(rpm as int) + " RPM"@
                },
            ],
            None => seq![],
        }
    }

    /// The battery says this of itself.
    pub open spec fn battery_says(self, what: Seq<char>) -> bool {
        self.battery_status matches Some(s) && s@ == what
    }

    /// The line on the power source.
    pub open spec fn power_line(self) -> Seq<Seq<char>> {
        match (self.on_ac, self.battery_pct) {
            (Some(true), Some(pct)) => {
                let plain = "AC / "@ + text::dec(pct as nat) + "%"@;
                seq![
                    if self.battery_says("Not charging"@) {
                        plain + " (Limit)"@
                    } else if self.battery_says("Charging"@) && self.battery_power is Some {
                        plain + " +"@ + self.battery_power->0@ + "W"@
                    } else {
                        plain
                    },
                ]
            },
            (Some(true), None) => seq!["AC Power"@],
            (Some(false), Some(pct)) => {
                let plain = "Battery "@ + text::dec(pct as nat) + "%"@;
                seq![
                    match self.battery_power {
                        Some(w) => plain + " \u{2212}"@ + w@ + "W"@,
                        None => plain,
                    },
                ]
            },
            (Some(false), None) => seq!["Battery"@],
            (None, _) => seq![],
        }
    }

    /// The whole tooltip.
    pub open spec fn tooltip(self) -> Seq<char> {
        let lines = self.fan_line() + self.power_line();
        if lines.len() == 0 {
            "Razer Control"@
        } else {
            text::joined(lines, "\n"@)
        }
    }

    /// Whether there is anything to tell.
    pub fn has_data(&self) -> (r: bool)
        ensures
            r == (self.fan_speed is Some || self.on_ac is Some),
    {
        self.fan_speed.is_some() || self.on_ac.is_some()
    }

    fn battery_is(&self, what: &str) -> (r: bool)
        ensures
            r == self.battery_says(what@),
    {
        match &self.battery_status {
            Some(s) => same_text(s.as_str(), what),
            None => false,
        }
    }

    /// The whole tooltip.
    pub fn format_lines(&self) -> (r: String)
        ensures
            r@ == self.tooltip(),
    {
        let mut lines: Vec<String> = Vec::new();
        if let Some(rpm) = self.fan_speed {
            if rpm == 0 {
                lines.push("Fan: Auto".to_owned());
            } else {
                let mut line = "Fan: ".to_owned();
                line.append(signed_decimal(rpm).as_str());
                line.append(" RPM");
                lines.push(line);
            }
        }
        assert(text::views(lines@) =~= self.fan_line());
        match (self.on_ac, self.battery_pct) {
            (Some(true), Some(pct)) => {
                let mut line = "AC / ".to_owned();
                line.append(decimal(pct as u64).as_str());
                line.append("%");
                if self.battery_is("Not charging") {
                    line.append(" (Limit)");
                } else if self.battery_is("Charging") {
                    if let Some(w) = &self.battery_power {
                        line.append(" +");
                        line.append(w.as_str());
                        line.append("W");
                    }
                }
                lines.push(line);
            },
            (Some(true), None) => {
                lines.push("AC Power".to_owned());
            },
            (Some(false), Some(pct)) => {
                let mut line = "Battery ".to_owned();
                line.append(decimal(pct as u64).as_str());
                line.append("%");
                if let Some(w) = &self.battery_power {
                    line.append(" \u{2212}");
                    line.append(w.as_str());
                    line.append("W");
                }
                lines.push(line);
            },
            (Some(false), None) => {
                lines.push("Battery".to_owned());
            },
            _ => {},
        }
        assert(text::views(lines@) =~= self.fan_line() + self.power_line());
        if lines.len() == 0 {
            "Razer Control".to_owned()
        } else {
            join(&lines, "\n")
        }
    }
}

/// Whether an adapter is online: what the first adapter file that could be read
/// says.
pub open spec fn adapter_online(files: Seq<Option<String>>) -> Option<bool>
    decreases files.len(),
{
    if files.len() == 0 {
        None
    } else if files[0] is Some {
        Some(gpu::says(files[0], "1"@))
    } else {
        adapter_online(files.drop_first())
    }
}

/// Whether an adapter is online, by the adapter files.
pub fn read_ac_power(files: &Vec<Option<String>>) -> (r: Option<bool>)
    ensures
        r == adapter_online(files@),
{
    let mut i: usize = 0;
    assert(files@.skip(0) =~= files@);
    while i < files.len()
        invariant
            i <= files@.len(),
            adapter_online(files@) == adapter_online(files@.skip(i as int)),
        decreases files@.len() - i,
    {
        let ghost rest = files@.skip(i as int);
        assert(rest[0] == files@[i as int]);
        assert(rest.drop_first() =~= files@.skip(i + 1));
        if files[i].is_some() {
            return Some(file_says(&files[i], "1"));
        }
        i = i + 1;
    }
    None
}

/// The percentage in a file.
pub open spec fn percentage(file: Option<String>) -> Option<nat> {
    match file {
        Some(s) => text::unsigned(text::trimmed(s@), 10, 255),
        None => None,
    }
}

/// The percentage of the first battery that tells one.
pub open spec fn battery_level(files: Seq<Option<String>>) -> Option<nat>
    decreases files.len(),
{
    if files.len() == 0 {
        None
    } else if percentage(files[0]) is Some {
        percentage(files[0])
    } else {
        battery_level(files.drop_first())
    }
}

/// The percentage of the battery, by the capacity files.
pub fn read_battery_pct(files: &Vec<Option<String>>) -> (r: Option<u8>)
    ensures
        r is Some <==> battery_level(files@) is Some,
        r matches Some(v) ==> battery_level(files@) == Some(v as nat),
{
    let mut i: usize = 0;
    assert(files@.skip(0) =~= files@);
    while i < files.len()
        invariant
            i <= files@.len(),
            battery_level(files@) == battery_level(files@.skip(i as int)),
        decreases files@.len() - i,
    {
        let ghost rest = files@.skip(i as int);
        assert(rest[0] == files@[i as int]);
        assert(rest.drop_first() =~= files@.skip(i + 1));
        if let Some(s) = &files[i] {
            if let Some(v) = parse_unsigned(trim(s.as_str()).as_str(), 10, 255) {
                return Some(v as u8);
            }
        }
        i = i + 1;
    }
    None
}

/// What the first battery says of itself that says anything.
pub open spec fn battery_word(files: Seq<Option<String>>) -> Option<Seq<char>>
    decreases files.len(),
{
    if files.len() == 0 {
        None
    } else {
        match gpu::contents(files[0]) {
            Some(s) if s.len() > 0 => Some(s),
            _ => battery_word(files.drop_first()),
        }
    }
}

/// What the battery says of itself, by the status files.
pub fn read_battery_status(files: &Vec<Option<String>>) -> (r: Option<String>)
    ensures
        r is Some <==> battery_word(files@) is Some,
        r matches Some(s) ==> battery_word(files@) == Some(s@),
{
    let mut i: usize = 0;
    assert(files@.skip(0) =~= files@);
    while i < files.len()
        invariant
            i <= files@.len(),
            battery_word(files@) == battery_word(files@.skip(i as int)),
        decreases files@.len() - i,
    {
        let ghost rest = files@.skip(i as int);
        assert(rest[0] == files@[i as int]);
        assert(rest.drop_first() =~= files@.skip(i + 1));
        if let Some(raw) = &files[i] {
            let s = trim(raw.as_str());
            if s.as_str().unicode_len() > 0 {
                return Some(s);
            }
        }
        i = i + 1;
    }
    None
}

/// A 64-bit number in a file.
pub open spec fn number_in(file: Option<String>) -> Option<nat> {
    match file {
        Some(s) => text::unsigned(text::trimmed(s@), 10, 0xffff_ffff_ffff_ffff),
        None => None,
    }
}

fn read_number_in(file: &Option<String>) -> (r: Option<u64>)
    ensures
        r is Some <==> number_in(*file) is Some,
        r matches Some(v) ==> number_in(*file) == Some(v as nat),
{
    match file {
        Some(s) => parse_unsigned(trim(s.as_str()).as_str(), 10, 0xffff_ffff_ffff_ffff),
        None => None,
    }
}

/// Current and voltage of a battery, when both are told and a current flows.
pub open spec fn flow(files: (Option<String>, Option<String>)) -> Option<(nat, nat)> {
    match (number_in(files.0), number_in(files.1)) {
        (Some(c), Some(v)) => if c > 0 {
            Some((c, v))
        } else {
            None
        },
        _ => None,
    }
}

/// Current and voltage of the first battery that tells them.
pub open spec fn battery_flow(files: Seq<(Option<String>, Option<String>)>) -> Option<(nat, nat)>
    decreases files.len(),
{
    if files.len() == 0 {
        None
    } else if flow(files[0]) is Some {
        flow(files[0])
    } else {
        battery_flow(files.drop_first())
    }
}

/// Current and voltage of the battery in millionths, by the current and
/// voltage files. Their product is its power.
pub fn read_battery_flow(files: &Vec<(Option<String>, Option<String>)>) -> (r: Option<(u64, u64)>)
    ensures
        r is Some <==> battery_flow(files@) is Some,
        r matches Some((c, v)) ==> battery_flow(files@) == Some((c as nat, v as nat)),
{
    let mut i: usize = 0;
    assert(files@.skip(0) =~= files@);
    while i < files.len()
        invariant
            i <= files@.len(),
            battery_flow(files@) == battery_flow(files@.skip(i as int)),
        decreases files@.len() - i,
    {
        let ghost rest = files@.skip(i as int);
        assert(rest[0] == files@[i as int]);
        assert(rest.drop_first() =~= files@.skip(i + 1));
        if let (Some(c), Some(v)) = (read_number_in(&files[i].0), read_number_in(&files[i].1)) {
            if c > 0 {
                return Some((c, v));
            }
        }
        i = i + 1;
    }
    None
}

/// The tooltip tells the fan first and the power supply below it; with one of
/// them only that one, with neither the name of the program.
pub proof fn the_tooltip_tells_fan_then_power(state: SensorState)
    ensures
        state.fan_speed is None && state.on_ac is None ==> state.tooltip() == "Razer Control"@,
        state.fan_speed matches Some(rpm) ==> {
            let fan = if rpm == 0 {
                "Fan: Auto"@
            } else {
                "Fan: "@ + text::signed_dec(rpm as int) + " RPM"@
            };
            &&& state.on_ac is None ==> state.tooltip() == fan
            &&& state.on_ac is Some ==> state.power_line().len() == 1 && state.tooltip() == fan
                + "\n"@ + state.power_line()[0]
        },
        state.fan_speed is None && state.on_ac is Some ==> state.power_line().len() == 1
            && state.tooltip() == state.power_line()[0],
{
    reveal_with_fuel(text::joined, 3);
    let lines = state.fan_line() + state.power_line();
    if lines.len() == 1 {
        assert(lines.drop_last() =~= Seq::<Seq<char>>::empty());
    }
    if lines.len() == 2 {
        assert(lines.drop_last() =~= state.fan_line());
        assert(state.fan_line().drop_last() =~= Seq::<Seq<char>>::empty());
    }
}

/// The power line: on the adapter the charge with what flows in, or the limit
/// where charging has stopped; on battery the charge with what flows out.
pub proof fn the_power_line_tells_which_way_it_flows(state: SensorState, pct: u8, w: String)
    requires
        state.battery_pct == Some(pct),
        state.battery_power == Some(w),
    ensures
        ({
            let level = text::dec(pct as nat);
            &&& state.on_ac == Some(false) ==> state.power_line() == seq![
                "Battery "@ + level + "%"@ + " \u{2212}"@ + w@ + "W"@,
            ]
            &&& state.on_ac == Some(true) && state.battery_says("Not charging"@)
                ==> state.power_line() == seq!["AC / "@ + level + "%"@ + " (Limit)"@]
            &&& state.on_ac == Some(true) && state.battery_says("Charging"@)
                && !state.battery_says("Not charging"@) ==> state.power_line() == seq![
                "AC / "@ + level + "%"@ + " +"@ + w@ + "W"@,
            ]
            &&& state.on_ac == Some(true) && !state.battery_says("Charging"@)
                && !state.battery_says("Not charging"@) ==> state.power_line() == seq![
                "AC / "@ + level + "%"@,
            ]
        }),
{
}

/// Of several files the first that tells something counts: for the adapter, the
/// charge, the word on the battery and what flows.
pub proof fn the_first_file_that_tells_counts(
    a: Seq<Option<String>>,
    b: Seq<Option<String>>,
    f: Seq<(Option<String>, Option<String>)>,
    g: Seq<(Option<String>, Option<String>)>,
)
    ensures
        adapter_online(a) is Some ==> adapter_online(a + b) == adapter_online(a),
        adapter_online(a) is None ==> adapter_online(a + b) == adapter_online(b),
        battery_level(a) is Some ==> battery_level(a + b) == battery_level(a),
        battery_level(a) is None ==> battery_level(a + b) == battery_level(b),
        battery_word(a) is Some ==> battery_word(a + b) == battery_word(a),
        battery_word(a) is None ==> battery_word(a + b) == battery_word(b),
        battery_flow(f) is Some ==> battery_flow(f + g) == battery_flow(f),
        battery_flow(f) is None ==> battery_flow(f + g) == battery_flow(g),
    decreases a.len() + f.len(),
{
    if a.len() > 0 {
        assert((a + b).drop_first() =~= a.drop_first() + b);
        the_first_file_that_tells_counts(a.drop_first(), b, f, g);
    } else {
        assert(a + b =~= b);
        if f.len() > 0 {
            the_first_file_that_tells_counts(a, b, f.drop_first(), g);
        }
    }
    if f.len() > 0 {
        assert((f + g).drop_first() =~= f.drop_first() + g);
    } else {
        assert(f + g =~= g);
    }
}

/// A file on its own tells: the adapter is online where it says 1, the charge is
/// the number that it holds, and nothing flows where the current is 0.
pub proof fn a_file_tells_what_it_holds(
    file: String,
    current: Option<String>,
    voltage: Option<String>,
)
    ensures
        adapter_online(seq![Some(file)]) == Some(text::trimmed(file@) == "1"@),
        battery_level(seq![Some(file)]) == text::unsigned(text::trimmed(file@), 10, 255),
        text::trimmed(file@).len() > 0 ==> battery_word(seq![Some(file)]) == Some(
            text::trimmed(file@),
        ),
        number_in(current) == Some(0nat) ==> battery_flow(seq![(current, voltage)]) is None,
        number_in(current) is Some && number_in(current)->0 > 0 && number_in(voltage) is Some
            ==> battery_flow(seq![(current, voltage)]) == Some(
            (number_in(current)->0, number_in(voltage)->0),
        ),
{
    reveal_with_fuel(battery_level, 2);
    reveal_with_fuel(battery_flow, 2);
    let one = seq![Some(file)];
    assert(one.drop_first() =~= Seq::<Option<String>>::empty());
    let pair = seq![(current, voltage)];
    assert(pair.drop_first() =~= Seq::<(Option<String>, Option<String>)>::empty());
}

} // verus!
