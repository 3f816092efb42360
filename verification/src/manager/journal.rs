//! What the manager tells the journal: why a request was refused, and what of
//! a round did not go as it should.

use vstd::prelude::*;

use crate::charger::{desired_state, ChargerDomain};
use crate::cli::show;
use crate::cli::show::{Line, LineView};
use crate::comms::{CurveTempSource, DaemonCommand, FanCurve, FanCurvePoint, FanCurveView};
use crate::config::PowerConfig;
use crate::laptop::RazerLaptop;
use crate::manager::DeviceManager;
use crate::manager::step;
use crate::manager::step::{
    all_confirmed, answer_at, clock_at, online_at, saved_at, span_took, AfterApply, Reply, Task, Writes,
};
use crate::manager::sync::CLASS_ATTEMPTS;
use crate::profile;
use crate::profile::{bho_threshold_valid, validate_power_request};
use crate::text;
use crate::text::{decimal, join, signed_decimal};

verus! {

/// Name of a charger domain.
pub open spec fn domain_name(domain: ChargerDomain) -> Seq<char> {
    match domain {
        ChargerDomain::Barrel => "Barrel"@,
        ChargerDomain::Pd => "Pd"@,
        ChargerDomain::Battery => "Battery"@,
    }
}

fn name_of(domain: ChargerDomain) -> (r: &'static str)
    ensures
        r@ == domain_name(domain),
{
    match domain {
        ChargerDomain::Barrel => "Barrel",
        ChargerDomain::Pd => "Pd",
        ChargerDomain::Battery => "Battery",
    }
}

/// A wire that was applied, if one was.
pub open spec fn wire_text(wire: Option<u8>) -> Seq<char> {
    match wire {
        Some(w) => "Some("@ + text::dec(w as nat) + ")"@,
        None => "None"@,
    }
}

/// The line, where there is one.
pub open spec fn complaints(line: Option<Seq<char>>) -> Seq<LineView> {
    match line {
        Some(t) => seq![show::complaint(t)],
        None => seq![],
    }
}

/// The line on a fan curve that did not latch again at `place`.
pub open spec fn latch_lines(place: Seq<char>, writes: Writes, replies: Seq<Reply>) -> Seq<
    LineView,
> {
    match writes.relatch {
        Some(span) if !step::confirmed(replies, span) => seq![
            show::complaint(
                place + " fan-curve re-assert failed — the curve retries on its next tick"@,
            ),
        ],
        _ => seq![],
    }
}

fn say(lines: &mut Vec<Line>, error: bool, text: String)
    ensures
        show::shown(final(lines)@) == show::shown(old(lines)@).push(LineView { error, text: text@ }),
{
    let ghost before = lines@;
    lines.push(Line { error, text });
    assert(show::shown(lines@) =~= show::shown(before).push(LineView { error, text: text@ }));
}

fn say_refusal(lines: &mut Vec<Line>, refusal: Option<String>)
    ensures
        show::shown(final(lines)@) == show::shown(old(lines)@) + complaints(
            match refusal {
                Some(t) => Some(t@),
                None => None,
            },
        ),
{
    let ghost before = show::shown(lines@);
    match refusal {
        Some(t) => {
            say(lines, true, t);
            assert(show::shown(lines@) =~= before + complaints(Some(t@)));
        },
        None => {
            assert(show::shown(lines@) =~= before + complaints(None));
        },
    }
}

/// The line on a synchronisation that goes on without the adapter class.
pub open spec fn blind_line() -> LineView {
    show::complaint(
        "charger sync: EC charger read failed — falling back to the binary UPower path"@,
    )
}

fn say_blind(lines: &mut Vec<Line>)
    ensures
        show::shown(final(lines)@) == show::shown(old(lines)@).push(blind_line()),
{
    say(
        lines,
        true,
        "charger sync: EC charger read failed — falling back to the binary UPower path".to_owned(),
    );
}

fn say_latch(lines: &mut Vec<Line>, place: &str, writes: Writes, replies: &Vec<Reply>)
    ensures
        show::shown(final(lines)@) == show::shown(old(lines)@) + latch_lines(
            place@,
            writes,
            replies@,
        ),
{
    let ghost before = show::shown(lines@);
    if let Some(span) = writes.relatch {
        if !all_confirmed(replies, span) {
            let mut line = place.to_owned();
            line.append(" fan-curve re-assert failed — the curve retries on its next tick");
            say(lines, true, line);
        }
    }
    assert(show::shown(lines@) =~= before + latch_lines(place@, writes, replies@));
}

fn yes_no(b: bool) -> (r: &'static str)
    ensures
        r@ == (if b {
            "true"@
        } else {
            "false"@
        }),
{
    if b {
        "true"
    } else {
        "false"
    }
}

/// A point of a fan curve, in short.
pub open spec fn point_text(p: FanCurvePoint) -> Seq<char> {
    text::dec(p.temp_c as nat) + "→"@ + text::dec(p.rpm as nat)
}

/// The points of a fan curve, in short.
pub open spec fn points_text(points: Seq<FanCurvePoint>) -> Seq<char> {
    text::joined(points.map_values(|p: FanCurvePoint| point_text(p)), " "@)
}

fn list_points(points: &Vec<FanCurvePoint>) -> (r: String)
    ensures
        r@ == points_text(points@),
{
    let mut pieces: Vec<String> = Vec::new();
    let mut i: usize = 0;
    while i < points.len()
        invariant
            i <= points@.len(),
            pieces@.len() == i,
            forall|k: int| 0 <= k < i ==> (#[trigger] pieces@[k])@ == point_text(points@[k]),
        decreases points@.len() - i,
    {
        let mut piece = decimal(points[i].temp_c as u64);
        piece.append("→");
        piece.append(decimal(points[i].rpm as u64).as_str());
        pieces.push(piece);
        i = i + 1;
    }
    assert(text::views(pieces@) =~= points@.map_values(|p: FanCurvePoint| point_text(p)));
    join(&pieces, " ")
}

/// What a fan curve goes by.
pub open spec fn source_name(source: CurveTempSource) -> Seq<char> {
    match source {
        CurveTempSource::Cpu => "Cpu"@,
        CurveTempSource::Gpu => "Gpu"@,
        CurveTempSource::Both => "Both"@,
    }
}

/// How the journal puts it that a fan curve is to change.
pub open spec fn curve_change(ac: usize, curve: FanCurveView) -> Seq<char> {
    "state change: SetFanCurve { ac: "@ + text::dec(ac as nat) + ", enabled: "@ + (
    if curve.enabled {
        "true"@
    } else {
        "false"@
    }) + ", source: "@ + source_name(curve.source) + ", cpu: ["@ + points_text(curve.cpu_points)
        + "], gpu: ["@ + points_text(curve.gpu_points) + "] }"@
}

/// The line for the journal on a fan curve that is to change: its points in
/// short.
pub fn curve_change_line(ac: usize, curve: &FanCurve) -> (r: String)
    ensures
        r@ == curve_change(ac, curve@),
{
    let mut line = "state change: SetFanCurve { ac: ".to_owned();
    line.append(decimal(ac as u64).as_str());
    line.append(", enabled: ");
    line.append(yes_no(curve.enabled));
    line.append(", source: ");
    line.append(
        match curve.source {
            CurveTempSource::Cpu => "Cpu",
            CurveTempSource::Gpu => "Gpu",
            CurveTempSource::Both => "Both",
        },
    );
    line.append(", cpu: [");
    line.append(list_points(&curve.cpu_points).as_str());
    line.append("], gpu: [");
    line.append(list_points(&curve.gpu_points).as_str());
    line.append("] }");
    line
}

impl RazerLaptop {
    /// What the journal is told of a boost tier that is written lower.
    pub open spec fn tier_lines(self, zone: Seq<char>, tier: u8) -> Seq<LineView> {
        if self.capped(tier) == tier {
            seq![]
        } else {
            seq![
                show::complaint(
                    zone
                        + " boost tier 3 (Max) without an unlock on this model — clamped to 2 for this write"@,
                ),
            ]
        }
    }

    fn say_tier(&self, lines: &mut Vec<Line>, zone: &str, tier: u8)
        ensures
            show::shown(final(lines)@) == show::shown(old(lines)@) + self.tier_lines(zone@, tier),
    {
        let ghost before = show::shown(lines@);
        if tier == 3 && !(self.allow_experimental || self.max_tier_is_stock()) {
            let mut line = zone.to_owned();
            line.append(
                " boost tier 3 (Max) without an unlock on this model — clamped to 2 for this write",
            );
            say(lines, true, line);
        }
        assert(show::shown(lines@) =~= before + self.tier_lines(zone@, tier));
    }

    /// What the journal is told of a profile write.
    pub open spec fn power_lines(self, mode: u8, cpu: u8, gpu: u8) -> Seq<LineView> {
        if self.refuses(mode) {
            seq![
                show::complaint(
                    "refusing profile 7 (Turbo) — stock on the Blade 18; this model needs the experimental opt-in (About page)"@,
                ),
            ]
        } else if mode == 4 {
            self.tier_lines("CPU"@, cpu) + self.tier_lines("GPU"@, gpu)
        } else {
            seq![]
        }
    }

    fn say_power(&self, lines: &mut Vec<Line>, mode: u8, cpu: u8, gpu: u8)
        ensures
            show::shown(final(lines)@) == show::shown(old(lines)@) + self.power_lines(
                mode,
                cpu,
                gpu,
            ),
    {
        let ghost before = show::shown(lines@);
        if mode == 7 && !(self.allow_experimental || self.turbo_is_stock()) {
            say(
                lines,
                true,
                "refusing profile 7 (Turbo) — stock on the Blade 18; this model needs the experimental opt-in (About page)".to_owned(),
            );
        } else if mode == 4 {
            self.say_tier(lines, "CPU", cpu);
            self.say_tier(lines, "GPU", gpu);
        }
        assert(show::shown(lines@) =~= before + self.power_lines(mode, cpu, gpu));
    }

    /// What the journal is told of a stored slot that is applied.
    pub open spec fn slot_lines(self, slot: PowerConfig, lighting: bool) -> Seq<LineView> {
        (if lighting {
            seq![]
        } else {
            seq![show::output("lighting restore skipped (static_lighting off)"@)]
        }) + self.power_lines(slot.power_mode, slot.cpu_boost, slot.gpu_boost) + (if slot.fan_curve.enabled
            || RazerLaptop::restores_fan(slot) {
            seq![]
        } else {
            seq![
                show::complaint(
                    "fan restore skipped: persisted rpm "@ + text::signed_dec(slot.fan_rpm as int)
                        + " not representable (config predates validation?)"@,
                ),
            ]
        })
    }

    fn say_slot(&self, lines: &mut Vec<Line>, slot: &PowerConfig, lighting: bool)
        ensures
            show::shown(final(lines)@) == show::shown(old(lines)@) + self.slot_lines(
                *slot,
                lighting,
            ),
    {
        let ghost before = show::shown(lines@);
        if !lighting {
            say(lines, false, "lighting restore skipped (static_lighting off)".to_owned());
        }
        self.say_power(lines, slot.power_mode, slot.cpu_boost, slot.gpu_boost);
        if !slot.fan_curve.enabled && !(0 <= slot.fan_rpm && slot.fan_rpm <= 65535) {
            let mut line = "fan restore skipped: persisted rpm ".to_owned();
            line.append(signed_decimal(slot.fan_rpm).as_str());
            line.append(" not representable (config predates validation?)");
            say(lines, true, line);
        }
        assert(show::shown(lines@) =~= before + self.slot_lines(*slot, lighting));
    }
}

impl DeviceManager {
    /// What the journal is told of a domain that is applied, or of the slot
    /// that stands for it.
    pub open spec fn applied_lines(self, domain: ChargerDomain) -> Seq<LineView> {
        match (self.device, self.config) {
            (Some(d), Some(c)) => if !(domain is Pd) {
                d.slot_lines(c.power@[domain.slot()], c.static_lighting)
            } else if c.static_lighting {
                seq![]
            } else {
                seq![show::output("PD aux lighting skipped (static_lighting off)"@)]
            },
            _ => seq![],
        }
    }

    fn say_applied(&self, lines: &mut Vec<Line>, domain: ChargerDomain)
        ensures
            show::shown(final(lines)@) == show::shown(old(lines)@) + self.applied_lines(domain),
    {
        let ghost before = show::shown(lines@);
        if let Some(laptop) = &self.device {
            if let Some(cfg) = &self.config {
                if domain != ChargerDomain::Pd {
                    laptop.say_slot(lines, &cfg.power[domain.config_index()], cfg.static_lighting);
                } else if !cfg.static_lighting {
                    say(lines, false, "PD aux lighting skipped (static_lighting off)".to_owned());
                }
            }
        }
        assert(show::shown(lines@) =~= before + self.applied_lines(domain));
    }

    /// The domain that the slot in force stands for.
    pub open spec fn slot_domain(self) -> ChargerDomain {
        if self.device matches Some(d) && d.ac_state == 1 {
            ChargerDomain::Barrel
        } else {
            ChargerDomain::Battery
        }
    }

    fn domain_in_force(&self) -> (r: ChargerDomain)
        ensures
            r == self.slot_domain(),
    {
        let plugged = match &self.device {
            Some(d) => d.ac_state == 1,
            None => false,
        };
        if plugged {
            ChargerDomain::Barrel
        } else {
            ChargerDomain::Battery
        }
    }

    /// What the journal is told of a profile that is applied again.
    pub open spec fn reapplied_lines(self, domain: ChargerDomain) -> Seq<LineView> {
        match (self.device, self.config) {
            (Some(d), Some(c)) => {
                let want = crate::charger::desired(c, domain);
                let head = "Re-applying power profile: domain="@ + domain_name(domain)
                    + " power_mode="@ + text::dec(want.wire as nat);
                match want.boosts {
                    Some((cpu, gpu)) => seq![
                        show::output(
                            head + " cpu_boost="@ + text::dec(cpu as nat) + " gpu_boost="@
                                + text::dec(gpu as nat),
                        ),
                    ] + d.power_lines(want.wire, cpu, gpu),
                    None => seq![show::output(head)] + d.power_lines(want.wire, 0, 0),
                }
            },
            _ => seq![],
        }
    }

    fn say_reapplied(&self, lines: &mut Vec<Line>, domain: ChargerDomain)
        ensures
            show::shown(final(lines)@) == show::shown(old(lines)@) + self.reapplied_lines(domain),
    {
        let ghost before = show::shown(lines@);
        if let Some(laptop) = &self.device {
            if let Some(cfg) = &self.config {
                let want = desired_state(cfg, domain);
                let mut head = "Re-applying power profile: domain=".to_owned();
                head.append(name_of(domain));
                head.append(" power_mode=");
                head.append(decimal(want.wire as u64).as_str());
                let mut cpu: u8 = 0;
                let mut gpu: u8 = 0;
                if let Some((c, g)) = want.boosts {
                    head.append(" cpu_boost=");
                    head.append(decimal(c as u64).as_str());
                    head.append(" gpu_boost=");
                    head.append(decimal(g as u64).as_str());
                    cpu = c;
                    gpu = g;
                }
                say(lines, false, head);
                laptop.say_power(lines, want.wire, cpu, gpu);
            }
        }
        assert(show::shown(lines@) =~= before + self.reapplied_lines(domain));
    }

    /// Why a power request is refused, as the journal has it.
    pub open spec fn power_refusal(self, ac: int, pwr: u8, cpu: u8, gpu: u8) -> Option<Seq<char>> {
        match profile::refusal(self.pid(), ac, pwr, cpu, gpu, self.unlocked()) {
            Some(reason) => Some(
                "rejected SetPowerMode { ac: "@ + text::dec(ac as nat) + ", pwr: "@ + text::dec(
                    pwr as nat,
                ) + ", cpu: "@ + text::dec(cpu as nat) + ", gpu: "@ + text::dec(gpu as nat)
                    + " }: "@ + reason,
            ),
            None => None,
        }
    }

    fn power_refusal_text(&self, ac: usize, pwr: u8, cpu: u8, gpu: u8) -> (r: Option<String>)
        ensures
            r is Some <==> self.power_refusal(ac as int, pwr, cpu, gpu) is Some,
            r matches Some(t) ==> self.power_refusal(ac as int, pwr, cpu, gpu) == Some(t@),
    {
        let pid: u16 = match &self.device {
            Some(d) => d.pid,
            None => 0,
        };
        let experimental = match &self.config {
            Some(c) => c.experimental_profiles,
            None => false,
        };
        match validate_power_request(pid, ac, pwr, cpu, gpu, experimental) {
            Err(reason) => {
                let mut line = "rejected SetPowerMode { ac: ".to_owned();
                line.append(decimal(ac as u64).as_str());
                line.append(", pwr: ");
                line.append(decimal(pwr as u64).as_str());
                line.append(", cpu: ");
                line.append(decimal(cpu as u64).as_str());
                line.append(", gpu: ");
                line.append(decimal(gpu as u64).as_str());
                line.append(" }: ");
                line.append(reason);
                Some(line)
            },
            Ok(()) => None,
        }
    }

    /// Why a request is refused, as the journal has it, whichever slot it is
    /// for.
    pub open spec fn refusal(self, cmd: DaemonCommand) -> Option<Seq<char>> {
        match cmd {
            DaemonCommand::SetPowerMode { ac, pwr, cpu, gpu } => self.power_refusal(
                ac as int,
                pwr,
                cpu,
                gpu,
            ),
            DaemonCommand::SetFanSpeed { rpm, .. } => if self.speed_allowed(rpm) {
                None
            } else {
                Some(
                    "Rejected fan rpm "@ + text::signed_dec(rpm as int)
                        + " (valid: 0 for auto, or the model range)"@,
                )
            },
            DaemonCommand::SetLogoLedState { ac, logo_state } => if logo_state <= 2 {
                None
            } else {
                Some(
                    "rejected SetLogoLedState { ac: "@ + text::dec(ac as nat) + ", logo_state: "@
                        + text::dec(logo_state as nat) + " }: valid states are 0..=2"@,
                )
            },
            DaemonCommand::SetBatteryHealthOptimizer { is_on, threshold } => if 50 <= threshold
                <= 80 {
                None
            } else {
                Some(
                    "rejected SetBatteryHealthOptimizer { is_on: "@ + (if is_on {
                        "true"@
                    } else {
                        "false"@
                    }) + ", threshold: "@ + text::dec(threshold as nat)
                        + " }: threshold must be 50..=80"@,
                )
            },
            _ => None,
        }
    }

    /// Why a request is refused, as the journal has it.
    pub fn refusal_of(&self, cmd: &DaemonCommand) -> (r: Option<String>)
        requires
            self.wf(),
        ensures
            r is Some <==> self.refusal(*cmd) is Some,
            r matches Some(t) ==> self.refusal(*cmd) == Some(t@),
    {
        match cmd {
            DaemonCommand::SetPowerMode { ac, pwr, cpu, gpu } => self.power_refusal_text(
                *ac,
                *pwr,
                *cpu,
                *gpu,
            ),
            DaemonCommand::SetFanSpeed { rpm, .. } => {
                if self.is_speed_allowed(*rpm) {
                    None
                } else {
                    let mut line = "Rejected fan rpm ".to_owned();
                    line.append(signed_decimal(*rpm).as_str());
                    line.append(" (valid: 0 for auto, or the model range)");
                    Some(line)
                }
            },
            DaemonCommand::SetLogoLedState { ac, logo_state } => {
                if *logo_state <= 2 {
                    None
                } else {
                    let mut line = "rejected SetLogoLedState { ac: ".to_owned();
                    line.append(decimal(*ac as u64).as_str());
                    line.append(", logo_state: ");
                    line.append(decimal(*logo_state as u64).as_str());
                    line.append(" }: valid states are 0..=2");
                    Some(line)
                }
            },
            DaemonCommand::SetBatteryHealthOptimizer { is_on, threshold } => {
                if bho_threshold_valid(*threshold) {
                    None
                } else {
                    let mut line = "rejected SetBatteryHealthOptimizer { is_on: ".to_owned();
                    line.append(yes_no(*is_on));
                    line.append(", threshold: ");
                    line.append(decimal(*threshold as u64).as_str());
                    line.append(" }: threshold must be 50..=80");
                    Some(line)
                }
            },
            _ => None,
        }
    }

    /// What the journal is told of a power request in the domain in force:
    /// why it is refused, or that it is stored only.
    pub open spec fn write_lines(
        self,
        ac: int,
        pwr: u8,
        cpu: u8,
        gpu: u8,
        domain: ChargerDomain,
    ) -> Seq<LineView> {
        match self.power_refusal(ac, pwr, cpu, gpu) {
            Some(t) => seq![show::complaint(t)],
            None => if (self.device matches Some(d) && d.ac_state == ac) && domain is Pd && pwr
                != 0 {
                seq![
                    show::output(
                        "power write: stored wire "@ + text::dec(pwr as nat)
                            + " for the AC slot; USB-PD active, EC stays on Balanced"@,
                    ),
                ]
            } else {
                seq![]
            },
        }
    }

    fn say_write(
        &self,
        lines: &mut Vec<Line>,
        ac: usize,
        pwr: u8,
        cpu: u8,
        gpu: u8,
        domain: ChargerDomain,
    )
        ensures
            show::shown(final(lines)@) == show::shown(old(lines)@) + self.write_lines(
                ac as int,
                pwr,
                cpu,
                gpu,
                domain,
            ),
    {
        let ghost before = show::shown(lines@);
        let live = match &self.device {
            Some(d) => d.ac_state as usize == ac,
            None => false,
        };
        match self.power_refusal_text(ac, pwr, cpu, gpu) {
            Some(t) => {
                say(lines, true, t);
            },
            None => {
                if live && domain == ChargerDomain::Pd && pwr != 0 {
                    let mut line = "power write: stored wire ".to_owned();
                    line.append(decimal(pwr as u64).as_str());
                    line.append(" for the AC slot; USB-PD active, EC stays on Balanced");
                    say(lines, false, line);
                }
            },
        }
        assert(show::shown(lines@) =~= before + self.write_lines(ac as int, pwr, cpu, gpu, domain));
    }

    /// What the journal is told of a power request in a freshly resolved
    /// domain.
    pub open spec fn domain_lines(
        self,
        ac: int,
        pwr: u8,
        cpu: u8,
        gpu: u8,
        domain: ChargerDomain,
    ) -> Seq<LineView> {
        if self.active_domain == Some(domain) {
            self.write_lines(ac, pwr, cpu, gpu, domain)
        } else {
            seq![
                show::output(
                    "power write: domain drift detected — syncing to "@ + domain_name(domain)
                        + " first"@,
                ),
            ]
        }
    }

    fn say_domain(
        &self,
        lines: &mut Vec<Line>,
        ac: usize,
        pwr: u8,
        cpu: u8,
        gpu: u8,
        domain: ChargerDomain,
    )
        ensures
            show::shown(final(lines)@) == show::shown(old(lines)@) + self.domain_lines(
                ac as int,
                pwr,
                cpu,
                gpu,
                domain,
            ),
    {
        let ghost before = show::shown(lines@);
        if self.active_domain == Some(domain) {
            self.say_write(lines, ac, pwr, cpu, gpu, domain);
        } else {
            let mut line = "power write: domain drift detected — syncing to ".to_owned();
            line.append(name_of(domain));
            line.append(" first");
            say(lines, false, line);
        }
        assert(show::shown(lines@) =~= before + self.domain_lines(ac as int, pwr, cpu, gpu, domain));
    }

    /// What the journal is told when a request of a client is taken up. One for
    /// a slot that there is none of is dropped; a power request is decided once
    /// the adapter class is known.
    pub open spec fn request_lines(self, cmd: DaemonCommand) -> Seq<LineView> {
        if crate::daemon::out_of_range(cmd) {
            seq![]
        } else {
            match cmd {
                DaemonCommand::SetPowerMode { ac, pwr, cpu, gpu } => if self.device is None {
                    self.domain_lines(ac as int, pwr, cpu, gpu, self.resolved(None))
                } else {
                    seq![]
                },
                DaemonCommand::SetLogoLedState { .. } => if self.refusal(cmd) is None
                    && self.keeps_dark() {
                    seq![
                        show::output(
                            "logo stored only — lighting writes disabled (static_lighting off)"@,
                        ),
                    ]
                } else {
                    complaints(self.refusal(cmd))
                },
                DaemonCommand::SetBrightness { .. } => if self.keeps_dark() {
                    seq![
                        show::output(
                            "brightness stored only — lighting writes disabled (static_lighting off)"@,
                        ),
                    ]
                } else {
                    seq![]
                },
                _ => complaints(self.refusal(cmd)),
            }
        }
    }

    /// There is a laptop whose lighting is not to be written.
    pub open spec fn keeps_dark(self) -> bool {
        self.device is Some && !self.lighting()
    }

    /// The lines for the journal when a request of a client is taken up.
    pub fn request_journal(&self, cmd: &DaemonCommand) -> (lines: Vec<Line>)
        requires
            self.wf(),
        ensures
            show::shown(lines@) == self.request_lines(*cmd),
    {
        let mut lines: Vec<Line> = Vec::new();
        assert(show::shown(lines@) =~= Seq::<LineView>::empty());
        let dark = self.device.is_some() && !self.get_static_lighting();
        match cmd {
            DaemonCommand::SetPowerMode { ac, pwr, cpu, gpu } => {
                if *ac < 2 && self.device.is_none() {
                    self.say_domain(&mut lines, *ac, *pwr, *cpu, *gpu, self.resolve_domain(None));
                }
            },
            DaemonCommand::SetFanSpeed { ac, .. } => {
                if *ac < 2 {
                    say_refusal(&mut lines, self.refusal_of(cmd));
                }
            },
            DaemonCommand::SetLogoLedState { ac, logo_state } => {
                if *ac < 2 {
                    if *logo_state <= 2 && dark {
                        say(
                            &mut lines,
                            false,
                            "logo stored only — lighting writes disabled (static_lighting off)".to_owned(),
                        );
                    } else {
                        say_refusal(&mut lines, self.refusal_of(cmd));
                    }
                }
            },
            DaemonCommand::SetBrightness { ac, .. } => {
                if *ac < 2 && dark {
                    say(
                        &mut lines,
                        false,
                        "brightness stored only — lighting writes disabled (static_lighting off)".to_owned(),
                    );
                }
            },
            DaemonCommand::SetBatteryHealthOptimizer { .. } => {
                say_refusal(&mut lines, self.refusal_of(cmd));
            },
            _ => {},
        }
        assert(show::shown(lines@) =~= self.request_lines(*cmd));
        lines
    }

    /// What the journal is told when an applied domain leads on.
    pub open spec fn after_lines(
        self,
        domain: ChargerDomain,
        applied: Option<u8>,
        after: AfterApply,
    ) -> Seq<LineView> {
        match after {
            AfterApply::Sync => seq![
                show::output(
                    "charger sync: domain="@ + domain_name(domain) + " applied_wire="@ + wire_text(
                        applied,
                    ),
                ),
            ],
            AfterApply::Write { ac, pwr, cpu, gpu, .. } => match applied {
                Some(_) => self.write_lines(ac as int, pwr, cpu, gpu, domain),
                None => seq![
                    show::complaint(
                        "power write: drift heal to "@ + domain_name(domain)
                            + " failed — rejecting the request rather than writing onto an unconfirmed base"@,
                    ),
                ],
            },
            _ => seq![],
        }
    }

    fn say_after(
        &self,
        lines: &mut Vec<Line>,
        domain: ChargerDomain,
        applied: Option<u8>,
        after: AfterApply,
    )
        ensures
            show::shown(final(lines)@) == show::shown(old(lines)@) + self.after_lines(
                domain,
                applied,
                after,
            ),
    {
        let ghost before = show::shown(lines@);
        match after {
            AfterApply::Sync => {
                let mut line = "charger sync: domain=".to_owned();
                line.append(name_of(domain));
                line.append(" applied_wire=");
                let wire = match applied {
                    Some(w) => {
                        let mut t = "Some(".to_owned();
                        t.append(decimal(w as u64).as_str());
                        t.append(")");
                        t
                    },
                    None => "None".to_owned(),
                };
                line.append(wire.as_str());
                say(lines, false, line);
            },
            AfterApply::Write { ac, pwr, cpu, gpu, .. } => {
                if applied.is_some() {
                    self.say_write(lines, ac, pwr, cpu, gpu, domain);
                } else {
                    let mut line = "power write: drift heal to ".to_owned();
                    line.append(name_of(domain));
                    line.append(
                        " failed — rejecting the request rather than writing onto an unconfirmed base",
                    );
                    say(lines, true, line);
                }
            },
            _ => {},
        }
        assert(show::shown(lines@) =~= before + self.after_lines(domain, applied, after));
    }

    /// What the journal is told when the stored colour is written again.
    pub open spec fn restore_lines(self) -> Seq<LineView> {
        if self.device is Some && self.lighting() {
            seq![
                show::output(
                    "restore static colour: ["@ + text::dec(self.color()[0] as nat) + ", "@
                        + text::dec(self.color()[1] as nat) + ", "@ + text::dec(
                        self.color()[2] as nat,
                    ) + "]"@,
                ),
            ]
        } else {
            seq![]
        }
    }

    fn say_restore(&self, lines: &mut Vec<Line>)
        ensures
            show::shown(final(lines)@) == show::shown(old(lines)@) + self.restore_lines(),
    {
        let ghost before = show::shown(lines@);
        if self.device.is_some() && self.get_static_lighting() {
            let rgb = self.get_static_color();
            let mut line = "restore static colour: [".to_owned();
            line.append(decimal(rgb[0] as u64).as_str());
            line.append(", ");
            line.append(decimal(rgb[1] as u64).as_str());
            line.append(", ");
            line.append(decimal(rgb[2] as u64).as_str());
            line.append("]");
            say(lines, false, line);
        }
        assert(show::shown(lines@) =~= before + self.restore_lines());
    }

    /// The lines for the journal when the stored colour is restored, before
    /// the manager goes about it.
    pub fn restore_journal(&self) -> (lines: Vec<Line>)
        ensures
            show::shown(lines@) == self.restore_lines(),
    {
        let mut lines: Vec<Line> = Vec::new();
        assert(show::shown(lines@) =~= Seq::<LineView>::empty());
        self.say_restore(&mut lines);
        assert(show::shown(lines@) =~= self.restore_lines());
        lines
    }

    /// What the journal is told when the replies to a round come in.
    pub open spec fn round_lines(self, task: Task, replies: Seq<Reply>) -> Seq<LineView> {
        let first = step::answer(replies, 0);
        match task {
            Task::ResolveWrite { ac, pwr, cpu, gpu } => self.domain_lines(
                ac as int,
                pwr,
                cpu,
                gpu,
                self.resolved(first),
            ),
            Task::ResolveCycle { read } => {
                let domain = self.resolved(
                    if read {
                        first
                    } else {
                        None
                    },
                );
                match step::clock(
                    replies,
                    if read {
                        1
                    } else {
                        0
                    },
                ) {
                    Some(now) => match self.asked_by_press(domain, now) {
                        Some((pwr, cpu, gpu)) => self.domain_lines(
                            domain.slot(),
                            pwr,
                            cpu,
                            gpu,
                            domain,
                        ),
                        None => seq![],
                    },
                    None => seq![],
                }
            },
            Task::Applied { domain, wire, writes, after } => self.applied_lines(domain) + latch_lines(
                if domain is Pd {
                    "charger-domain apply:"@
                } else {
                    "AC/battery switch:"@
                },
                writes,
                replies,
            ) + self.after_lines(domain, DeviceManager::applied_wire(wire, writes, replies), after),
            Task::Written { writes, .. } => latch_lines(
                "profile written but the"@,
                writes,
                replies,
            ),
            Task::Reapplied { domain, writes, .. } => self.reapplied_lines(domain) + latch_lines(
                "power profile re-applied but the"@,
                writes,
                replies,
            ),
            Task::SlotApplied { writes } => self.applied_lines(self.slot_domain()) + latch_lines(
                "AC/battery switch:"@,
                writes,
                replies,
            ),
            Task::BinaryApplied { writes } => self.applied_lines(self.slot_domain()) + latch_lines(
                "startup power sync:"@,
                writes,
                replies,
            ),
            Task::SyncOnline => if step::online(replies, 0) is None && self.device is None {
                seq![blind_line()]
            } else {
                seq![]
            },
            Task::SyncClass { attempt, read, answered } => if attempt + 1
                >= crate::manager::sync::CLASS_ATTEMPTS && !answered && !(read && step::answer(
                replies,
                if attempt > 0 {
                    1
                } else {
                    0
                },
            ) is Some) {
                seq![
                    show::complaint(
                        "charger sync: online but EC unresolved after retries — failing safe to PD"@,
                    ),
                ]
            } else {
                seq![]
            },
            Task::SyncBlind => if first is None {
                seq![blind_line()]
            } else {
                seq![]
            },
            Task::CurveSaved { restore } => match restore {
                Some(rpm) if step::saved(replies, 0) && !(0 <= rpm <= 65535) => seq![
                    show::complaint(
                        "curve-off fan restore skipped: persisted rpm "@ + text::signed_dec(
                            rpm as int,
                        ) + " not representable"@,
                    ),
                ],
                _ => seq![],
            },
            Task::LimitStored { .. } | Task::LimitCommitted => if first is None {
                seq![
                    show::complaint(
                        "BHO commit (0x0f): no reply — harmless on 2025 (redundant), logged for the record"@,
                    ),
                ]
            } else {
                seq![]
            },
            Task::LightingSaved { enabled, .. } => if enabled && step::saved(replies, 0) {
                self.restore_lines()
            } else {
                seq![]
            },
            Task::LightingReverted { .. } => if step::saved(replies, 0) {
                seq![]
            } else {
                seq![
                    show::complaint(
                        "static-lighting rollback could not be saved — disk keeps the requested value, runtime stays reverted until the next successful save"@,
                    ),
                ]
            },
            _ => seq![],
        }
    }

    /// The lines for the journal when the replies to a round come in, before
    /// the manager goes on with them.
    pub fn round_journal(&self, task: Task, replies: &Vec<Reply>) -> (lines: Vec<Line>)
        requires
            self.wf(),
        ensures
            show::shown(lines@) == self.round_lines(task, replies@),
    {
        let mut lines: Vec<Line> = Vec::new();
        assert(show::shown(lines@) =~= Seq::<LineView>::empty());
        match task {
            Task::ResolveWrite { ac, pwr, cpu, gpu } => {
                let domain = self.resolve_domain(answer_at(replies, 0));
                self.say_domain(&mut lines, ac, pwr, cpu, gpu, domain);
            },
            Task::ResolveCycle { read } => {
                let (class, at): (_, usize) = if read {
                    (answer_at(replies, 0), 1)
                } else {
                    (None, 0)
                };
                let domain = self.resolve_domain(class);
                if let Some(now) = clock_at(replies, at) {
                    if let Some((pwr, cpu, gpu)) = self.request_of_press(domain, now) {
                        self.say_domain(&mut lines, domain.config_index(), pwr, cpu, gpu, domain);
                    }
                }
            },
            Task::Applied { domain, wire, writes, after } => {
                let place = if domain == ChargerDomain::Pd {
                    "charger-domain apply:"
                } else {
                    "AC/battery switch:"
                };
                self.say_applied(&mut lines, domain);
                say_latch(&mut lines, place, writes, replies);
                let applied = if span_took(replies, writes.power) {
                    wire
                } else {
                    None
                };
                self.say_after(&mut lines, domain, applied, after);
            },
            Task::Written { writes, .. } => {
                say_latch(&mut lines, "profile written but the", writes, replies);
            },
            Task::Reapplied { domain, writes, .. } => {
                self.say_reapplied(&mut lines, domain);
                say_latch(&mut lines, "power profile re-applied but the", writes, replies);
            },
            Task::SlotApplied { writes } => {
                self.say_applied(&mut lines, self.domain_in_force());
                say_latch(&mut lines, "AC/battery switch:", writes, replies);
            },
            Task::BinaryApplied { writes } => {
                self.say_applied(&mut lines, self.domain_in_force());
                say_latch(&mut lines, "startup power sync:", writes, replies);
            },
            Task::SyncOnline => {
                if online_at(replies, 0).is_none() && self.device.is_none() {
                    say_blind(&mut lines);
                }
            },
            Task::SyncClass { attempt, read, answered } => {
                let at: usize = if attempt > 0 {
                    1
                } else {
                    0
                };
                let now = read && answer_at(replies, at).is_some();
                if attempt >= CLASS_ATTEMPTS - 1 && !answered && !now {
                    say(
                        &mut lines,
                        true,
                        "charger sync: online but EC unresolved after retries — failing safe to PD".to_owned(),
                    );
                }
            },
            Task::SyncBlind => {
                if answer_at(replies, 0).is_none() {
                    say_blind(&mut lines);
                }
            },
            Task::CurveSaved { restore } => {
                if let Some(rpm) = restore {
                    if saved_at(replies, 0) && !(0 <= rpm && rpm <= 65535) {
                        let mut line = "curve-off fan restore skipped: persisted rpm ".to_owned();
                        line.append(signed_decimal(rpm).as_str());
                        line.append(" not representable");
                        say(&mut lines, true, line);
                    }
                }
            },
            Task::LimitStored { .. } | Task::LimitCommitted => {
                if answer_at(replies, 0).is_none() {
                    say(
                        &mut lines,
                        true,
                        "BHO commit (0x0f): no reply — harmless on 2025 (redundant), logged for the record".to_owned(),
                    );
                }
            },
            Task::LightingSaved { enabled, .. } => {
                if enabled && saved_at(replies, 0) {
                    self.say_restore(&mut lines);
                }
            },
            Task::LightingReverted { .. } => {
                if !saved_at(replies, 0) {
                    say(
                        &mut lines,
                        true,
                        "static-lighting rollback could not be saved — disk keeps the requested value, runtime stays reverted until the next successful save".to_owned(),
                    );
                }
            },
            _ => {},
        }
        assert(show::shown(lines@) =~= self.round_lines(task, replies@));
        lines
    }
}

/// A request that is refused for a reason is answered with failure, leaves the
/// manager as it was, and has the reason told. (Power requests are decided
/// once the adapter class is known.)
pub proof fn a_refused_request_is_explained(
    d: DeviceManager,
    cmd: DaemonCommand,
    post: DeviceManager,
    h: crate::daemon::Handling,
)
    requires
        !(cmd is SetPowerMode),
        !crate::daemon::out_of_range(cmd),
        d.refusal(cmd) is Some,
        crate::daemon::handles(d, cmd, post, h),
    ensures
        post == d,
        h matches crate::daemon::Handling::Operate { step, .. } && step == step::Step::Done(
            step::Outcome::Flag(false),
        ),
        d.request_lines(cmd) == seq![show::complaint(d.refusal(cmd)->0)],
{
}

/// A power request in the domain in force is refused exactly where the reason
/// is told.
pub proof fn a_refused_power_request_is_explained(
    d: DeviceManager,
    ac: int,
    pwr: u8,
    cpu: u8,
    gpu: u8,
    domain: ChargerDomain,
    key: Option<u64>,
    post: DeviceManager,
    step: step::Step,
)
    requires
        d.active_domain == Some(domain),
        d.writes_in_domain(ac, pwr, cpu, gpu, domain, key, post, step),
    ensures
        step is Done <==> d.power_refusal(ac, pwr, cpu, gpu) is Some,
        d.power_refusal(ac, pwr, cpu, gpu) matches Some(t) ==> {
            &&& post == d
            &&& d.domain_lines(ac, pwr, cpu, gpu, domain) == seq![show::complaint(t)]
        },
{
}

/// Whenever the fan curve did not latch again, the journal is told.
pub proof fn a_failed_latch_is_told(d: DeviceManager, task: Task, replies: Seq<Reply>, writes: Writes)
    requires
        match task {
            Task::Applied { writes: w, .. } => w == writes,
            Task::Written { writes: w, .. } => w == writes,
            Task::Reapplied { writes: w, .. } => w == writes,
            Task::SlotApplied { writes: w } => w == writes,
            Task::BinaryApplied { writes: w } => w == writes,
            _ => false,
        },
        writes.relatch matches Some(span) && !step::confirmed(replies, span),
    ensures
        exists|place: Seq<char>|
            d.round_lines(task, replies).contains(
                (#[trigger] latch_lines(place, writes, replies))[0],
            ),
{
    let (before, place) = match task {
        Task::Applied { domain, .. } => (
            d.applied_lines(domain),
            if domain is Pd {
                "charger-domain apply:"@
            } else {
                "AC/battery switch:"@
            },
        ),
        Task::Written { .. } => (seq![], "profile written but the"@),
        Task::Reapplied { domain, .. } => (
            d.reapplied_lines(domain),
            "power profile re-applied but the"@,
        ),
        Task::SlotApplied { .. } => (d.applied_lines(d.slot_domain()), "AC/battery switch:"@),
        _ => (d.applied_lines(d.slot_domain()), "startup power sync:"@),
    };
    assert(d.round_lines(task, replies)[before.len() as int] == latch_lines(
        place,
        writes,
        replies,
    )[0]);
}

/// A synchronisation ends by telling the domain and the profile that was
/// confirmed.
pub proof fn a_sync_tells_its_domain(
    d: DeviceManager,
    domain: ChargerDomain,
    wire: u8,
    writes: Writes,
    replies: Seq<Reply>,
)
    ensures
        ({
            let lines = d.round_lines(
                Task::Applied { domain, wire: Some(wire), writes, after: AfterApply::Sync },
                replies,
            );
            let name = match domain {
                ChargerDomain::Barrel => "Barrel"@,
                ChargerDomain::Pd => "Pd"@,
                ChargerDomain::Battery => "Battery"@,
            };
            let head = "charger sync: domain="@ + name + " applied_wire="@;
            &&& lines.len() > 0 && !lines.last().error
            &&& step::took(replies, writes.power) ==> lines.last().text == head + ("Some("@
                + text::dec(wire as nat) + ")"@)
            &&& !step::took(replies, writes.power) ==> lines.last().text == head + "None"@
        }),
{
}

/// Applying the profile again tells the domain and the profile first, and under
/// Custom the tiers.
pub proof fn a_reapplication_tells_its_profile(
    d: DeviceManager,
    domain: ChargerDomain,
    wire: u8,
    writes: Writes,
    replies: Seq<Reply>,
)
    requires
        d.device is Some && d.config is Some,
    ensures
        ({
            let lines = d.round_lines(Task::Reapplied { domain, wire, writes }, replies);
            let c = d.config->0;
            let slot = if domain is Battery { c.power@[0] } else { c.power@[1] };
            let mode = if domain is Pd { 0 } else { slot.power_mode };
            let name = match domain {
                ChargerDomain::Barrel => "Barrel"@,
                ChargerDomain::Pd => "Pd"@,
                ChargerDomain::Battery => "Battery"@,
            };
            let head = "Re-applying power profile: domain="@ + name + " power_mode="@ + text::dec(
                mode as nat,
            );
            &&& lines.len() > 0 && !lines[0].error
            &&& mode != 4 ==> lines[0].text == head
            &&& mode == 4 ==> lines[0].text == head + " cpu_boost="@ + text::dec(
                slot.cpu_boost as nat,
            ) + " gpu_boost="@ + text::dec(slot.gpu_boost as nat)
        }),
{
}

/// A tier that is brought down is told, for CPU and GPU each, and so is a Turbo
/// that is refused. Nothing else of a profile write is told.
pub proof fn what_a_profile_write_changes_is_told(l: RazerLaptop, mode: u8, cpu: u8, gpu: u8)
    ensures
        ({
            let lines = l.power_lines(mode, cpu, gpu);
            let free = l.allow_experimental || l.has_max_tier();
            &&& mode != 4 && mode != 7 ==> lines.len() == 0
            &&& mode == 7 ==> (lines.len() == 1 <==> !(l.allow_experimental || l.has_turbo()))
            &&& mode == 7 && (l.allow_experimental || l.has_turbo()) ==> lines.len() == 0
            &&& mode == 4 && (free || (cpu != 3 && gpu != 3)) ==> lines.len() == 0
            &&& mode == 4 && !free && cpu == 3 ==> lines.len() > 0 && lines[0].error
                && lines[0].text == "CPU"@
                + " boost tier 3 (Max) without an unlock on this model — clamped to 2 for this write"@
            &&& mode == 4 && !free && gpu == 3 ==> lines.len() > 0 && lines.last().error
                && lines.last().text == "GPU"@
                + " boost tier 3 (Max) without an unlock on this model — clamped to 2 for this write"@
        }),
{
}

/// A lighting setting that is only stored is told so, and so is a profile that
/// USB-PD holds back.
pub proof fn what_is_only_stored_is_told(
    d: DeviceManager,
    ac: usize,
    val: u8,
    pwr: u8,
    cpu: u8,
    gpu: u8,
)
    requires
        ac < 2,
        d.device is Some && d.config is Some,
        !d.config->0.static_lighting,
    ensures
        ({
            let dark = d.request_lines(DaemonCommand::SetBrightness { ac, val });
            let logo = d.request_lines(DaemonCommand::SetLogoLedState { ac, logo_state: val });
            let held = d.write_lines(ac as int, pwr, cpu, gpu, ChargerDomain::Pd);
            &&& dark.len() == 1 && !dark[0].error && dark[0].text
                == "brightness stored only — lighting writes disabled (static_lighting off)"@
            &&& val <= 2 ==> logo.len() == 1 && !logo[0].error && logo[0].text
                == "logo stored only — lighting writes disabled (static_lighting off)"@
            &&& d.device->0.ac_state == ac && pwr != 0 && d.power_refusal(
                ac as int,
                pwr,
                cpu,
                gpu,
            ) is None ==> held.len() == 1 && !held[0].error && held[0].text
                == "power write: stored wire "@ + text::dec(pwr as nat)
                + " for the AC slot; USB-PD active, EC stays on Balanced"@
            &&& pwr == 0 && d.power_refusal(ac as int, pwr, cpu, gpu) is None ==> held.len() == 0
        }),
{
}

/// A new curve is told with its slot, its switch, its source and the points of
/// both sides.
pub proof fn a_new_curve_is_told(ac: usize, curve: FanCurveView)
    ensures
        ({
            let on = if curve.enabled { "true"@ } else { "false"@ };
            let source = match curve.source {
                CurveTempSource::Cpu => "Cpu"@,
                CurveTempSource::Gpu => "Gpu"@,
                CurveTempSource::Both => "Both"@,
            };
            curve_change(ac, curve) == "state change: SetFanCurve { ac: "@ + text::dec(ac as nat)
                + ", enabled: "@ + on + ", source: "@ + source + ", cpu: ["@ + points_text(
                curve.cpu_points,
            ) + "], gpu: ["@ + points_text(curve.gpu_points) + "] }"@
        }),
{
}

} // verus!
