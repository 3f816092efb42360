//! Arguments of the command line, and the requests that they stand for.

use vstd::prelude::*;

use crate::comms::{CurveTempSource, DaemonCommand, DaemonResponse};
use crate::manager::step::Step;
use crate::manager::DeviceManager;
use crate::text;
use crate::text::join;

verus! {

#[derive(Debug, Clone, Copy, PartialEq, Eq, Structural)]
pub enum OnOff {
    On,
    Off,
}

impl OnOff {
    pub fn is_on(&self) -> (r: bool)
        ensures
            r == (*self is On),
    {
        match self {
            OnOff::On => true,
            OnOff::Off => false,
        }
    }
}

/// The slot of the configuration that is meant.
#[derive(Debug, Clone, Copy, PartialEq, Eq, Structural)]
pub enum AcState {
    /// On battery.
    Bat,
    /// Plugged in.
    Ac,
}

impl AcState {
    pub open spec fn slot(self) -> usize {
        match self {
            AcState::Bat => 0,
            AcState::Ac => 1,
        }
    }

    pub fn as_index(&self) -> (r: usize)
        ensures
            r == self.slot(),
    {
        match self {
            AcState::Bat => 0,
            AcState::Ac => 1,
        }
    }
}

/// Which temperature drives a fan curve.
#[derive(Debug, Clone, Copy, PartialEq, Eq, Structural)]
pub enum CurveSourceArg {
    Cpu,
    Gpu,
    Both,
}

impl CurveSourceArg {
    pub open spec fn source(self) -> CurveTempSource {
        match self {
            CurveSourceArg::Cpu => CurveTempSource::Cpu,
            CurveSourceArg::Gpu => CurveTempSource::Gpu,
            CurveSourceArg::Both => CurveTempSource::Both,
        }
    }

    pub fn to_source(self) -> (r: CurveTempSource)
        ensures
            r == self.source(),
    {
        match self {
            CurveSourceArg::Cpu => CurveTempSource::Cpu,
            CurveSourceArg::Gpu => CurveTempSource::Gpu,
            CurveSourceArg::Both => CurveTempSource::Both,
        }
    }
}

/// The profiles of the command line. Balanced has a wire value of its own in
/// each power domain; the others belong to one domain.
#[derive(Debug, Clone, Copy, PartialEq, Eq, Structural)]
pub enum ProfileArg {
    Balanced,
    Performance,
    Silent,
    Custom,
    Turbo,
    BatterySaver,
}

impl ProfileArg {
    /// Wire value in slot `ac`, `None` where the profile does not belong.
    pub open spec fn wire(self, ac: usize) -> Option<u8> {
        match self {
            ProfileArg::Balanced => Some(
                if ac == 1 {
                    0
                } else {
                    6
                },
            ),
            ProfileArg::Performance => if ac == 1 {
                Some(2)
            } else {
                None
            },
            ProfileArg::Silent => if ac == 1 {
                Some(5)
            } else {
                None
            },
            ProfileArg::Custom => if ac == 1 {
                Some(4)
            } else {
                None
            },
            ProfileArg::Turbo => if ac == 1 {
                Some(7)
            } else {
                None
            },
            ProfileArg::BatterySaver => if ac == 1 {
                None
            } else {
                Some(3)
            },
        }
    }

    /// Wire value in slot `ac`, `None` where the profile does not belong.
    pub fn wire_value(self, ac: usize) -> (r: Option<u8>)
        ensures
            r == self.wire(ac),
    {
        let plugged = ac == 1;
        match (self, plugged) {
            (ProfileArg::Balanced, true) => Some(0),
            (ProfileArg::Balanced, false) => Some(6),
            (ProfileArg::Performance, true) => Some(2),
            (ProfileArg::Silent, true) => Some(5),
            (ProfileArg::Custom, true) => Some(4),
            (ProfileArg::Turbo, true) => Some(7),
            (ProfileArg::BatterySaver, false) => Some(3),
            _ => None,
        }
    }

    pub fn is_custom(self) -> (r: bool)
        ensures
            r == self is Custom,
    {
        match self {
            ProfileArg::Custom => true,
            _ => false,
        }
    }
}

/// What is wrong with the arguments.
#[derive(Debug, Clone, Copy, PartialEq, Eq, Structural)]
pub enum UsageKind {
    InvalidValue,
    MissingRequiredArgument,
    DisplayHelp,
}

/// A complaint about the arguments.
#[derive(Debug)]
pub struct UsageError {
    pub kind: UsageKind,
    pub message: String,
}

impl UsageError {
    /// This complaint in these words.
    pub open spec fn is(self, kind: UsageKind, message: Seq<char>) -> bool {
        self.kind == kind && self.message@ == message
    }
}

fn usage(kind: UsageKind, message: &str) -> (e: UsageError)
    ensures
        e.is(kind, message@),
{
    UsageError { kind, message: message.to_owned() }
}

/// Thresholds of the command line: multiples of five from 50 to 80.
pub open spec fn threshold_valid(threshold: u8) -> bool {
    threshold % 5 == 0 && 50 <= threshold <= 80
}

pub fn valid_bho_threshold(threshold: u8) -> (r: bool)
    ensures
        r == threshold_valid(threshold),
{
    if threshold % 5 != 0 {
        return false;
    }
    50 <= threshold && threshold <= 80
}

/// What is wrong with the arguments of a charge limit.
pub open spec fn limit_fault(threshold: Option<u8>, state: OnOff) -> Option<(UsageKind, Seq<char>)> {
    match threshold {
        Some(t) => if threshold_valid(t) {
            None
        } else {
            Some(
                (UsageKind::InvalidValue, "Threshold must be multiple of 5 between 50 and 80"@),
            )
        },
        None => if state is On {
            Some((UsageKind::MissingRequiredArgument, "Threshold is required when BHO is on"@))
        } else {
            None
        },
    }
}

/// The threshold that goes with a charge limit: 80 when it is switched off.
pub open spec fn limit_asked(threshold: Option<u8>, state: OnOff) -> u8 {
    match threshold {
        Some(t) if state is On => t,
        _ => 80,
    }
}

/// The request for a charge limit.
pub open spec fn limit_request(threshold: Option<u8>, state: OnOff) -> DaemonCommand {
    DaemonCommand::SetBatteryHealthOptimizer {
        is_on: state is On,
        threshold: limit_asked(threshold, state),
    }
}

/// The request for a charge limit.
pub fn validate_and_write_bho(threshold: Option<u8>, state: OnOff) -> (r: Result<
    DaemonCommand,
    UsageError,
>)
    ensures
        match limit_fault(threshold, state) {
            Some((kind, message)) => r matches Err(e) && e.is(kind, message),
            None => r == Ok::<DaemonCommand, UsageError>(limit_request(threshold, state)),
        },
{
    let threshold: u8 = match threshold {
        Some(t) => {
            if !valid_bho_threshold(t) {
                return Err(
                    usage(
                        UsageKind::InvalidValue,
                        "Threshold must be multiple of 5 between 50 and 80",
                    ),
                );
            }
            t
        },
        None => {
            if state.is_on() {
                return Err(
                    usage(
                        UsageKind::MissingRequiredArgument,
                        "Threshold is required when BHO is on",
                    ),
                );
            }
            80
        },
    };
    Ok(write_bho(state.is_on(), threshold))
}

fn write_bho(on: bool, threshold: u8) -> (r: DaemonCommand)
    ensures
        r == (DaemonCommand::SetBatteryHealthOptimizer {
            is_on: on,
            threshold: if on {
                threshold
            } else {
                80
            },
        }),
{
    if !on {
        return DaemonCommand::SetBatteryHealthOptimizer { is_on: false, threshold: 80 };
    }
    DaemonCommand::SetBatteryHealthOptimizer { is_on: true, threshold }
}

/// On a model with the optimizer, no charge limit that the command line asks
/// for is refused: the daemon goes to the controller with it.
pub proof fn command_line_limits_are_accepted(
    d: DeviceManager,
    threshold: Option<u8>,
    state: OnOff,
    step: Step,
)
    requires
        limit_fault(threshold, state) is None,
        d.optimizes(),
        d.starts_limit(state is On, limit_asked(threshold, state), step),
    ensures
        step is Perform,
{
}

/// What is wrong with the arguments of a power request.
pub open spec fn power_fault(
    ac: usize,
    profile: ProfileArg,
    cpu_mode: Option<u8>,
    gpu_mode: Option<u8>,
) -> Option<(UsageKind, Seq<char>)> {
    if profile.wire(ac) is None {
        Some(
            (
                UsageKind::InvalidValue,
                "That profile is not available on "@ + (if ac == 1 {
                    "AC (plugged in)"@
                } else {
                    "battery (DC)"@
                }) + ". Allowed here: "@ + (if ac == 1 {
                    "balanced, performance, silent, custom"@
                } else {
                    "balanced, battery-saver"@
                }) + "."@,
            ),
        )
    } else if profile is Custom {
        match (cpu_mode, gpu_mode) {
            (Some(c), Some(g)) => if c > 2 || g > 2 {
                Some(
                    (
                        UsageKind::InvalidValue,
                        "CPU/GPU boost must be 0 (low), 1 (medium) or 2 (high)"@,
                    ),
                )
            } else {
                None
            },
            _ => Some(
                (
                    UsageKind::MissingRequiredArgument,
                    "custom requires a CPU and a GPU boost (0, 1 or 2), e.g. `write power ac custom 2 0`"@,
                ),
            ),
        }
    } else if cpu_mode is Some || gpu_mode is Some {
        Some((UsageKind::InvalidValue, "CPU/GPU boost apply only to the custom profile"@))
    } else {
        None
    }
}

/// The request for a profile; boost tiers go with Custom alone.
pub open spec fn power_request(
    ac: usize,
    profile: ProfileArg,
    cpu_mode: Option<u8>,
    gpu_mode: Option<u8>,
) -> DaemonCommand {
    DaemonCommand::SetPowerMode {
        ac,
        pwr: profile.wire(ac)->0,
        cpu: if profile is Custom {
            cpu_mode->0
        } else {
            0
        },
        gpu: if profile is Custom {
            gpu_mode->0
        } else {
            0
        },
    }
}

/// The request for a profile.
pub fn write_pwr_mode(
    ac: usize,
    profile: ProfileArg,
    cpu_mode: Option<u8>,
    gpu_mode: Option<u8>,
) -> (r: Result<DaemonCommand, UsageError>)
    ensures
        match power_fault(ac, profile, cpu_mode, gpu_mode) {
            Some((kind, message)) => r matches Err(e) && e.is(kind, message),
            None => r == Ok::<DaemonCommand, UsageError>(
                power_request(ac, profile, cpu_mode, gpu_mode),
            ),
        },
{
    let pwr: u8 = match profile.wire_value(ac) {
        Some(v) => v,
        None => {
            let mut message = "That profile is not available on ".to_owned();
            if ac == 1 {
                message.append("AC (plugged in)");
            } else {
                message.append("battery (DC)");
            }
            message.append(". Allowed here: ");
            if ac == 1 {
                message.append("balanced, performance, silent, custom");
            } else {
                message.append("balanced, battery-saver");
            }
            message.append(".");
            return Err(UsageError { kind: UsageKind::InvalidValue, message });
        },
    };
    if profile.is_custom() {
        match (cpu_mode, gpu_mode) {
            (Some(cpu), Some(gpu)) => {
                if cpu > 2 || gpu > 2 {
                    return Err(
                        usage(
                            UsageKind::InvalidValue,
                            "CPU/GPU boost must be 0 (low), 1 (medium) or 2 (high)",
                        ),
                    );
                }
                Ok(DaemonCommand::SetPowerMode { ac, pwr, cpu, gpu })
            },
            _ => Err(
                usage(
                    UsageKind::MissingRequiredArgument,
                    "custom requires a CPU and a GPU boost (0, 1 or 2), e.g. `write power ac custom 2 0`",
                ),
            ),
        }
    } else {
        if cpu_mode.is_some() || gpu_mode.is_some() {
            return Err(
                usage(
                    UsageKind::InvalidValue,
                    "CPU/GPU boost apply only to the custom profile",
                ),
            );
        }
        Ok(DaemonCommand::SetPowerMode { ac, pwr, cpu: 0, gpu: 0 })
    }
}

/// What the answer to a power request calls for.
#[derive(Debug, Clone, Copy, PartialEq, Eq, Structural)]
pub enum PowerAnswer {
    /// Show what is stored now.
    Show,
    /// The daemon refused: ask for what the model offers and complain.
    Refused,
    /// There was no answer.
    Unanswered,
}

/// Looks at the answer to a power request.
pub fn power_answer(response: &Option<DaemonResponse>) -> (r: PowerAnswer)
    ensures
        r == (match *response {
            Some(DaemonResponse::SetPowerMode { result }) => if result {
                PowerAnswer::Show
            } else {
                PowerAnswer::Refused
            },
            Some(_) => PowerAnswer::Show,
            None => PowerAnswer::Unanswered,
        }),
{
    match response {
        Some(DaemonResponse::SetPowerMode { result }) => {
            if *result {
                PowerAnswer::Show
            } else {
                PowerAnswer::Refused
            }
        },
        Some(_) => PowerAnswer::Show,
        None => PowerAnswer::Unanswered,
    }
}

/// Names of profiles.
pub open spec fn names_of(wires: Seq<u8>) -> Seq<Seq<char>> {
    wires.map_values(|w: u8| crate::comms::profile_label(w))
}

/// What the model offers, in words.
pub open spec fn offer(capabilities: Option<DaemonResponse>) -> Seq<char> {
    match capabilities {
        Some(DaemonResponse::GetCapabilities { wires, model, .. }) => model@
            + " currently offers: "@ + text::joined(names_of(wires@), ", "@),
        _ => "could not read the model's profile surface"@,
    }
}

/// The complaint about a power request that the daemon refused.
pub open spec fn refused_power_text(capabilities: Option<DaemonResponse>) -> Seq<char> {
    "the daemon rejected this request \u{2014} "@ + offer(capabilities)
        + " (reason: journalctl --user -u razercontrol)"@
}

/// The complaint about a power request that the daemon refused.
pub fn refused_power(capabilities: &Option<DaemonResponse>) -> (e: UsageError)
    ensures
        e.is(UsageKind::InvalidValue, refused_power_text(*capabilities)),
{
    let offered = match capabilities {
        Some(DaemonResponse::GetCapabilities { wires, model, .. }) => {
            let mut names: Vec<String> = Vec::new();
            let mut i: usize = 0;
            while i < wires.len()
                invariant
                    i <= wires@.len(),
                    text::views(names@) == names_of(wires@.take(i as int)),
                decreases wires@.len() - i,
            {
                let ghost before = text::views(names@);
                names.push(crate::comms::profile_name(wires[i]).to_owned());
                assert(text::views(names@) =~= before.push(
                    crate::comms::profile_label(wires@[i as int]),
                ));
                i = i + 1;
                assert(text::views(names@) =~= names_of(wires@.take(i as int)));
            }
            assert(wires@.take(i as int) =~= wires@);
            let mut s = model.clone();
            s.append(" currently offers: ");
            s.append(join(&names, ", ").as_str());
            s
        },
        _ => "could not read the model's profile surface".to_owned(),
    };
    let mut message = "the daemon rejected this request \u{2014} ".to_owned();
    message.append(offered.as_str());
    message.append(" (reason: journalctl --user -u razercontrol)");
    UsageError { kind: UsageKind::InvalidValue, message }
}

/// The complaint about a power request that was not answered.
pub fn unanswered_power() -> (e: UsageError)
    ensures
        e.is(
            UsageKind::DisplayHelp,
            "An error occurred while sending the command to the daemon"@,
        ),
{
    usage(
        UsageKind::DisplayHelp,
        "An error occurred while sending the command to the daemon",
    )
}

/// Profiles of the command line and the surface of the daemon agree: what the
/// command line can ask for is offered with the unlock, and all that is offered
/// but Gaming can be asked for.
pub proof fn command_line_profiles_are_the_surface(profile: ProfileArg, ac: usize, w: u8)
    requires
        ac < 2,
    ensures
        profile.wire(ac) matches Some(v) ==> crate::profile::offered(false, ac == 1, true).contains(
            v,
        ),
        crate::profile::offered(false, ac == 1, true).contains(w) && w != 1 ==> exists|p: ProfileArg|
            #[trigger] p.wire(ac) == Some(w),
{
    if crate::profile::offered(false, ac == 1, true).contains(w) && w != 1 {
        assert(ProfileArg::Balanced.wire(ac) == Some(w) || ProfileArg::Performance.wire(ac) == Some(
            w,
        ) || ProfileArg::Silent.wire(ac) == Some(w) || ProfileArg::Custom.wire(ac) == Some(w)
            || ProfileArg::Turbo.wire(ac) == Some(w) || ProfileArg::BatterySaver.wire(ac) == Some(
            w,
        ));
    }
}

/// A number of the command line as a byte: its lowest eight bits.
pub fn byte_argument(value: i32) -> (r: u8)
    ensures
        r == value % 256,
{
    let wide: i64 = value as i64;
    let rest: i64 = if wide >= 0 {
        wide % 256
    } else {
        let up: i64 = wide + 0x8000_0000;
        up % 256
    };
    rest as u8
}

} // verus!
