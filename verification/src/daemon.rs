//! Requests of clients, and the watches of the daemon.

use vstd::prelude::*;

use crate::command::EcCommand;
use crate::comms::{CurveTempSource, CycleResult, DaemonCommand, DaemonResponse, DgpuSensors};
use crate::gpu;
use crate::gpu::dgpu_is_active;
use crate::manager::DeviceManager;
use crate::manager::step::{AfterApply, Outcome, Step, Task};

verus! {

/// The answer that an operation under way will be given in.
#[derive(Debug, Clone, Copy, PartialEq, Eq, Structural)]
pub enum Pending {
    SetFanSpeed,
    SetPowerMode,
    SetLogoLedState,
    SetBrightness,
    SetBatteryHealthOptimizer,
    SetFanCurve,
    SetExperimentalProfiles,
    SetStaticColor,
    SetStaticLighting,
    GetActualFanRpm,
    GetCharger,
    CyclePowerMode,
    GetDesiredState,
    GetEcPowerZone,
    GetEcBoost,
    GetEcBrightness,
    GetEcBho,
    GetEcFanTach,
    GetEcFanSetpoint,
}

/// What a request comes to.
#[derive(Debug)]
pub enum Handling {
    /// The answer, `None` to close the connection without one.
    Answer(Option<DaemonResponse>),
    /// An operation of the manager is to be carried through first.
    Operate { step: Step, pending: Pending },
    /// The GPUs are to be scanned first.
    ScanGpus,
    /// The sensor cache is to be looked at first.
    LookAtSensors,
}

/// A zone of the EC.
pub open spec fn is_zone(zone: u8) -> bool {
    1 <= zone <= 2
}

/// The request names a slot or a zone that there is none of.
pub open spec fn out_of_range(cmd: DaemonCommand) -> bool {
    match cmd {
        DaemonCommand::SetFanSpeed { ac, .. } => ac >= 2,
        DaemonCommand::GetFanSpeed { ac } => ac >= 2,
        DaemonCommand::SetPowerMode { ac, .. } => ac >= 2,
        DaemonCommand::GetPwrLevel { ac } => ac >= 2,
        DaemonCommand::GetCPUBoost { ac } => ac >= 2,
        DaemonCommand::GetGPUBoost { ac } => ac >= 2,
        DaemonCommand::SetLogoLedState { ac, .. } => ac >= 2,
        DaemonCommand::GetLogoLedState { ac } => ac >= 2,
        DaemonCommand::SetBrightness { ac, .. } => ac >= 2,
        DaemonCommand::GetBrightness { ac } => ac >= 2,
        DaemonCommand::SetFanCurve { ac, .. } => ac >= 2,
        DaemonCommand::GetFanCurve { ac } => ac >= 2,
        DaemonCommand::GetCapabilities { ac } => ac >= 2,
        DaemonCommand::GetEcPowerZone { zone } => !is_zone(zone),
        DaemonCommand::GetEcFanTach { zone } => !is_zone(zone),
        DaemonCommand::GetEcFanSetpoint { zone } => !is_zone(zone),
        _ => false,
    }
}

/// From `d`, a request that asks for something to be done starts the operation
/// `step` of the manager, which leads to `post` and will be answered as
/// `pending`.
pub open spec fn starts(
    d: DeviceManager,
    cmd: DaemonCommand,
    post: DeviceManager,
    step: Step,
    pending: Pending,
) -> bool {
    match cmd {
        DaemonCommand::SetFanSpeed { ac, rpm } => {
            pending == Pending::SetFanSpeed && d.starts_speed(ac as int, rpm, post, step)
        },
        DaemonCommand::SetPowerMode { ac, pwr, cpu, gpu } => {
            pending == Pending::SetPowerMode && d.starts_power(ac, pwr, cpu, gpu, post, step)
        },
        DaemonCommand::SetLogoLedState { ac, logo_state } => {
            pending == Pending::SetLogoLedState && d.starts_logo(ac as int, logo_state, post, step)
        },
        DaemonCommand::SetBrightness { ac, val } => {
            pending == Pending::SetBrightness && d.starts_brightness(ac as int, val, post, step)
        },
        DaemonCommand::SetBatteryHealthOptimizer { is_on, threshold } => {
            &&& pending == Pending::SetBatteryHealthOptimizer
            &&& post == d
            &&& d.starts_limit(is_on, threshold, step)
        },
        DaemonCommand::SetFanCurve { ac, curve } => {
            pending == Pending::SetFanCurve && d.starts_curve(ac as int, curve, post, step)
        },
        DaemonCommand::SetExperimentalProfiles { enabled } => {
            pending == Pending::SetExperimentalProfiles && d.starts_unlock(enabled, post, step)
        },
        DaemonCommand::SetStaticColor { red, green, blue } => {
            pending == Pending::SetStaticColor && d.starts_color([red, green, blue], post, step)
        },
        DaemonCommand::SetStaticLighting { enabled } => {
            pending == Pending::SetStaticLighting && d.starts_gate(enabled, post, step)
        },
        DaemonCommand::CyclePowerMode => {
            pending == Pending::CyclePowerMode && post == d && d.starts_press(step)
        },
        DaemonCommand::GetEcBho => pending == Pending::GetEcBho && post == d && d.reads_limit(step),
        _ => post == d && match live_read(cmd) {
            Some((command, task, nothing, p)) => {
                pending == p && d.reads_live(command, task, nothing, step)
            },
            None => false,
        },
    }
}

/// The live read that a request asks for: the command, the task it leaves
/// open, what holds without a laptop, and the answer it is given in.
pub open spec fn live_read(cmd: DaemonCommand) -> Option<(EcCommand, Task, Outcome, Pending)> {
    match cmd {
        DaemonCommand::GetActualFanRpm => Some(
            (
                EcCommand::ReadTach { zone: 1 },
                Task::TachRead,
                Outcome::Number((-1) as i32),
                Pending::GetActualFanRpm,
            ),
        ),
        DaemonCommand::GetCharger => Some(
            (EcCommand::ReadCharger, Task::ClassRead, Outcome::Byte(None), Pending::GetCharger),
        ),
        DaemonCommand::GetDesiredState => Some(
            (
                EcCommand::ReadCharger,
                Task::ResolveDesired,
                Outcome::Desired(None),
                Pending::GetDesiredState,
            ),
        ),
        DaemonCommand::GetEcPowerZone { zone } => Some(
            (
                EcCommand::ReadZone { zone },
                Task::ZoneRead,
                Outcome::Zone(None),
                Pending::GetEcPowerZone,
            ),
        ),
        DaemonCommand::GetEcBoost { gpu } => Some(
            (
                EcCommand::ReadBoost {
                    zone: if gpu {
                        2
                    } else {
                        1
                    },
                },
                Task::BoostRead,
                Outcome::Byte(None),
                Pending::GetEcBoost,
            ),
        ),
        DaemonCommand::GetEcBrightness => Some(
            (
                EcCommand::ReadBrightness,
                Task::BrightnessRead,
                Outcome::Byte(None),
                Pending::GetEcBrightness,
            ),
        ),
        DaemonCommand::GetEcFanTach { zone } => Some(
            (
                EcCommand::ReadTach { zone },
                Task::SpeedRead,
                Outcome::Speed(None),
                Pending::GetEcFanTach,
            ),
        ),
        DaemonCommand::GetEcFanSetpoint { zone } => Some(
            (
                EcCommand::ReadSetpoint { zone },
                Task::SpeedRead,
                Outcome::Speed(None),
                Pending::GetEcFanSetpoint,
            ),
        ),
        _ => None,
    }
}

/// `r` answers a request for a stored value.
pub open spec fn answers_stored(d: DeviceManager, cmd: DaemonCommand, r: Option<DaemonResponse>) -> bool {
    match cmd {
        DaemonCommand::GetFanSpeed { ac } => r == Some(
            DaemonResponse::GetFanSpeed {
                rpm: match d.stored(ac as int) {
                    Some(s) => s.fan_rpm,
                    None => 0,
                },
            },
        ),
        DaemonCommand::GetPwrLevel { ac } => r == Some(
            DaemonResponse::GetPwrLevel {
                pwr: match d.stored(ac as int) {
                    Some(s) => s.power_mode,
                    None => 0,
                },
            },
        ),
        DaemonCommand::GetCPUBoost { ac } => r == Some(
            DaemonResponse::GetCPUBoost {
                cpu: match d.stored(ac as int) {
                    Some(s) => s.cpu_boost,
                    None => 0,
                },
            },
        ),
        DaemonCommand::GetGPUBoost { ac } => r == Some(
            DaemonResponse::GetGPUBoost {
                gpu: match d.stored(ac as int) {
                    Some(s) => s.gpu_boost,
                    None => 0,
                },
            },
        ),
        DaemonCommand::GetLogoLedState { ac } => r == Some(
            DaemonResponse::GetLogoLedState {
                logo_state: match d.stored(ac as int) {
                    Some(s) => s.logo_state,
                    None => 0,
                },
            },
        ),
        DaemonCommand::GetBrightness { ac } => r == Some(
            DaemonResponse::GetBrightness {
                result: match d.stored(ac as int) {
                    Some(s) => crate::manager::light::percent_of(s.brightness),
                    None => 0,
                },
            },
        ),
        DaemonCommand::GetBatteryHealthOptimizer => r == (match d.config {
            Some(c) if d.optimizes() => Some(
                DaemonResponse::GetBatteryHealthOptimizer {
                    is_on: c.bho_on,
                    threshold: c.bho_threshold,
                },
            ),
            _ => None,
        }),
        DaemonCommand::GetDeviceName => r matches Some(DaemonResponse::GetDeviceName { name })
            && name@ == (match d.device {
            Some(dev) => dev.name@,
            None => "Unknown Device"@,
        }),
        DaemonCommand::GetFanCurve { ac } => r matches Some(DaemonResponse::GetFanCurve { curve })
            && curve@ == (match d.stored(ac as int) {
            Some(s) => s.fan_curve@,
            None => crate::comms::fresh_curve(),
        }),
        DaemonCommand::GetExperimentalProfiles => r == Some(
            DaemonResponse::GetExperimentalProfiles { enabled: d.unlocked() },
        ),
        DaemonCommand::GetStaticColor => r matches Some(DaemonResponse::GetStaticColor { color })
            && color@ == d.color(),
        DaemonCommand::GetStaticLighting => r == Some(
            DaemonResponse::GetStaticLighting { enabled: d.lighting() },
        ),
        DaemonCommand::GetCapabilities { ac } => r matches Some(
            DaemonResponse::GetCapabilities { wires, max_boost_tier, model },
        ) && {
            let turbo = d.device matches Some(dev) && dev.has_turbo();
            let max = d.device matches Some(dev) && dev.has_max_tier();
            &&& wires@ == crate::profile::surface(turbo, ac == 1, d.unlocked())
            &&& max_boost_tier == crate::manager::read::top_tier(max, d.unlocked())
            &&& model@ == (match d.device {
                Some(dev) => dev.name@,
                None => "no device"@,
            })
        },
        _ => false,
    }
}

/// The request asks for a value that is stored.
pub open spec fn asks_stored(cmd: DaemonCommand) -> bool {
    match cmd {
        DaemonCommand::GetFanSpeed { .. } => true,
        DaemonCommand::GetPwrLevel { .. } => true,
        DaemonCommand::GetCPUBoost { .. } => true,
        DaemonCommand::GetGPUBoost { .. } => true,
        DaemonCommand::GetLogoLedState { .. } => true,
        DaemonCommand::GetBrightness { .. } => true,
        DaemonCommand::GetBatteryHealthOptimizer => true,
        DaemonCommand::GetDeviceName => true,
        DaemonCommand::GetFanCurve { .. } => true,
        DaemonCommand::GetExperimentalProfiles => true,
        DaemonCommand::GetStaticColor => true,
        DaemonCommand::GetStaticLighting => true,
        DaemonCommand::GetCapabilities { .. } => true,
        _ => false,
    }
}

/// From `d`, a request is handled by `h` and leads to `post`. A request for a
/// slot or a zone that there is none of is dropped; one for a stored value is
/// answered at once; any other starts an operation.
pub open spec fn handles(
    d: DeviceManager,
    cmd: DaemonCommand,
    post: DeviceManager,
    h: Handling,
) -> bool {
    if out_of_range(cmd) {
        post == d && h == Handling::Answer(None)
    } else if cmd is GetGpuStatus {
        post == d && h == Handling::ScanGpus
    } else if cmd is GetDgpuSensors {
        post == d && h == Handling::LookAtSensors
    } else if asks_stored(cmd) {
        post == d && (h matches Handling::Answer(r) && answers_stored(d, cmd, r))
    } else {
        h matches Handling::Operate { step, pending } && starts(d, cmd, post, step, pending)
    }
}

/// The request asks for a change of state, which is told in the journal.
pub open spec fn state_changing(cmd: DaemonCommand) -> bool {
    ||| cmd is SetFanCurve
    ||| cmd is SetPowerMode
    ||| cmd is CyclePowerMode
    ||| cmd is SetFanSpeed
    ||| cmd is SetExperimentalProfiles
    ||| cmd is SetBatteryHealthOptimizer
    ||| cmd is SetBrightness
    ||| cmd is SetLogoLedState
    ||| cmd is SetStaticColor
    ||| cmd is SetStaticLighting
}

/// Whether a request asks for a change of state.
pub fn changes_state(cmd: &DaemonCommand) -> (r: bool)
    ensures
        r == state_changing(*cmd),
{
    match cmd {
        DaemonCommand::SetFanCurve { .. }
        | DaemonCommand::SetPowerMode { .. }
        | DaemonCommand::CyclePowerMode
        | DaemonCommand::SetFanSpeed { .. }
        | DaemonCommand::SetExperimentalProfiles { .. }
        | DaemonCommand::SetBatteryHealthOptimizer { .. }
        | DaemonCommand::SetBrightness { .. }
        | DaemonCommand::SetLogoLedState { .. }
        | DaemonCommand::SetStaticColor { .. }
        | DaemonCommand::SetStaticLighting { .. } => true,
        _ => false,
    }
}

fn operate(step: Step, pending: Pending) -> (h: Handling)
    ensures
        h == (Handling::Operate { step, pending }),
{
    Handling::Operate { step, pending }
}

fn reply(r: DaemonResponse) -> (h: Handling)
    ensures
        h == Handling::Answer(Some(r)),
{
    Handling::Answer(Some(r))
}

/// Starts to handle a request of a client.
pub fn process_client_request(d: &mut DeviceManager, cmd: DaemonCommand) -> (h: Handling)
    requires
        old(d).wf(),
    ensures
        final(d).wf(),
        handles(*old(d), cmd, *final(d), h),
{
    match cmd {
        DaemonCommand::GetGpuStatus => Handling::ScanGpus,
        DaemonCommand::GetDgpuSensors => Handling::LookAtSensors,
        DaemonCommand::SetExperimentalProfiles { enabled } => operate(
            d.set_experimental_profiles(enabled),
            Pending::SetExperimentalProfiles,
        ),
        DaemonCommand::GetExperimentalProfiles => reply(
            DaemonResponse::GetExperimentalProfiles { enabled: d.get_experimental_profiles() },
        ),
        DaemonCommand::SetPowerMode { ac, pwr, cpu, gpu } => {
            if ac < 2 {
                operate(
                    d.set_power_mode(ac, pwr, cpu, gpu),
                    Pending::SetPowerMode,
                )
            } else {
                Handling::Answer(None)
            }
        },
        DaemonCommand::SetFanSpeed { ac, rpm } => {
            if ac < 2 {
                operate(
                    d.set_fan_rpm(ac, rpm),
                    Pending::SetFanSpeed,
                )
            } else {
                Handling::Answer(None)
            }
        },
        DaemonCommand::SetLogoLedState { ac, logo_state } => {
            if ac < 2 {
                operate(
                    d.set_logo_led_state(ac, logo_state),
                    Pending::SetLogoLedState,
                )
            } else {
                Handling::Answer(None)
            }
        },
        DaemonCommand::SetBrightness { ac, val } => {
            if ac < 2 {
                operate(
                    d.set_brightness(ac, val),
                    Pending::SetBrightness,
                )
            } else {
                Handling::Answer(None)
            }
        },
        DaemonCommand::GetBrightness { ac } => {
            if ac < 2 {
                reply(
                    DaemonResponse::GetBrightness { result: d.get_brightness(ac) },
                )
            } else {
                Handling::Answer(None)
            }
        },
        DaemonCommand::GetLogoLedState { ac } => {
            if ac < 2 {
                reply(
                    DaemonResponse::GetLogoLedState { logo_state: d.get_logo_led_state(ac) },
                )
            } else {
                Handling::Answer(None)
            }
        },
        DaemonCommand::SetStaticColor { red, green, blue } => operate(
            d.set_static_color([red, green, blue]),
            Pending::SetStaticColor,
        ),
        DaemonCommand::GetStaticColor => reply(
            DaemonResponse::GetStaticColor { color: d.get_static_color() },
        ),
        DaemonCommand::SetStaticLighting { enabled } => operate(
            d.set_static_lighting(enabled),
            Pending::SetStaticLighting,
        ),
        DaemonCommand::GetStaticLighting => reply(
            DaemonResponse::GetStaticLighting { enabled: d.get_static_lighting() },
        ),
        DaemonCommand::GetCapabilities { ac } => {
            if ac < 2 {
                let (wires, max_boost_tier, model) = d.get_capabilities(ac);
                reply(DaemonResponse::GetCapabilities { wires, max_boost_tier, model })
            } else {
                Handling::Answer(None)
            }
        },
        DaemonCommand::GetFanSpeed { ac } => {
            if ac < 2 {
                reply(
                    DaemonResponse::GetFanSpeed { rpm: d.get_fan_rpm(ac) },
                )
            } else {
                Handling::Answer(None)
            }
        },
        DaemonCommand::GetPwrLevel { ac } => {
            if ac < 2 {
                reply(
                    DaemonResponse::GetPwrLevel { pwr: d.get_power_mode(ac) },
                )
            } else {
                Handling::Answer(None)
            }
        },
        DaemonCommand::GetCharger => operate(d.read_charger_domain_raw(), Pending::GetCharger),
        DaemonCommand::GetDesiredState => operate(
            d.desired_state_wire(),
            Pending::GetDesiredState,
        ),
        DaemonCommand::GetEcPowerZone { zone } => {
            if 1 <= zone && zone <= 2 {
                operate(
                    d.ec_power_zone(zone),
                    Pending::GetEcPowerZone,
                )
            } else {
                Handling::Answer(None)
            }
        },
        DaemonCommand::GetEcBoost { gpu } => operate(d.ec_boost(gpu), Pending::GetEcBoost),
        DaemonCommand::GetEcBrightness => operate(d.ec_brightness(), Pending::GetEcBrightness),
        DaemonCommand::GetEcBho => operate(d.ec_bho(), Pending::GetEcBho),
        DaemonCommand::GetEcFanTach { zone } => {
            if 1 <= zone && zone <= 2 {
                operate(
                    d.ec_fan_tach(zone),
                    Pending::GetEcFanTach,
                )
            } else {
                Handling::Answer(None)
            }
        },
        DaemonCommand::GetEcFanSetpoint { zone } => {
            if 1 <= zone && zone <= 2 {
                operate(
                    d.ec_fan_setpoint(zone),
                    Pending::GetEcFanSetpoint,
                )
            } else {
                Handling::Answer(None)
            }
        },
        DaemonCommand::CyclePowerMode => operate(d.cycle_power_key(), Pending::CyclePowerMode),
        DaemonCommand::GetCPUBoost { ac } => {
            if ac < 2 {
                reply(
                    DaemonResponse::GetCPUBoost { cpu: d.get_cpu_boost(ac) },
                )
            } else {
                Handling::Answer(None)
            }
        },
        DaemonCommand::GetGPUBoost { ac } => {
            if ac < 2 {
                reply(
                    DaemonResponse::GetGPUBoost { gpu: d.get_gpu_boost(ac) },
                )
            } else {
                Handling::Answer(None)
            }
        },
        DaemonCommand::SetBatteryHealthOptimizer { is_on, threshold } => operate(
            d.set_bho_handler(is_on, threshold),
            Pending::SetBatteryHealthOptimizer,
        ),
        DaemonCommand::GetBatteryHealthOptimizer => match d.get_bho_handler() {
            Some((is_on, threshold)) => reply(
                DaemonResponse::GetBatteryHealthOptimizer { is_on, threshold },
            ),
            None => Handling::Answer(None),
        },
        DaemonCommand::GetActualFanRpm => operate(
            d.get_actual_fan_rpm(),
            Pending::GetActualFanRpm,
        ),
        DaemonCommand::GetDeviceName => reply(
            DaemonResponse::GetDeviceName { name: d.get_device_name() },
        ),
        DaemonCommand::SetFanCurve { ac, curve } => {
            if ac < 2 {
                operate(
                    d.set_fan_curve(ac, curve),
                    Pending::SetFanCurve,
                )
            } else {
                Handling::Answer(None)
            }
        },
        DaemonCommand::GetFanCurve { ac } => {
            if ac < 2 {
                reply(
                    DaemonResponse::GetFanCurve { curve: d.get_fan_curve(ac) },
                )
            } else {
                Handling::Answer(None)
            }
        },
    }
}

/// The answer to an operation that ended. An outcome of another kind than the
/// operation gives has no answer.
pub open spec fn answered(pending: Pending, outcome: Outcome) -> Option<DaemonResponse> {
    match (pending, outcome) {
        (Pending::SetFanSpeed, Outcome::Flag(result)) => Some(
            DaemonResponse::SetFanSpeed { result },
        ),
        (Pending::SetPowerMode, Outcome::Flag(result)) => Some(
            DaemonResponse::SetPowerMode { result },
        ),
        (Pending::SetLogoLedState, Outcome::Flag(result)) => Some(
            DaemonResponse::SetLogoLedState { result },
        ),
        (Pending::SetBrightness, Outcome::Flag(result)) => Some(
            DaemonResponse::SetBrightness { result },
        ),
        (Pending::SetBatteryHealthOptimizer, Outcome::Flag(result)) => Some(
            DaemonResponse::SetBatteryHealthOptimizer { result },
        ),
        (Pending::SetFanCurve, Outcome::Flag(result)) => Some(
            DaemonResponse::SetFanCurve { result },
        ),
        (Pending::SetExperimentalProfiles, Outcome::Flag(result)) => Some(
            DaemonResponse::SetExperimentalProfiles { result },
        ),
        (Pending::SetStaticColor, Outcome::Flag(result)) => Some(
            DaemonResponse::SetStaticColor { result },
        ),
        (Pending::SetStaticLighting, Outcome::Flag(result)) => Some(
            DaemonResponse::SetStaticLighting { result },
        ),
        (Pending::GetActualFanRpm, Outcome::Number(rpm)) => Some(
            DaemonResponse::GetActualFanRpm { rpm },
        ),
        (Pending::GetCharger, Outcome::Byte(actp)) => Some(DaemonResponse::GetCharger { actp }),
        (Pending::CyclePowerMode, Outcome::Cycle(c)) => Some(
            DaemonResponse::CyclePowerMode {
                applied: match c {
                    Some((wire, domain, cold)) => Some(
                        CycleResult { wire, domain: domain.shown(), cold },
                    ),
                    None => None,
                },
            },
        ),
        (Pending::GetDesiredState, Outcome::Desired(state)) => Some(
            DaemonResponse::GetDesiredState { state },
        ),
        (Pending::GetEcPowerZone, Outcome::Zone(mode)) => Some(
            DaemonResponse::GetEcPowerZone { mode },
        ),
        (Pending::GetEcBoost, Outcome::Byte(value)) => Some(DaemonResponse::GetEcBoost { value }),
        (Pending::GetEcBrightness, Outcome::Byte(value)) => Some(
            DaemonResponse::GetEcBrightness { value },
        ),
        (Pending::GetEcBho, Outcome::Limit(state)) => Some(DaemonResponse::GetEcBho { state }),
        (Pending::GetEcFanTach, Outcome::Speed(rpm)) => Some(
            DaemonResponse::GetEcFanTach { rpm },
        ),
        (Pending::GetEcFanSetpoint, Outcome::Speed(rpm)) => Some(
            DaemonResponse::GetEcFanSetpoint { rpm },
        ),
        _ => None,
    }
}

/// The operation that will be answered as `pending` may leave `task` open.
pub open spec fn belongs(pending: Pending, task: Task) -> bool {
    match pending {
        Pending::SetFanSpeed | Pending::SetLogoLedState | Pending::SetBrightness => task is Stored,
        Pending::SetPowerMode => match task {
            Task::ResolveWrite { .. } => true,
            Task::Applied { after: AfterApply::Write { key, .. }, .. } => key is None,
            Task::Written { key, .. } => key is None,
            _ => false,
        },
        Pending::CyclePowerMode => match task {
            Task::ResolveCycle { .. } => true,
            Task::Applied { after: AfterApply::Key { .. }, .. } => true,
            Task::Applied { after: AfterApply::Write { key, .. }, .. } => key is Some,
            Task::Written { key, .. } => key is Some,
            _ => false,
        },
        Pending::SetBatteryHealthOptimizer => task is LimitSent || task is LimitStored,
        Pending::SetFanCurve => task is CurveSaved || task is Stored,
        Pending::SetExperimentalProfiles => task is UnlockSaved,
        Pending::SetStaticColor => task is ColorSent || task is ColorFlushed || task is Stored,
        Pending::SetStaticLighting => task is LightingSaved || task is LightingColor
            || task is LightingFlushed || task is LightingReverted,
        Pending::GetActualFanRpm => task is TachRead,
        Pending::GetCharger => task is ClassRead,
        Pending::GetDesiredState => task is ResolveDesired,
        Pending::GetEcPowerZone => task is ZoneRead,
        Pending::GetEcBoost => task is BoostRead,
        Pending::GetEcBrightness => task is BrightnessRead,
        Pending::GetEcBho => task is LimitRead,
        Pending::GetEcFanTach | Pending::GetEcFanSetpoint => task is SpeedRead,
    }
}

/// The operation that will be answered as `pending` goes on with a task of its
/// own, or is over and has its answer.
pub open spec fn stays_on(pending: Pending, step: Step) -> bool {
    match step {
        Step::Perform { task, .. } => belongs(pending, task),
        Step::Done(outcome) => answered(pending, outcome) is Some,
    }
}

/// The answer to an operation that ended.
pub fn respond(pending: Pending, outcome: Outcome) -> (r: Option<DaemonResponse>)
    ensures
        r == answered(pending, outcome),
{
    match (pending, outcome) {
        (Pending::SetFanSpeed, Outcome::Flag(result)) => Some(
            DaemonResponse::SetFanSpeed { result },
        ),
        (Pending::SetPowerMode, Outcome::Flag(result)) => Some(
            DaemonResponse::SetPowerMode { result },
        ),
        (Pending::SetLogoLedState, Outcome::Flag(result)) => Some(
            DaemonResponse::SetLogoLedState { result },
        ),
        (Pending::SetBrightness, Outcome::Flag(result)) => Some(
            DaemonResponse::SetBrightness { result },
        ),
        (Pending::SetBatteryHealthOptimizer, Outcome::Flag(result)) => Some(
            DaemonResponse::SetBatteryHealthOptimizer { result },
        ),
        (Pending::SetFanCurve, Outcome::Flag(result)) => Some(
            DaemonResponse::SetFanCurve { result },
        ),
        (Pending::SetExperimentalProfiles, Outcome::Flag(result)) => Some(
            DaemonResponse::SetExperimentalProfiles { result },
        ),
        (Pending::SetStaticColor, Outcome::Flag(result)) => Some(
            DaemonResponse::SetStaticColor { result },
        ),
        (Pending::SetStaticLighting, Outcome::Flag(result)) => Some(
            DaemonResponse::SetStaticLighting { result },
        ),
        (Pending::GetActualFanRpm, Outcome::Number(rpm)) => Some(
            DaemonResponse::GetActualFanRpm { rpm },
        ),
        (Pending::GetCharger, Outcome::Byte(actp)) => Some(DaemonResponse::GetCharger { actp }),
        (Pending::CyclePowerMode, Outcome::Cycle(c)) => {
            let applied = match c {
                Some((wire, domain, cold)) => Some(
                    CycleResult { wire, domain: domain.to_wire(), cold },
                ),
                None => None,
            };
            Some(DaemonResponse::CyclePowerMode { applied })
        },
        (Pending::GetDesiredState, Outcome::Desired(state)) => Some(
            DaemonResponse::GetDesiredState { state },
        ),
        (Pending::GetEcPowerZone, Outcome::Zone(mode)) => Some(
            DaemonResponse::GetEcPowerZone { mode },
        ),
        (Pending::GetEcBoost, Outcome::Byte(value)) => Some(DaemonResponse::GetEcBoost { value }),
        (Pending::GetEcBrightness, Outcome::Byte(value)) => Some(
            DaemonResponse::GetEcBrightness { value },
        ),
        (Pending::GetEcBho, Outcome::Limit(state)) => Some(DaemonResponse::GetEcBho { state }),
        (Pending::GetEcFanTach, Outcome::Speed(rpm)) => Some(
            DaemonResponse::GetEcFanTach { rpm },
        ),
        (Pending::GetEcFanSetpoint, Outcome::Speed(rpm)) => Some(
            DaemonResponse::GetEcFanSetpoint { rpm },
        ),
        _ => None,
    }
}

/// The answer to a request while the manager cannot be had.
pub open spec fn unmanaged(cmd: DaemonCommand) -> Option<DaemonResponse> {
    match cmd {
        DaemonCommand::SetExperimentalProfiles { .. } => Some(
            DaemonResponse::SetExperimentalProfiles { result: false },
        ),
        DaemonCommand::GetExperimentalProfiles => Some(
            DaemonResponse::GetExperimentalProfiles { enabled: false },
        ),
        _ => None,
    }
}

/// The answer to a request while the manager cannot be had: the experimental
/// unlock reads as off and cannot be set, nothing else is answered.
pub fn unmanaged_response(cmd: &DaemonCommand) -> (r: Option<DaemonResponse>)
    ensures
        r == unmanaged(*cmd),
{
    match cmd {
        DaemonCommand::SetExperimentalProfiles { .. } => Some(
            DaemonResponse::SetExperimentalProfiles { result: false },
        ),
        DaemonCommand::GetExperimentalProfiles => Some(
            DaemonResponse::GetExperimentalProfiles { enabled: false },
        ),
        _ => None,
    }
}

/// The largest request that is read.
pub const MAX_REQUEST_BYTES: u64 = 65536;

/// How long a sensor snapshot may be shown.
pub const DGPU_SENSOR_MAX_AGE_MS: u64 = 10_000;

/// A sensor sample: the values as bit patterns of floating point numbers, and
/// the time in nanoseconds at which they were taken.
#[derive(Debug, Clone, Copy, PartialEq, Eq)]
pub struct SensorSample {
    pub temp_c: u64,
    pub power_w: Option<u64>,
    pub util_pct: Option<u32>,
    pub taken: u64,
}

/// Age of a sample in milliseconds.
pub open spec fn age_of(sample: SensorSample, now: u64) -> u64 {
    if now < sample.taken {
        0
    } else {
        ((now - sample.taken) / 1_000_000) as u64
    }
}

/// The snapshot that clients are shown at `now`.
pub open spec fn snapshot(cache: Option<SensorSample>, now: u64) -> Option<DgpuSensors> {
    match cache {
        Some(s) if age_of(s, now) <= DGPU_SENSOR_MAX_AGE_MS => Some(
            DgpuSensors {
                temp_c: s.temp_c,
                power_w: s.power_w,
                util_pct: s.util_pct,
                age_ms: age_of(s, now),
            },
        ),
        _ => None,
    }
}

/// The snapshot that clients are shown: the last sample with its age, none
/// once it is too old.
pub fn dgpu_sensor_snapshot(cache: Option<SensorSample>, now: u64) -> (r: Option<DgpuSensors>)
    ensures
        r == snapshot(cache, now),
{
    match cache {
        None => None,
        Some(s) => {
            let age_ms: u64 = if now < s.taken {
                0
            } else {
                (now - s.taken) / 1_000_000
            };
            if age_ms > DGPU_SENSOR_MAX_AGE_MS {
                return None;
            }
            Some(
                DgpuSensors {
                    temp_c: s.temp_c,
                    power_w: s.power_w,
                    util_pct: s.util_pct,
                    age_ms,
                },
            )
        },
    }
}

/// A sample is shown as it was taken for ten seconds, with its age in whole
/// milliseconds, and never after that. Without a sample nothing is shown.
pub proof fn a_sample_is_shown_while_fresh(s: SensorSample, now: u64)
    ensures
        snapshot(None, now) is None,
        now >= s.taken + 10_001_000_000 ==> snapshot(Some(s), now) is None,
        now < s.taken + 10_001_000_000 ==> (snapshot(Some(s), now) matches Some(shown) && {
            &&& shown.temp_c == s.temp_c
            &&& shown.power_w == s.power_w
            &&& shown.util_pct == s.util_pct
            &&& now >= s.taken ==> shown.age_ms * 1_000_000 <= now - s.taken < (shown.age_ms + 1)
                * 1_000_000
            &&& now < s.taken ==> shown.age_ms == 0
        }),
{
}

/// How often the profile is applied again after the system woke up.
pub const WAKE_SETTLE_REAPPLIES: u32 = 3;

/// Seconds before each of these.
pub const WAKE_SETTLE_INTERVAL_SECS: u64 = 2;

/// Seconds between two looks at the dGPU.
pub const DGPU_RESUME_POLL_SECS: u64 = 2;

/// How often the profile is applied again after the dGPU woke up.
pub const DGPU_RESUME_REAPPLIES: u32 = 3;

/// Seconds between two turns of the fan curve.
pub const FAN_CURVE_POLL_SECS: u64 = 2;

/// Watches the dGPU wake up.
#[derive(Debug, Clone, Copy, PartialEq, Eq, Structural)]
pub struct ResumeWatch {
    pub was_active: bool,
    pub reapplies_remaining: u32,
}

impl ResumeWatch {
    /// Re-applications that are due when the dGPU is seen `active`.
    pub open spec fn due(self, active: bool) -> u32 {
        if active && !self.was_active {
            DGPU_RESUME_REAPPLIES
        } else {
            self.reapplies_remaining
        }
    }

    /// A look that finds the dGPU `active` or not leads from `self` to `post`,
    /// and the profile is applied again or not.
    pub open spec fn looks(self, active: bool, post: ResumeWatch, reapply: bool) -> bool {
        &&& reapply == (active && self.due(active) > 0)
        &&& post == (ResumeWatch {
            was_active: active,
            reapplies_remaining: if reapply {
                (self.due(active) - 1) as u32
            } else {
                self.due(active)
            },
        })
    }

    pub fn new() -> (r: ResumeWatch)
        ensures
            r == (ResumeWatch { was_active: false, reapplies_remaining: 0 }),
    {
        ResumeWatch { was_active: false, reapplies_remaining: 0 }
    }

    /// One look at the dGPU; tells whether to apply the profile again. Waking
    /// up makes it due a few times, each look while active takes one of them.
    pub fn look(&mut self, active: bool) -> (reapply: bool)
        ensures
            old(self).looks(active, *final(self), reapply),
    {
        if active && !self.was_active {
            self.reapplies_remaining = DGPU_RESUME_REAPPLIES;
        }
        let mut reapply = false;
        if active && self.reapplies_remaining > 0 {
            reapply = true;
            self.reapplies_remaining = self.reapplies_remaining - 1;
        }
        self.was_active = active;
        reapply
    }

    /// The watch after a number of looks at an active dGPU.
    pub open spec fn after_active(self, looks: nat) -> ResumeWatch
        decreases looks,
    {
        if looks == 0 {
            self
        } else {
            let before = self.after_active((looks - 1) as nat);
            let due = before.due(true);
            ResumeWatch {
                was_active: true,
                reapplies_remaining: if due > 0 {
                    (due - 1) as u32
                } else {
                    0
                },
            }
        }
    }
}

/// From the look that finds the dGPU awake the profile is applied again at
/// exactly as many looks as are due, and at no later one while it stays awake.
pub proof fn resume_burst_is_bounded(watch: ResumeWatch, looks: nat)
    requires
        !watch.was_active,
        looks > 0,
    ensures
        watch.after_active(looks).was_active,
        watch.after_active(looks).reapplies_remaining == (if looks < DGPU_RESUME_REAPPLIES {
            DGPU_RESUME_REAPPLIES - looks
        } else {
            0
        }),
        (watch.after_active((looks - 1) as nat).due(true) > 0) <==> looks
            <= DGPU_RESUME_REAPPLIES,
    decreases looks,
{
    reveal_with_fuel(ResumeWatch::after_active, 2);
    if looks > 1 {
        resume_burst_is_bounded(watch, (looks - 1) as nat);
    }
}

/// A look at a dGPU that just woke up applies the profile and leaves two more
/// looks that do; each later look while it is awake takes one of what is left.
/// One that sleeps is left alone.
pub proof fn waking_up_is_followed(
    watch: ResumeWatch,
    active: bool,
    post: ResumeWatch,
    reapply: bool,
)
    requires
        watch.looks(active, post, reapply),
    ensures
        post.was_active == active,
        !active ==> !reapply && post.reapplies_remaining == watch.reapplies_remaining,
        active && !watch.was_active ==> reapply && post.reapplies_remaining == 2,
        active && watch.was_active && watch.reapplies_remaining > 0 ==> reapply
            && post.reapplies_remaining + 1 == watch.reapplies_remaining,
        active && watch.was_active && watch.reapplies_remaining == 0 ==> !reapply
            && post.reapplies_remaining == 0,
{
}

/// A fan curve with this source looks at the CPU temperature.
pub open spec fn looks_at_cpu(source: CurveTempSource) -> bool {
    !(source is Gpu)
}

/// A fan curve with this source looks at the GPU temperature.
pub open spec fn looks_at_gpu(source: CurveTempSource) -> bool {
    !(source is Cpu)
}

/// Whether a fan curve needs the CPU temperature.
pub fn needs_cpu_temperature(source: CurveTempSource) -> (r: bool)
    ensures
        r == looks_at_cpu(source),
{
    match source {
        CurveTempSource::Cpu | CurveTempSource::Both => true,
        CurveTempSource::Gpu => false,
    }
}

/// Whether a fan curve needs the GPU temperature.
pub fn needs_gpu_temperature(source: CurveTempSource) -> (r: bool)
    ensures
        r == looks_at_gpu(source),
{
    match source {
        CurveTempSource::Gpu | CurveTempSource::Both => true,
        CurveTempSource::Cpu => false,
    }
}

/// Whether the sensors of the discrete GPU may be sampled for a fan curve:
/// only for one that needs them, and only while the GPU is awake by the
/// contents of its status file. A GPU that sleeps is never woken for them.
pub fn may_sample(source: CurveTempSource, status: &Option<String>) -> (r: bool)
    ensures
        r == (looks_at_gpu(source) && gpu::says(*status, "active"@)),
{
    needs_gpu_temperature(source) && dgpu_is_active(status)
}

/// A temperature that a curve does not look at makes no difference to it, and
/// one that it goes by alone is looked at.
pub proof fn what_a_curve_goes_by_is_looked_at(
    curve: crate::comms::FanCurve,
    t: Option<i64>,
    x: Option<i64>,
    y: Option<i64>,
)
    ensures
        !looks_at_cpu(curve.source) ==> crate::fan::curve_target(curve, x, t)
            == crate::fan::curve_target(curve, y, t),
        !looks_at_gpu(curve.source) ==> crate::fan::curve_target(curve, t, x)
            == crate::fan::curve_target(curve, t, y),
        looks_at_cpu(curve.source) || looks_at_gpu(curve.source),
        curve.source is Both ==> looks_at_cpu(curve.source) && looks_at_gpu(curve.source),
{
}

/// While the manager cannot be had the unlock is off and stays so, and no other
/// request is answered.
pub proof fn nothing_is_granted_without_the_manager(cmd: DaemonCommand)
    ensures
        cmd is GetExperimentalProfiles ==> unmanaged(cmd) == Some(
            DaemonResponse::GetExperimentalProfiles { enabled: false },
        ),
        cmd is SetExperimentalProfiles ==> unmanaged(cmd) == Some(
            DaemonResponse::SetExperimentalProfiles { result: false },
        ),
        !(cmd is GetExperimentalProfiles) && !(cmd is SetExperimentalProfiles) ==> unmanaged(cmd)
            is None,
{
}

/// Requests that change something are the setting ones and the press; none that
/// reads is.
pub proof fn reading_changes_nothing(d: DeviceManager, cmd: DaemonCommand, post: DeviceManager, h: Handling)
    requires
        handles(d, cmd, post, h),
        !state_changing(cmd),
    ensures
        post == d,
        !(cmd is SetFanSpeed) && !(cmd is SetPowerMode) && !(cmd is SetLogoLedState),
        !(cmd is SetBrightness) && !(cmd is SetBatteryHealthOptimizer) && !(cmd is SetFanCurve),
        !(cmd is SetExperimentalProfiles) && !(cmd is SetStaticColor),
        !(cmd is SetStaticLighting) && !(cmd is CyclePowerMode),
{
}

/// The looks at a dGPU that woke up and the rounds after a wake of the system
/// settle within six seconds, three rounds of two each. A sensor value outlives
/// five turns of the fan curve. A request has 64 KiB.
pub proof fn the_daemon_keeps_its_times()
    ensures
        WAKE_SETTLE_REAPPLIES == 3 && WAKE_SETTLE_REAPPLIES * WAKE_SETTLE_INTERVAL_SECS == 6,
        DGPU_RESUME_REAPPLIES == 3 && DGPU_RESUME_REAPPLIES * DGPU_RESUME_POLL_SECS == 6,
        FAN_CURVE_POLL_SECS == 2 && DGPU_SENSOR_MAX_AGE_MS == 5 * 1000 * FAN_CURVE_POLL_SECS,
        MAX_REQUEST_BYTES == 64 * 1024,
{
}

} // verus!
