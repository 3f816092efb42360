//! What becomes of a request: which are refused, which are taken up, and how
//! each is answered.

use vstd::prelude::*;

use crate::charger::ChargerDomain;
use crate::command::EcCommand;
use crate::comms::{DaemonCommand, DaemonResponse};
use crate::daemon;
use crate::daemon::Handling;
use crate::laptop;
use crate::manager::DeviceManager;
use crate::manager::effects;
use crate::manager::profiles;
use crate::manager::step::{Action, Outcome, Reply, Step, Task};

verus! {

/// The request names a slot that is not there: there are two.
pub open spec fn names_no_slot(cmd: DaemonCommand) -> bool {
    match cmd {
        DaemonCommand::SetFanSpeed { ac, .. } => ac > 1,
        DaemonCommand::SetPowerMode { ac, .. } => ac > 1,
        DaemonCommand::SetLogoLedState { ac, .. } => ac > 1,
        DaemonCommand::SetBrightness { ac, .. } => ac > 1,
        DaemonCommand::SetFanCurve { ac, .. } => ac > 1,
        DaemonCommand::GetFanSpeed { ac } => ac > 1,
        DaemonCommand::GetPwrLevel { ac } => ac > 1,
        DaemonCommand::GetCPUBoost { ac } => ac > 1,
        DaemonCommand::GetGPUBoost { ac } => ac > 1,
        DaemonCommand::GetLogoLedState { ac } => ac > 1,
        DaemonCommand::GetBrightness { ac } => ac > 1,
        DaemonCommand::GetFanCurve { ac } => ac > 1,
        DaemonCommand::GetCapabilities { ac } => ac > 1,
        DaemonCommand::GetEcPowerZone { zone } => zone != 1 && zone != 2,
        DaemonCommand::GetEcFanTach { zone } => zone != 1 && zone != 2,
        DaemonCommand::GetEcFanSetpoint { zone } => zone != 1 && zone != 2,
        _ => false,
    }
}

/// A request for a slot or a zone that is not there gets no answer and changes
/// nothing; every other one is taken up.
pub proof fn a_slot_that_is_not_there_gets_no_answer(
    d: DeviceManager,
    cmd: DaemonCommand,
    post: DeviceManager,
    h: Handling,
)
    requires
        daemon::handles(d, cmd, post, h),
    ensures
        names_no_slot(cmd) ==> post == d && h == Handling::Answer(None),
        !names_no_slot(cmd) && !(cmd is GetBatteryHealthOptimizer) ==> h != Handling::Answer(None),
{
}

/// A speed outside the range of the model, a logo state above 2 and a threshold
/// outside 50 to 80 are refused and leave no trace. So is any charge limit on a
/// model without one, and any speed but 0 without a laptop.
pub proof fn what_is_out_of_range_is_refused(
    d: DeviceManager,
    cmd: DaemonCommand,
    post: DeviceManager,
    h: Handling,
)
    requires
        daemon::handles(d, cmd, post, h),
        !names_no_slot(cmd),
        match cmd {
            DaemonCommand::SetFanSpeed { rpm, .. } => rpm != 0 && (d.device matches Some(l) ==> rpm
                < l.fan@[0] || rpm > l.fan@[1]),
            DaemonCommand::SetLogoLedState { logo_state, .. } => logo_state > 2,
            DaemonCommand::SetBatteryHealthOptimizer { threshold, .. } => threshold < 50
                || threshold > 80 || (d.device matches Some(l) ==> !laptop::lists(
                l.features@,
                "bho"@,
            )),
            _ => false,
        },
    ensures
        post == d,
        h matches Handling::Operate { step, .. } && step == Step::Done(Outcome::Flag(false)),
{
}

/// What is within range is taken up: there is something to do.
pub proof fn what_is_in_range_is_taken_up(
    d: DeviceManager,
    cmd: DaemonCommand,
    post: DeviceManager,
    h: Handling,
)
    requires
        daemon::handles(d, cmd, post, h),
        !names_no_slot(cmd),
        d.device is Some && d.config is Some,
        match cmd {
            DaemonCommand::SetFanSpeed { rpm, .. } => rpm == 0 || d.device->0.fan@[0] <= rpm
                <= d.device->0.fan@[1],
            DaemonCommand::SetLogoLedState { logo_state, .. } => logo_state <= 2,
            DaemonCommand::SetBatteryHealthOptimizer { threshold, .. } => 50 <= threshold <= 80
                && laptop::lists(d.device->0.features@, "bho"@),
            DaemonCommand::SetBrightness { .. } => true,
            DaemonCommand::SetFanCurve { .. } => true,
            DaemonCommand::SetStaticColor { .. } => true,
            DaemonCommand::SetExperimentalProfiles { .. } => true,
            DaemonCommand::SetPowerMode { .. } => true,
            DaemonCommand::CyclePowerMode => true,
            DaemonCommand::SetStaticLighting { enabled } => enabled
                != d.config->0.static_lighting,
            _ => false,
        },
    ensures
        h matches Handling::Operate { step, .. } && step is Perform && effects::asked(step).len()
            > 0,
{
    let a = effects::asked(h->step);
    let saves = crate::manager::power::saves(true);
    assert(saves.len() == 1);
}

/// A speed, a brightness or a logo state for the slot that is not in force is
/// saved, and nothing reaches the controller.
pub proof fn a_setting_of_the_other_slot_is_only_saved(
    d: DeviceManager,
    cmd: DaemonCommand,
    post: DeviceManager,
    h: Handling,
)
    requires
        d.device is Some && d.config is Some,
        daemon::handles(d, cmd, post, h),
        match cmd {
            DaemonCommand::SetFanSpeed { ac, rpm } => ac < 2 && ac != d.device->0.ac_state && (rpm
                == 0 || d.device->0.fan@[0] <= rpm <= d.device->0.fan@[1]),
            DaemonCommand::SetLogoLedState { ac, logo_state } => ac < 2 && ac
                != d.device->0.ac_state && logo_state <= 2,
            DaemonCommand::SetBrightness { ac, .. } => ac < 2 && ac != d.device->0.ac_state,
            _ => false,
        },
    ensures
        post.device == d.device,
        h matches Handling::Operate { step, .. } && effects::asked(step) == seq![Action::Save],
{
    assert(effects::asked(h->step) =~= seq![Action::Save]);
}

/// A change is answered by its own kind of response, with what came of it.
pub proof fn a_change_is_answered_with_what_came_of_it(
    d: DeviceManager,
    cmd: DaemonCommand,
    post: DeviceManager,
    h: Handling,
    result: bool,
)
    requires
        daemon::handles(d, cmd, post, h),
        !names_no_slot(cmd),
        daemon::state_changing(cmd),
        !(cmd is CyclePowerMode),
    ensures
        h is Operate,
        daemon::answered(h->pending, Outcome::Flag(result)) == Some(
            match cmd {
                DaemonCommand::SetFanSpeed { .. } => DaemonResponse::SetFanSpeed { result },
                DaemonCommand::SetPowerMode { .. } => DaemonResponse::SetPowerMode { result },
                DaemonCommand::SetLogoLedState { .. } => DaemonResponse::SetLogoLedState { result },
                DaemonCommand::SetBrightness { .. } => DaemonResponse::SetBrightness { result },
                DaemonCommand::SetBatteryHealthOptimizer { .. } => {
                    DaemonResponse::SetBatteryHealthOptimizer { result }
                },
                DaemonCommand::SetFanCurve { .. } => DaemonResponse::SetFanCurve { result },
                DaemonCommand::SetExperimentalProfiles { .. } => {
                    DaemonResponse::SetExperimentalProfiles { result }
                },
                DaemonCommand::SetStaticColor { .. } => DaemonResponse::SetStaticColor { result },
                _ => DaemonResponse::SetStaticLighting { result },
            },
        ),
{
}

/// A press is answered with the profile and the domain in force after it, and
/// whether it was cold; one that came to nothing with nothing.
pub proof fn a_press_is_answered_with_what_is_in_force(
    d: DeviceManager,
    post: DeviceManager,
    h: Handling,
    wire: u8,
    domain: ChargerDomain,
    cold: bool,
)
    requires
        daemon::handles(d, DaemonCommand::CyclePowerMode, post, h),
    ensures
        h is Operate && post == d,
        daemon::answered(h->pending, Outcome::Cycle(None)) == Some(
            DaemonResponse::CyclePowerMode { applied: None },
        ),
        daemon::answered(h->pending, Outcome::Cycle(Some((wire, domain, cold)))) matches Some(
            DaemonResponse::CyclePowerMode { applied: Some(c) },
        ) && {
            &&& c.wire == wire
            &&& c.cold == cold
            &&& domain is Barrel <==> c.domain is Barrel
            &&& domain is Pd <==> c.domain is Pd
            &&& domain is Battery <==> c.domain is Battery
        },
{
}

/// The capabilities of a slot: the profiles of the domain in display order, and
/// the highest tier, 3 where the model ships it or the unlock is on, else 2.
pub proof fn capabilities_are_what_is_offered(
    d: DeviceManager,
    ac: usize,
    post: DeviceManager,
    h: Handling,
)
    requires
        ac < 2,
        d.device is Some && d.config is Some,
        daemon::handles(d, DaemonCommand::GetCapabilities { ac }, post, h),
    ensures
        post == d,
        h matches Handling::Answer(
            Some(DaemonResponse::GetCapabilities { wires, max_boost_tier, model }),
        ) && {
            let unlocked = d.config->0.experimental_profiles;
            let turbo = laptop::lists(d.device->0.features@, "turbo_stock"@);
            let max = laptop::lists(d.device->0.features@, "max_tier_stock"@);
            &&& ac == 0 ==> wires@ == seq![6u8, 3u8]
            &&& ac == 1 && unlocked ==> wires@ == seq![0u8, 2u8, 5u8, 7u8, 4u8, 1u8]
            &&& ac == 1 && !unlocked && turbo ==> wires@ == seq![0u8, 2u8, 5u8, 7u8, 4u8]
            &&& ac == 1 && !unlocked && !turbo ==> wires@ == seq![0u8, 2u8, 5u8, 4u8]
            &&& unlocked || max ==> max_boost_tier == 3
            &&& !unlocked && !max ==> max_boost_tier == 2
            &&& model@ == d.device->0.name@
        },
{
}

/// While there is no configuration a stored value is answered with 0, a switch
/// with off, a curve with one that is off, and the lighting with on in green.
pub proof fn without_a_configuration_defaults_are_answered(
    d: DeviceManager,
    cmd: DaemonCommand,
    post: DeviceManager,
    h: Handling,
)
    requires
        d.config is None,
        !names_no_slot(cmd),
        daemon::handles(d, cmd, post, h),
    ensures
        match cmd {
            DaemonCommand::GetFanSpeed { .. } => h == Handling::Answer(
                Some(DaemonResponse::GetFanSpeed { rpm: 0 }),
            ),
            DaemonCommand::GetPwrLevel { .. } => h == Handling::Answer(
                Some(DaemonResponse::GetPwrLevel { pwr: 0 }),
            ),
            DaemonCommand::GetCPUBoost { .. } => h == Handling::Answer(
                Some(DaemonResponse::GetCPUBoost { cpu: 0 }),
            ),
            DaemonCommand::GetGPUBoost { .. } => h == Handling::Answer(
                Some(DaemonResponse::GetGPUBoost { gpu: 0 }),
            ),
            DaemonCommand::GetLogoLedState { .. } => h == Handling::Answer(
                Some(DaemonResponse::GetLogoLedState { logo_state: 0 }),
            ),
            DaemonCommand::GetBrightness { .. } => h == Handling::Answer(
                Some(DaemonResponse::GetBrightness { result: 0 }),
            ),
            DaemonCommand::GetExperimentalProfiles => h == Handling::Answer(
                Some(DaemonResponse::GetExperimentalProfiles { enabled: false }),
            ),
            DaemonCommand::GetStaticLighting => h == Handling::Answer(
                Some(DaemonResponse::GetStaticLighting { enabled: true }),
            ),
            DaemonCommand::GetStaticColor => h matches Handling::Answer(
                Some(DaemonResponse::GetStaticColor { color }),
            ) && color@ == seq![0u8, 255u8, 0u8],
            DaemonCommand::GetFanCurve { .. } => h matches Handling::Answer(
                Some(DaemonResponse::GetFanCurve { curve }),
            ) && !curve.enabled,
            DaemonCommand::GetBatteryHealthOptimizer => h == Handling::Answer(None),
            DaemonCommand::SetFanCurve { .. } => h matches Handling::Operate { step, .. } && step
                == Step::Done(Outcome::Flag(false)),
            DaemonCommand::SetExperimentalProfiles { .. } => post == d && (
            h matches Handling::Operate { step, .. } && step == Step::Done(Outcome::Flag(false))),
            DaemonCommand::SetStaticLighting { .. } => post == d && (
            h matches Handling::Operate { step, .. } && step == Step::Done(Outcome::Flag(false))),
            _ => true,
        },
{
}

/// The name of the laptop is answered, or that there is none.
pub proof fn the_laptop_is_named(d: DeviceManager, post: DeviceManager, h: Handling)
    requires
        daemon::handles(d, DaemonCommand::GetDeviceName, post, h),
    ensures
        h matches Handling::Answer(Some(DaemonResponse::GetDeviceName { name })) && {
            &&& d.device matches Some(l) ==> name@ == l.name@
            &&& d.device is None ==> name@ == "Unknown Device"@
        },
{
}

/// The configuration was written by the action at `i`.
pub open spec fn written_at(replies: Seq<Reply>, i: int) -> bool {
    0 <= i < replies.len() && replies[i] == Reply::Saved(true)
}

/// A charge limit that was committed succeeds where it was also saved. One that
/// is restored is committed where it was answered, and nothing is reported.
pub proof fn a_charge_limit_succeeds_where_saved(
    d: DeviceManager,
    save: bool,
    replies: Seq<Reply>,
    post: DeviceManager,
    step: Step,
    again_post: DeviceManager,
    again: Step,
    end_post: DeviceManager,
    end: Step,
)
    requires
        d.resumes(Task::LimitStored { save }, replies, post, step),
        d.resumes(Task::LimitRestored, replies, again_post, again),
        d.resumes(Task::LimitCommitted, replies, end_post, end),
    ensures
        post == d && again_post == d && end_post == d,
        step == Step::Done(Outcome::Flag(!save || written_at(replies, 1))),
        profiles::replied(replies, 0) ==> effects::asked(again) == seq![
            Action::Command(EcCommand::ChargeLimitCommit),
        ] && (again matches Step::Perform { task: Task::LimitCommitted, .. }),
        !profiles::replied(replies, 0) ==> again == Step::Done(Outcome::Nothing),
        end == Step::Done(Outcome::Nothing),
{
}

/// A colour that was answered is written the second time; it succeeds where that
/// is answered too and the colour was saved.
pub proof fn a_colour_succeeds_where_answered_and_saved(
    d: DeviceManager,
    red: u8,
    green: u8,
    blue: u8,
    replies: Seq<Reply>,
    post: DeviceManager,
    step: Step,
    saved: bool,
    last: Seq<Reply>,
    end_post: DeviceManager,
    end: Step,
)
    requires
        d.resumes(Task::ColorSent { red, green, blue, save: true }, replies, post, step),
        d.resumes(Task::ColorFlushed { saved }, last, end_post, end),
    ensures
        post == d && end_post == d,
        !profiles::replied(replies, 1) ==> step == Step::Done(Outcome::Flag(false)),
        profiles::replied(replies, 1) ==> effects::asked(step) == seq![
            Action::Command(EcCommand::StaticColor { red, green, blue }),
        ] && (step matches Step::Perform { task: Task::ColorFlushed { saved: s }, .. } && s
            == written_at(replies, 0)),
        end == Step::Done(Outcome::Flag(saved && profiles::replied(last, 0))),
{
}

/// A lighting switch that was saved is taken over by the mirror. Switched on it
/// writes the stored colour twice, and succeeds where both were answered;
/// switched off it is done.
pub proof fn a_saved_lighting_switch_takes_effect(
    d: DeviceManager,
    enabled: bool,
    previous: bool,
    replies: Seq<Reply>,
    post: DeviceManager,
    step: Step,
    red: u8,
    green: u8,
    blue: u8,
    answered: Seq<Reply>,
    second_post: DeviceManager,
    second: Step,
    end_post: DeviceManager,
    end: Step,
)
    requires
        d.device is Some && d.config is Some,
        d.config->0.static_lighting == enabled,
        written_at(replies, 0),
        profiles::replied(answered, 0),
        d.resumes(Task::LightingSaved { enabled, previous }, replies, post, step),
        d.resumes(
            Task::LightingColor { red, green, blue, previous },
            answered,
            second_post,
            second,
        ),
        d.resumes(Task::LightingFlushed { previous }, answered, end_post, end),
    ensures
        post.device->0.static_lighting == enabled && post.config == d.config,
        !enabled ==> step == Step::Done(Outcome::Flag(true)),
        enabled ==> ({
            let rgb = d.config->0.static_color@;
            &&& effects::asked(step) == seq![
                Action::Command(
                    EcCommand::StaticColor { red: rgb[0], green: rgb[1], blue: rgb[2] },
                ),
            ]
            &&& step matches Step::Perform {
                task: Task::LightingColor { red: r, green: g, blue: b, previous: p },
                ..
            } && r == rgb[0] && g == rgb[1] && b == rgb[2] && p == previous
        }),
        second_post == d && effects::asked(second) == seq![
            Action::Command(EcCommand::StaticColor { red, green, blue }),
        ],
        second matches Step::Perform { task: Task::LightingFlushed { previous: p }, .. } && p
            == previous,
        end_post == d && end == Step::Done(Outcome::Flag(true)),
{
}

/// An unlock and a curve succeed where they were saved; a curve that hands
/// nothing back is then done.
pub proof fn an_unlock_succeeds_where_saved(
    d: DeviceManager,
    previous: bool,
    mirrored: bool,
    replies: Seq<Reply>,
    post: DeviceManager,
    step: Step,
    curve_post: DeviceManager,
    curve: Step,
)
    requires
        d.resumes(Task::UnlockSaved { previous, mirrored }, replies, post, step),
        d.resumes(Task::CurveSaved { restore: None }, replies, curve_post, curve),
    ensures
        step == Step::Done(Outcome::Flag(written_at(replies, 0))),
        curve == Step::Done(Outcome::Flag(written_at(replies, 0))),
        written_at(replies, 0) ==> post == d,
        curve_post == d,
        !written_at(replies, 0) && d.config is Some ==> post.config->0.experimental_profiles
            == previous,
        !written_at(replies, 0) && d.device is Some ==> post.device->0.allow_experimental
            == mirrored,
{
}

/// A setting counts by its writes where they are made, all of them for a speed,
/// the one for a brightness, the effect for a logo state; it is put off where a
/// laptop is there but its slot is not in force, or its lighting is off; without
/// a laptop it is neither, so that it cannot succeed.
pub proof fn a_setting_is_put_off_where_it_is_not_written(
    d: DeviceManager,
    cmd: DaemonCommand,
    ac: int,
    post: DeviceManager,
    h: Handling,
)
    requires
        daemon::handles(d, cmd, post, h),
        match cmd {
            DaemonCommand::SetFanSpeed { ac: a, rpm } => a == ac && a < 2 && (rpm == 0 || (
            d.device matches Some(l) && l.fan@[0] <= rpm <= l.fan@[1])),
            DaemonCommand::SetBrightness { ac: a, .. } => a == ac && a < 2,
            DaemonCommand::SetLogoLedState { ac: a, logo_state } => a == ac && a < 2 && logo_state
                <= 2,
            _ => false,
        },
    ensures
        h matches Handling::Operate {
            step: Step::Perform { actions, task: Task::Stored { save, deferred, counted } },
            ..
        } && {
            let first: int = if d.config is Some { 1 } else { 0 };
            &&& save == (d.config is Some)
            &&& counted matches Some(s) ==> {
                &&& s.from == first
                &&& cmd is SetFanSpeed ==> s.to == actions@.len() && s.to >= first + 2
                &&& cmd is SetBrightness && effects::lit(d, ac) ==> s.to == first + 1
                &&& cmd is SetLogoLedState && effects::lit(d, ac) ==> s.to == first + 1
            }
            &&& d.device is None ==> !deferred && counted is None
            &&& d.device matches Some(l) ==> {
                &&& l.ac_state != ac ==> deferred && counted is None
                &&& l.ac_state == ac && cmd is SetFanSpeed ==> !deferred && counted is Some
                &&& effects::lit(d, ac) ==> !deferred && counted is Some
                &&& (d.config matches Some(c) && !c.static_lighting) && !(cmd is SetFanSpeed)
                    ==> deferred && counted is None
            }
        },
{
}

} // verus!
