//! Fans: fixed speeds and the smart fan curve.

use vstd::prelude::*;

use crate::comms::{CurveTempSource, FanCurve};
use crate::config::PowerConfig;
use crate::fan::compute_curve_rpm;
use crate::manager::DeviceManager;
use crate::manager::light::save_round;
use crate::manager::power;
use crate::manager::step;
use crate::manager::step::{
    all_confirmed, push_commands, saved_at, Action, Outcome, Reply, Span, Step, Task,
};

verus! {

/// The slot with a fixed speed: the curve gives way to it.
pub open spec fn fixed_speed(slot: PowerConfig, rpm: i32) -> PowerConfig {
    PowerConfig {
        fan_rpm: rpm,
        fan_curve: FanCurve { enabled: false, ..slot.fan_curve },
        ..slot
    }
}

impl DeviceManager {
    /// A speed that may be set: 0 for automatic, else one within the range of
    /// the attached model.
    pub open spec fn speed_allowed(self, rpm: i32) -> bool {
        rpm == 0 || (self.device matches Some(d) && d.fan@[0] <= rpm <= d.fan@[1])
    }

    pub(crate) fn is_speed_allowed(&self, rpm: i32) -> (r: bool)
        requires
            self.wf(),
        ensures
            r == self.speed_allowed(rpm),
    {
        rpm == 0 || match &self.device {
            Some(d) => rpm >= d.fan[0] as i32 && rpm <= d.fan[1] as i32,
            None => false,
        }
    }

    /// The fan curve to be evaluated from scratch.
    pub open spec fn curve_dropped(self) -> DeviceManager {
        DeviceManager { fan_curve_established: false, fan_curve_last_rpm: None, ..self }
    }

    /// Slot `ac` replaced, where there is a configuration.
    pub open spec fn fixing_speed(self, ac: int, rpm: i32) -> DeviceManager {
        match self.stored(ac) {
            Some(s) => self.curve_dropped().with_stored(ac, fixed_speed(s, rpm)),
            None => self.curve_dropped(),
        }
    }

    /// From `self`, a fixed speed for slot `ac` leads to `post` and asks for
    /// `step`. A speed that is not allowed leaves no trace.
    pub open spec fn starts_speed(
        self,
        ac: int,
        rpm: i32,
        post: DeviceManager,
        step: Step,
    ) -> bool {
        let save = self.config is Some;
        let live = self.device matches Some(d) && d.ac_state == ac;
        let writes = if live {
            Some(self.device->0.fan_writes(rpm as u16))
        } else {
            None
        };
        if !self.speed_allowed(rpm) {
            post == self && step == Step::Done(Outcome::Flag(false))
        } else {
            &&& post == (DeviceManager {
                device: if live {
                    Some(self.device->0.after_speed(rpm as u16))
                } else {
                    self.device
                },
                ..self.fixing_speed(ac, rpm)
            })
            &&& step::asks(
                step,
                power::saves(save) + step::commands(step::listed(writes)),
                Task::Stored {
                    save,
                    deferred: self.device is Some && !live,
                    counted: step::placed(power::saves(save).len(), writes),
                },
            )
        }
    }

    /// Stores a fixed speed for slot `ac` and writes it when the slot is in
    /// force.
    pub fn set_fan_rpm(&mut self, ac: usize, rpm: i32) -> (step: Step)
        requires
            old(self).wf(),
            ac < 2 || old(self).config is None || !old(self).speed_allowed(rpm),
        ensures
            final(self).wf(),
            old(self).starts_speed(ac as int, rpm, *final(self), step),
    {
        if !self.is_speed_allowed(rpm) {
            return Step::Done(Outcome::Flag(false));
        }
        self.fan_curve_established = false;
        self.fan_curve_last_rpm = None;
        let mut actions: Vec<Action> = Vec::new();
        let mut save = false;
        if let Some(config) = &mut self.config {
            let ghost before = *config;
            config.power[ac].fan_rpm = rpm;
            config.power[ac].fan_curve.enabled = false;
            assert(config.power =~= before.with_slot(
                ac as int,
                fixed_speed(before.power@[ac as int], rpm),
            ).power);
            actions.push(Action::Save);
            save = true;
        }
        assert(actions@ =~= power::saves(save));
        let mut deferred = false;
        let mut counted: Option<Span> = None;
        if let Some(laptop) = &mut self.device {
            let state = laptop.get_ac_state();
            if state != ac {
                deferred = true;
            } else {
                let writes = laptop.set_fan_rpm(rpm as u16);
                counted = Some(push_commands(&mut actions, &writes));
            }
        }
        assert(counted is None ==> actions@ =~= power::saves(save) + step::commands(seq![]));
        Step::Perform { actions, task: Task::Stored { save, deferred, counted } }
    }

    /// The stored speed to which the fans go back when a curve is switched
    /// off for the slot in force.
    pub open spec fn handed_back(self, ac: int, curve: FanCurve) -> Option<i32> {
        match (self.device, self.stored(ac)) {
            (Some(d), Some(s)) => if !curve.enabled && d.ac_state == ac {
                Some(s.fan_rpm)
            } else {
                None
            },
            _ => None,
        }
    }

    /// From `self`, a fan curve for slot `ac` leads to `post` and asks for
    /// `step`: it is stored first.
    pub open spec fn starts_curve(
        self,
        ac: int,
        curve: FanCurve,
        post: DeviceManager,
        step: Step,
    ) -> bool {
        match self.stored(ac) {
            None => post == self.curve_dropped() && step == Step::Done(Outcome::Flag(false)),
            Some(s) => {
                &&& post == self.curve_dropped().with_stored(
                    ac,
                    PowerConfig { fan_curve: curve, ..s },
                )
                &&& step::asks(
                    step,
                    seq![Action::Save],
                    Task::CurveSaved { restore: self.handed_back(ac, curve) },
                )
            },
        }
    }

    /// Stores a fan curve for slot `ac`. Once it is stored, a curve that is
    /// off hands the fans back.
    pub fn set_fan_curve(&mut self, ac: usize, curve: FanCurve) -> (step: Step)
        requires
            old(self).wf(),
            ac < 2 || old(self).config is None,
        ensures
            final(self).wf(),
            old(self).starts_curve(ac as int, curve, *final(self), step),
    {
        self.fan_curve_established = false;
        self.fan_curve_last_rpm = None;
        let enabled = curve.enabled;
        match &mut self.config {
            None => Step::Done(Outcome::Flag(false)),
            Some(config) => {
                let ghost before = *config;
                let fan_rpm: i32 = config.power[ac].fan_rpm;
                config.power[ac].fan_curve = curve;
                assert(config.power =~= before.with_slot(
                    ac as int,
                    PowerConfig { fan_curve: curve, ..before.power@[ac as int] },
                ).power);
                let mut restore: Option<i32> = None;
                if let Some(laptop) = &self.device {
                    if !enabled && laptop.get_ac_state() == ac {
                        restore = Some(fan_rpm);
                    }
                }
                save_round(Task::CurveSaved { restore })
            },
        }
    }

    /// From `self`, a curve stored or not leads to `post` and asks for `step`.
    /// A speed that the EC cannot take is not restored.
    pub open spec fn concludes_curve(
        self,
        restore: Option<i32>,
        replies: Seq<Reply>,
        post: DeviceManager,
        step: Step,
    ) -> bool {
        if !step::saved(replies, 0) {
            post == self && step == Step::Done(Outcome::Flag(false))
        } else {
            match (restore, self.device) {
                (Some(rpm), Some(d)) if 0 <= rpm <= 65535 => {
                    &&& post == (DeviceManager { device: Some(d.after_speed(rpm as u16)), ..self })
                    &&& step::asks(
                        step,
                        step::commands(d.fan_writes(rpm as u16)),
                        Task::Stored { save: false, deferred: true, counted: None },
                    )
                },
                _ => post == self && step == Step::Done(Outcome::Flag(true)),
            }
        }
    }

    pub(crate) fn conclude_curve(&mut self, restore: Option<i32>, replies: &Vec<Reply>) -> (step:
        Step)
        requires
            old(self).wf(),
        ensures
            final(self).wf(),
            old(self).concludes_curve(restore, replies@, *final(self), step),
    {
        if !saved_at(replies, 0) {
            return Step::Done(Outcome::Flag(false));
        }
        if let Some(rpm) = restore {
            if 0 <= rpm && rpm <= 65535 {
                if let Some(laptop) = &mut self.device {
                    let mut actions: Vec<Action> = Vec::new();
                    let writes = laptop.set_fan_rpm(rpm as u16);
                    push_commands(&mut actions, &writes);
                    assert(actions@ =~= step::commands(writes@));
                    return Step::Perform {
                        actions,
                        task: Task::Stored { save: false, deferred: true, counted: None },
                    };
                }
            }
        }
        Step::Done(Outcome::Flag(true))
    }

    /// The stored fan curve of slot `ac`, a fresh one while there is no
    /// configuration.
    pub fn get_fan_curve(&self, ac: usize) -> (curve: FanCurve)
        requires
            ac < 2 || self.config is None,
        ensures
            curve@ == (match self.stored(ac as int) {
                Some(s) => s.fan_curve@,
                None => crate::comms::fresh_curve(),
            }),
    {
        match &self.config {
            Some(c) => c.power[ac].fan_curve.clone(),
            None => FanCurve::new(),
        }
    }

    /// The fan curve that owns the fans in the slot in force.
    pub open spec fn active_curve(self) -> Option<FanCurve> {
        match (self.device, self.config) {
            (Some(d), Some(c)) => if c.power@[d.ac_state as int].fan_curve.enabled {
                Some(c.power@[d.ac_state as int].fan_curve)
            } else {
                None
            },
            _ => None,
        }
    }

    /// What the active fan curve goes by, `None` without one.
    pub open spec fn active_source(self) -> Option<CurveTempSource> {
        match self.active_curve() {
            Some(curve) => Some(curve.source),
            None => None,
        }
    }

    /// Which temperatures the active fan curve needs, `None` without one.
    pub fn active_fan_curve_source(&self) -> (source: Option<CurveTempSource>)
        requires
            self.wf(),
        ensures
            source == self.active_source(),
    {
        if let Some(laptop) = &self.device {
            let ac = laptop.get_ac_state();
            if let Some(config) = &self.config {
                if config.power[ac].fan_curve.enabled {
                    return Some(config.power[ac].fan_curve.source);
                }
            }
        }
        None
    }

    /// From `self`, a tick of the fan curve leads to `post` and asks for
    /// `step`. A curve that is off is forgotten. Without a temperature the
    /// fans stay as they are, and so they do at the speed last written.
    pub open spec fn ticks(
        self,
        cpu: Option<i64>,
        gpu: Option<i64>,
        post: DeviceManager,
        step: Step,
    ) -> bool {
        match self.active_curve() {
            None => {
                &&& post == (if self.device is Some && self.config is Some {
                    self.curve_dropped()
                } else {
                    self
                })
                &&& step == Step::Done(Outcome::Nothing)
            },
            Some(curve) => match crate::fan::curve_target(curve, cpu, gpu) {
                None => post == self && step == Step::Done(Outcome::Nothing),
                Some(rpm) => if self.fan_curve_established && self.fan_curve_last_rpm == Some(
                    rpm,
                ) {
                    post == self && step == Step::Done(Outcome::Nothing)
                } else {
                    let d = self.device->0;
                    let writes = d.drive_writes(!self.fan_curve_established, rpm);
                    &&& post == (DeviceManager { device: Some(d.after_drive(rpm)), ..self })
                    &&& step::asks(
                        step,
                        step::commands(writes),
                        Task::CurveDriven {
                            rpm,
                            driven: Span { from: 0, to: writes.len() as usize },
                        },
                    )
                },
            },
        }
    }

    /// One turn of the fan curve: looks the temperatures up, in whole degrees
    /// rounded down, and drives both fan zones.
    pub fn fan_curve_tick(&mut self, cpu_temp: Option<i64>, gpu_temp: Option<i64>) -> (step: Step)
        requires
            old(self).wf(),
        ensures
            final(self).wf(),
            old(self).ticks(cpu_temp, gpu_temp, *final(self), step),
    {
        if let Some(laptop) = &mut self.device {
            let ac = laptop.get_ac_state();
            if let Some(config) = &self.config {
                let curve = &config.power[ac].fan_curve;
                if !curve.enabled {
                    self.fan_curve_established = false;
                    self.fan_curve_last_rpm = None;
                    return Step::Done(Outcome::Nothing);
                }
                if let Some(rpm) = compute_curve_rpm(curve, cpu_temp, gpu_temp) {
                    let need_establish = !self.fan_curve_established;
                    if !need_establish && self.fan_curve_last_rpm == Some(rpm) {
                        return Step::Done(Outcome::Nothing);
                    }
                    let mut actions: Vec<Action> = Vec::new();
                    let writes = laptop.drive_fans(need_establish, rpm);
                    let driven = push_commands(&mut actions, &writes);
                    assert(actions@ =~= step::commands(writes@));
                    return Step::Perform { actions, task: Task::CurveDriven { rpm, driven } };
                }
            }
        }
        Step::Done(Outcome::Nothing)
    }

    /// The fan curve once its writes are answered: latched at `rpm` when all
    /// were confirmed, else to be done again from scratch.
    pub open spec fn driven(self, rpm: u16, driven: Span, replies: Seq<Reply>) -> DeviceManager {
        if step::confirmed(replies, driven) {
            DeviceManager { fan_curve_established: true, fan_curve_last_rpm: Some(rpm), ..self }
        } else {
            self.curve_dropped()
        }
    }

    pub(crate) fn conclude_drive(&mut self, rpm: u16, driven: Span, replies: &Vec<Reply>) -> (step:
        Step)
        requires
            old(self).wf(),
        ensures
            final(self).wf(),
            *final(self) == old(self).driven(rpm, driven, replies@),
            step == Step::Done(Outcome::Nothing),
    {
        if all_confirmed(replies, driven) {
            self.fan_curve_established = true;
            self.fan_curve_last_rpm = Some(rpm);
        } else {
            self.fan_curve_established = false;
            self.fan_curve_last_rpm = None;
        }
        Step::Done(Outcome::Nothing)
    }
}

} // verus!
