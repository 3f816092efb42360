//! What clients read: stored values, live values of the EC, the model.

use vstd::prelude::*;

use crate::command::{EcCommand, CPU_ZONE, GPU_ZONE};
use crate::manager::DeviceManager;
use crate::manager::charge::command_round;
use crate::manager::step;
use crate::manager::step::{Action, Outcome, Step, Task};
use crate::profile::effective_profiles;

verus! {

/// The highest boost tier that is offered.
pub open spec fn top_tier(max_stock: bool, experimental: bool) -> u8 {
    if experimental || max_stock {
        3
    } else {
        2
    }
}

impl DeviceManager {
    /// A live read: `command` where a laptop is attached, else `nothing`.
    pub open spec fn reads_live(
        self,
        command: EcCommand,
        task: Task,
        nothing: Outcome,
        step: Step,
    ) -> bool {
        if self.device is Some {
            step::asks(step, seq![Action::Command(command)], task)
        } else {
            step == Step::Done(nothing)
        }
    }

    fn read_live(&self, command: EcCommand, task: Task, nothing: Outcome) -> (step: Step)
        ensures
            self.reads_live(command, task, nothing, step),
    {
        if self.device.is_some() {
            command_round(command, task)
        } else {
            Step::Done(nothing)
        }
    }

    /// The effective surface of slot `ac`: the profiles, the highest boost
    /// tier, and the name of the model.
    pub fn get_capabilities(&self, ac: usize) -> (r: (Vec<u8>, u8, String))
        ensures
            ({
                let turbo = self.device matches Some(d) && d.has_turbo();
                let max = self.device matches Some(d) && d.has_max_tier();
                &&& r.0@ == crate::profile::surface(turbo, ac == 1, self.unlocked())
                &&& r.1 == top_tier(max, self.unlocked())
                &&& r.2@ == (match self.device {
                    Some(d) => d.name@,
                    None => "no device"@,
                })
            }),
    {
        let (turbo_stock, max_stock) = match &self.device {
            Some(d) => (d.turbo_is_stock(), d.max_tier_is_stock()),
            None => (false, false),
        };
        let model = match &self.device {
            Some(d) => d.get_name(),
            None => "no device".to_owned(),
        };
        let experimental = match &self.config {
            Some(c) => c.experimental_profiles,
            None => false,
        };
        let wires = effective_profiles(turbo_stock, ac == 1, experimental);
        let max_tier: u8 = if experimental || max_stock {
            3
        } else {
            2
        };
        (wires, max_tier, model)
    }

    /// Whether the experimental unlock is on.
    pub fn get_experimental_profiles(&self) -> (r: bool)
        ensures
            r == self.unlocked(),
    {
        match &self.config {
            Some(c) => c.experimental_profiles,
            None => false,
        }
    }

    /// Name of the attached laptop.
    pub fn get_device_name(&self) -> (name: String)
        ensures
            name@ == (match self.device {
                Some(d) => d.name@,
                None => "Unknown Device"@,
            }),
    {
        match &self.device {
            Some(d) => d.get_name(),
            None => "Unknown Device".to_owned(),
        }
    }

    /// The stored logo state of slot `ac`.
    pub fn get_logo_led_state(&self, ac: usize) -> (r: u8)
        requires
            ac < 2 || self.config is None,
        ensures
            r == (match self.stored(ac as int) {
                Some(s) => s.logo_state,
                None => 0,
            }),
    {
        match &self.config {
            Some(c) => c.power[ac].logo_state,
            None => 0,
        }
    }

    /// The stored brightness of slot `ac` in percent.
    pub fn get_brightness(&self, ac: usize) -> (r: u8)
        requires
            ac < 2 || self.config is None,
        ensures
            r == (match self.stored(ac as int) {
                Some(s) => crate::manager::light::percent_of(s.brightness),
                None => 0,
            }),
    {
        match &self.config {
            Some(c) => {
                let val: u32 = c.power[ac].brightness as u32;
                let mut perc: u32 = val * 100 * 100 / 255;
                perc = perc + 50;
                perc = perc / 100;
                perc as u8
            },
            None => 0,
        }
    }

    /// The stored fan speed of slot `ac`.
    pub fn get_fan_rpm(&self, ac: usize) -> (r: i32)
        requires
            ac < 2 || self.config is None,
        ensures
            r == (match self.stored(ac as int) {
                Some(s) => s.fan_rpm,
                None => 0,
            }),
    {
        match &self.config {
            Some(c) => c.power[ac].fan_rpm,
            None => 0,
        }
    }

    /// The stored profile of slot `ac`.
    pub fn get_power_mode(&self, ac: usize) -> (r: u8)
        requires
            ac < 2 || self.config is None,
        ensures
            r == (match self.stored(ac as int) {
                Some(s) => s.power_mode,
                None => 0,
            }),
    {
        match &self.config {
            Some(c) => c.power[ac].power_mode,
            None => 0,
        }
    }

    /// The stored CPU boost tier of slot `ac`.
    pub fn get_cpu_boost(&self, ac: usize) -> (r: u8)
        requires
            ac < 2 || self.config is None,
        ensures
            r == (match self.stored(ac as int) {
                Some(s) => s.cpu_boost,
                None => 0,
            }),
    {
        match &self.config {
            Some(c) => c.power[ac].cpu_boost,
            None => 0,
        }
    }

    /// The stored GPU boost tier of slot `ac`.
    pub fn get_gpu_boost(&self, ac: usize) -> (r: u8)
        requires
            ac < 2 || self.config is None,
        ensures
            r == (match self.stored(ac as int) {
                Some(s) => s.gpu_boost,
                None => 0,
            }),
    {
        match &self.config {
            Some(c) => c.power[ac].gpu_boost,
            None => 0,
        }
    }

    /// What should hold right now. The adapter class is read first.
    pub fn desired_state_wire(&self) -> (step: Step)
        ensures
            self.reads_live(
                EcCommand::ReadCharger,
                Task::ResolveDesired,
                Outcome::Desired(None),
                step,
            ),
    {
        self.read_live(EcCommand::ReadCharger, Task::ResolveDesired, Outcome::Desired(None))
    }

    /// Profile and fan state that the EC holds for a zone.
    pub fn ec_power_zone(&self, zone: u8) -> (step: Step)
        ensures
            self.reads_live(
                EcCommand::ReadZone { zone },
                Task::ZoneRead,
                Outcome::Zone(None),
                step,
            ),
    {
        self.read_live(EcCommand::ReadZone { zone }, Task::ZoneRead, Outcome::Zone(None))
    }

    /// Boost tier that the EC holds.
    pub fn ec_boost(&self, gpu: bool) -> (step: Step)
        ensures
            self.reads_live(
                EcCommand::ReadBoost {
                    zone: if gpu {
                        GPU_ZONE
                    } else {
                        CPU_ZONE
                    },
                },
                Task::BoostRead,
                Outcome::Byte(None),
                step,
            ),
    {
        let zone: u8 = if gpu {
            GPU_ZONE
        } else {
            CPU_ZONE
        };
        self.read_live(EcCommand::ReadBoost { zone }, Task::BoostRead, Outcome::Byte(None))
    }

    /// Brightness that the EC holds.
    pub fn ec_brightness(&self) -> (step: Step)
        ensures
            self.reads_live(
                EcCommand::ReadBrightness,
                Task::BrightnessRead,
                Outcome::Byte(None),
                step,
            ),
    {
        self.read_live(EcCommand::ReadBrightness, Task::BrightnessRead, Outcome::Byte(None))
    }

    /// Reading the charge limit asks for `step`; there is none on a model
    /// without the optimizer.
    pub open spec fn reads_limit(self, step: Step) -> bool {
        if self.optimizes() {
            step::asks(
                step,
                seq![Action::Command(EcCommand::ReadChargeLimit)],
                Task::LimitRead,
            )
        } else {
            step == Step::Done(Outcome::Limit(None))
        }
    }

    /// Charge limit that the EC holds.
    pub fn ec_bho(&self) -> (step: Step)
        ensures
            self.reads_limit(step),
    {
        if let Some(laptop) = &self.device {
            if let Some(read) = laptop.get_bho() {
                return command_round(read, Task::LimitRead);
            }
        }
        Step::Done(Outcome::Limit(None))
    }

    /// Fan speed of a zone by its tachometer.
    pub fn ec_fan_tach(&self, zone: u8) -> (step: Step)
        ensures
            self.reads_live(
                EcCommand::ReadTach { zone },
                Task::SpeedRead,
                Outcome::Speed(None),
                step,
            ),
    {
        self.read_live(EcCommand::ReadTach { zone }, Task::SpeedRead, Outcome::Speed(None))
    }

    /// Fan setpoint that the EC holds for a zone.
    pub fn ec_fan_setpoint(&self, zone: u8) -> (step: Step)
        ensures
            self.reads_live(
                EcCommand::ReadSetpoint { zone },
                Task::SpeedRead,
                Outcome::Speed(None),
                step,
            ),
    {
        self.read_live(EcCommand::ReadSetpoint { zone }, Task::SpeedRead, Outcome::Speed(None))
    }

    /// Adapter class that the EC reports, as it is.
    pub fn read_charger_domain_raw(&self) -> (step: Step)
        ensures
            self.reads_live(EcCommand::ReadCharger, Task::ClassRead, Outcome::Byte(None), step),
    {
        self.read_live(EcCommand::ReadCharger, Task::ClassRead, Outcome::Byte(None))
    }

    /// Charger domain of the adapter class that the EC reports.
    pub fn read_charger_domain(&self) -> (step: Step)
        ensures
            self.reads_live(
                EcCommand::ReadCharger,
                Task::DomainRead,
                Outcome::Domain(None),
                step,
            ),
    {
        self.read_live(EcCommand::ReadCharger, Task::DomainRead, Outcome::Domain(None))
    }

    /// Fan speed of the CPU zone by its tachometer, -1 without an answer.
    pub fn get_actual_fan_rpm(&self) -> (step: Step)
        ensures
            self.reads_live(
                EcCommand::ReadTach { zone: CPU_ZONE },
                Task::TachRead,
                Outcome::Number((-1) as i32),
                step,
            ),
    {
        self.read_live(EcCommand::ReadTach { zone: CPU_ZONE }, Task::TachRead, Outcome::Number(-1))
    }
}

} // verus!
