//! Lighting: the static colour, brightness, the logo, and the master switch.

use vstd::prelude::*;

use crate::command::EcCommand;
use crate::config::{Configuration, PowerConfig};
use crate::laptop::RazerLaptop;
use crate::manager::DeviceManager;
use crate::manager::power;
use crate::manager::step;
use crate::manager::step::{push_commands, saved_at, Action, Outcome, Reply, Span, Step, Task};

verus! {

/// The EC value of a brightness in percent; more than 100 counts as 100.
pub open spec fn level_of(percent: u8) -> u8 {
    ((if percent > 100 {
        100int
    } else {
        percent as int
    }) * 255 / 100) as u8
}

/// The brightness in percent of an EC value, rounded.
pub open spec fn percent_of(level: u8) -> u8 {
    ((level as int * 10000 / 255 + 50) / 100) as u8
}

/// A brightness that was set is read back.
pub proof fn brightness_round_trip(percent: u8)
    requires
        percent <= 100,
    ensures
        percent_of(level_of(percent)) == percent,
{
}

impl DeviceManager {
    /// The stored colour, green while there is no configuration.
    pub open spec fn color(self) -> Seq<u8> {
        match self.config {
            Some(c) => c.static_color@,
            None => crate::config::green(),
        }
    }

    /// The command that writes `rgb`.
    pub open spec fn color_write(rgb: Seq<u8>) -> Action {
        Action::Command(
            EcCommand::StaticColor { red: rgb[0], green: rgb[1], blue: rgb[2] },
        )
    }

    pub fn get_static_color(&self) -> (rgb: [u8; 3])
        ensures
            rgb@ == self.color(),
    {
        match &self.config {
            Some(c) => c.static_color,
            None => crate::config::default_static_color(),
        }
    }

    /// Turning the lighting off asks for `step`.
    pub open spec fn darkens(self, step: Step) -> bool {
        match self.device {
            Some(d) if self.lighting() => step::asks(
                step,
                step::commands(d.brightness_writes(0) + d.logo_writes(0)),
                Task::Ignore,
            ),
            _ => step == Step::Done(Outcome::Nothing),
        }
    }

    /// Turns the lighting off, as before a sleep.
    pub fn light_off(&self) -> (step: Step)
        ensures
            self.darkens(step),
    {
        if !self.get_static_lighting() {
            return Step::Done(Outcome::Nothing);
        }
        match &self.device {
            Some(laptop) => light_round(laptop, 0, 0),
            None => Step::Done(Outcome::Nothing),
        }
    }

    /// Turning the lighting on again asks for `step`.
    pub open spec fn relights(self, step: Step) -> bool {
        match self.device {
            Some(d) if self.lighting() => {
                let slot = self.stored(d.ac_state as int);
                let (brightness, logo) = match slot {
                    Some(s) => (s.brightness, s.logo_state),
                    None => (0, 0),
                };
                step::asks(
                    step,
                    step::commands(d.brightness_writes(brightness) + d.logo_writes(logo)),
                    Task::Ignore,
                )
            },
            _ => step == Step::Done(Outcome::Nothing),
        }
    }

    /// Turns the lighting on again as the slot in force has it stored.
    pub fn restore_light(&self) -> (step: Step)
        requires
            self.wf(),
        ensures
            self.relights(step),
    {
        if !self.get_static_lighting() {
            return Step::Done(Outcome::Nothing);
        }
        match &self.device {
            Some(laptop) => {
                let ac = laptop.get_ac_state();
                let (brightness, logo): (u8, u8) = match &self.config {
                    Some(c) => (c.power[ac].brightness, c.power[ac].logo_state),
                    None => (0, 0),
                };
                light_round(laptop, brightness, logo)
            },
            None => Step::Done(Outcome::Nothing),
        }
    }

    /// The configuration with another colour.
    pub open spec fn storing_color(self, rgb: [u8; 3]) -> DeviceManager {
        DeviceManager {
            config: match self.config {
                Some(c) => Some(Configuration { static_color: rgb, ..c }),
                None => None,
            },
            ..self
        }
    }

    /// From `self`, a colour leads to `post` and asks for `step`. The colour
    /// stays stored when the EC refuses it. While the laptop has lighting
    /// switched off it is only stored.
    pub open spec fn starts_color(self, rgb: [u8; 3], post: DeviceManager, step: Step) -> bool {
        let save = self.config is Some;
        &&& post == self.storing_color(rgb)
        &&& match self.device {
            Some(d) if d.static_lighting => step::asks(
                step,
                power::saves(save).push(DeviceManager::color_write(rgb@)),
                Task::ColorSent { red: rgb@[0], green: rgb@[1], blue: rgb@[2], save },
            ),
            device => step::asks(
                step,
                power::saves(save),
                Task::Stored { save, deferred: device is Some, counted: None },
            ),
        }
    }

    /// Stores a colour and writes it.
    pub fn set_static_color(&mut self, rgb: [u8; 3]) -> (step: Step)
        requires
            old(self).wf(),
        ensures
            final(self).wf(),
            old(self).starts_color(rgb, *final(self), step),
    {
        let mut actions: Vec<Action> = Vec::new();
        let mut save = false;
        if let Some(config) = &mut self.config {
            config.static_color = rgb;
            actions.push(Action::Save);
            save = true;
        }
        assert(actions@ =~= power::saves(save));
        let mut deferred = false;
        if let Some(laptop) = &self.device {
            if laptop.static_lighting {
                let (red, green, blue): (u8, u8, u8) = (rgb[0], rgb[1], rgb[2]);
                actions.push(Action::Command(EcCommand::StaticColor { red, green, blue }));
                return Step::Perform { actions, task: Task::ColorSent { red, green, blue, save } };
            }
            deferred = true;
        }
        Step::Perform { actions, task: Task::Stored { save, deferred, counted: None } }
    }

    /// Writing the stored colour again asks for `step`.
    pub open spec fn recolors(self, step: Step) -> bool {
        match self.device {
            Some(d) if self.lighting() && d.static_lighting => step::asks(
                step,
                seq![DeviceManager::color_write(self.color())],
                Task::ColorSent {
                    red: self.color()[0],
                    green: self.color()[1],
                    blue: self.color()[2],
                    save: false,
                },
            ),
            _ => step == Step::Done(Outcome::Flag(true)),
        }
    }

    /// Writes the stored colour. There is nothing to do while lighting is
    /// switched off or no laptop is attached.
    pub fn restore_static_color(&self) -> (step: Step)
        ensures
            self.recolors(step),
    {
        if !self.get_static_lighting() {
            return Step::Done(Outcome::Flag(true));
        }
        let rgb = self.get_static_color();
        if let Some(laptop) = &self.device {
            if laptop.static_lighting {
                let (red, green, blue): (u8, u8, u8) = (rgb[0], rgb[1], rgb[2]);
                return color_round(
                    red,
                    green,
                    blue,
                    Task::ColorSent { red, green, blue, save: false },
                );
            }
        }
        Step::Done(Outcome::Flag(true))
    }

    /// The configuration with the lighting master switch set.
    pub open spec fn with_gate(self, value: bool) -> DeviceManager {
        DeviceManager {
            config: match self.config {
                Some(c) => Some(Configuration { static_lighting: value, ..c }),
                None => None,
            },
            ..self
        }
    }

    /// The mirror of the lighting master switch set.
    pub open spec fn with_gate_mirror(self, value: bool) -> DeviceManager {
        DeviceManager {
            device: match self.device {
                Some(d) => Some(RazerLaptop { static_lighting: value, ..d }),
                None => None,
            },
            ..self
        }
    }

    /// From `self`, the lighting master switch leads to `post` and asks for
    /// `step`: it is stored first.
    pub open spec fn starts_gate(self, enabled: bool, post: DeviceManager, step: Step) -> bool {
        match self.config {
            None => post == self && step == Step::Done(Outcome::Flag(false)),
            Some(c) => if c.static_lighting == enabled {
                post == self && step == Step::Done(Outcome::Flag(true))
            } else {
                &&& post == self.with_gate(enabled)
                &&& step::asks(
                    step,
                    seq![Action::Save],
                    Task::LightingSaved { enabled, previous: c.static_lighting },
                )
            },
        }
    }

    /// Sets the lighting master switch. Once it is stored and switched on, the
    /// colour is written. When either fails the switch is put back, so that
    /// `false` means that nothing changed.
    pub fn set_static_lighting(&mut self, enabled: bool) -> (step: Step)
        requires
            old(self).wf(),
        ensures
            final(self).wf(),
            old(self).starts_gate(enabled, *final(self), step),
    {
        match &mut self.config {
            None => Step::Done(Outcome::Flag(false)),
            Some(cfg) => {
                let previous = cfg.static_lighting;
                if previous == enabled {
                    return Step::Done(Outcome::Flag(true));
                }
                cfg.static_lighting = enabled;
                save_round(Task::LightingSaved { enabled, previous })
            },
        }
    }

    /// From `self`, the switch stored or not leads to `post` and asks for
    /// `step`.
    pub open spec fn concludes_gate(
        self,
        enabled: bool,
        previous: bool,
        replies: Seq<Reply>,
        post: DeviceManager,
        step: Step,
    ) -> bool {
        if !step::saved(replies, 0) {
            post == self.with_gate(previous) && step == Step::Done(Outcome::Flag(false))
        } else {
            &&& post == self.with_gate_mirror(enabled)
            &&& if enabled && self.device is Some && self.lighting() {
                step::asks(
                    step,
                    seq![DeviceManager::color_write(self.color())],
                    Task::LightingColor {
                        red: self.color()[0],
                        green: self.color()[1],
                        blue: self.color()[2],
                        previous,
                    },
                )
            } else {
                step == Step::Done(Outcome::Flag(true))
            }
        }
    }

    pub(crate) fn conclude_gate(
        &mut self,
        enabled: bool,
        previous: bool,
        replies: &Vec<Reply>,
    ) -> (step: Step)
        requires
            old(self).wf(),
        ensures
            final(self).wf(),
            old(self).concludes_gate(enabled, previous, replies@, *final(self), step),
    {
        if !saved_at(replies, 0) {
            if let Some(cfg) = &mut self.config {
                cfg.static_lighting = previous;
            }
            return Step::Done(Outcome::Flag(false));
        }
        let rgb = self.get_static_color();
        let lighting = self.get_static_lighting();
        if let Some(dev) = &mut self.device {
            dev.static_lighting = enabled;
            if enabled && lighting {
                let (red, green, blue): (u8, u8, u8) = (rgb[0], rgb[1], rgb[2]);
                return color_round(
                    red,
                    green,
                    blue,
                    Task::LightingColor { red, green, blue, previous },
                );
            }
        }
        Step::Done(Outcome::Flag(true))
    }

    /// The switch put back: mirror, configuration, and file.
    pub open spec fn reverts_gate(self, previous: bool, post: DeviceManager, step: Step) -> bool {
        &&& post == self.with_gate_mirror(previous).with_gate(previous)
        &&& if self.config is Some {
            step::asks(step, seq![Action::Save], Task::LightingReverted { previous })
        } else {
            step == Step::Done(Outcome::Flag(false))
        }
    }

    pub(crate) fn revert_gate(&mut self, previous: bool) -> (step: Step)
        requires
            old(self).wf(),
        ensures
            final(self).wf(),
            old(self).reverts_gate(previous, *final(self), step),
    {
        if let Some(dev) = &mut self.device {
            dev.static_lighting = previous;
        }
        match &mut self.config {
            Some(cfg) => {
                cfg.static_lighting = previous;
                save_round(Task::LightingReverted { previous })
            },
            None => Step::Done(Outcome::Flag(false)),
        }
    }

    /// What a lighting value for slot `ac` writes: nothing while lighting is
    /// switched off or another slot is in force.
    pub open spec fn lights_up(self, ac: int) -> bool {
        self.device matches Some(d) && self.lighting() && d.ac_state == ac
    }

    /// The configuration with slot `ac` replaced.
    pub open spec fn with_stored(self, ac: int, slot: PowerConfig) -> DeviceManager {
        DeviceManager { config: Some(self.config->0.with_slot(ac, slot)), ..self }
    }

    /// From `self`, a logo state for slot `ac` leads to `post` and asks for
    /// `step`. The effect decides; the state write may be refused by the EC.
    pub open spec fn starts_logo(
        self,
        ac: int,
        logo_state: u8,
        post: DeviceManager,
        step: Step,
    ) -> bool {
        let save = self.config is Some;
        let lit = self.lights_up(ac);
        let writes = if lit {
            self.device->0.logo_writes(logo_state)
        } else {
            seq![]
        };
        let effect = if writes.len() > 0 {
            seq![writes[0]]
        } else {
            seq![]
        };
        if logo_state > 2 {
            post == self && step == Step::Done(Outcome::Flag(false))
        } else {
            &&& post == (match self.stored(ac) {
                Some(s) => self.with_stored(ac, PowerConfig { logo_state, ..s }),
                None => self,
            })
            &&& step::asks(
                step,
                power::saves(save) + step::commands(writes),
                Task::Stored {
                    save,
                    deferred: self.device is Some && !lit,
                    counted: if lit {
                        step::placed(power::saves(save).len(), Some(effect))
                    } else {
                        None
                    },
                },
            )
        }
    }

    /// Stores the logo state of slot `ac` and writes it.
    pub fn set_logo_led_state(&mut self, ac: usize, logo_state: u8) -> (step: Step)
        requires
            old(self).wf(),
            ac < 2 || old(self).config is None || logo_state > 2,
        ensures
            final(self).wf(),
            old(self).starts_logo(ac as int, logo_state, *final(self), step),
    {
        if logo_state > 2 {
            return Step::Done(Outcome::Flag(false));
        }
        let mut actions: Vec<Action> = Vec::new();
        let mut save = false;
        if let Some(config) = &mut self.config {
            let ghost before = *config;
            config.power[ac].logo_state = logo_state;
            assert(config.power =~= before.with_slot(
                ac as int,
                PowerConfig { logo_state, ..before.power@[ac as int] },
            ).power);
            actions.push(Action::Save);
            save = true;
        }
        assert(actions@ =~= power::saves(save));
        let lighting = self.get_static_lighting();
        let mut deferred = false;
        let mut counted: Option<Span> = None;
        if let Some(laptop) = &self.device {
            let state = laptop.get_ac_state();
            if !lighting || state != ac {
                deferred = true;
            } else {
                let writes = laptop.set_logo_led_state(logo_state);
                let span = push_commands(&mut actions, &writes);
                counted = Some(
                    Span {
                        from: span.from,
                        to: if span.to > span.from {
                            span.from + 1
                        } else {
                            span.from
                        },
                    },
                );
            }
        }
        assert(counted is None ==> actions@ =~= power::saves(save) + step::commands(seq![]));
        Step::Perform { actions, task: Task::Stored { save, deferred, counted } }
    }

    /// From `self`, a brightness for slot `ac` leads to `post` and asks for
    /// `step`.
    pub open spec fn starts_brightness(
        self,
        ac: int,
        brightness: u8,
        post: DeviceManager,
        step: Step,
    ) -> bool {
        let save = self.config is Some;
        let lit = self.lights_up(ac);
        let level = level_of(brightness);
        let writes = if lit {
            Some(self.device->0.brightness_writes(level))
        } else {
            None
        };
        &&& post == (match self.stored(ac) {
            Some(s) => self.with_stored(ac, PowerConfig { brightness: level, ..s }),
            None => self,
        })
        &&& step::asks(
            step,
            power::saves(save) + step::commands(step::listed(writes)),
            Task::Stored {
                save,
                deferred: self.device is Some && !lit,
                counted: step::placed(power::saves(save).len(), writes),
            },
        )
    }

    /// Stores the brightness of slot `ac`, given in percent, and writes it.
    pub fn set_brightness(&mut self, ac: usize, brightness: u8) -> (step: Step)
        requires
            old(self).wf(),
            ac < 2 || old(self).config is None,
        ensures
            final(self).wf(),
            old(self).starts_brightness(ac as int, brightness, *final(self), step),
    {
        let percent: u16 = if brightness > 100 {
            100
        } else {
            brightness as u16
        };
        let level: u8 = (percent * 255 / 100) as u8;
        let mut actions: Vec<Action> = Vec::new();
        let mut save = false;
        if let Some(config) = &mut self.config {
            let ghost before = *config;
            config.power[ac].brightness = level;
            assert(config.power =~= before.with_slot(
                ac as int,
                PowerConfig { brightness: level, ..before.power@[ac as int] },
            ).power);
            actions.push(Action::Save);
            save = true;
        }
        assert(actions@ =~= power::saves(save));
        let lighting = self.get_static_lighting();
        let mut deferred = false;
        let mut counted: Option<Span> = None;
        if let Some(laptop) = &self.device {
            let state = laptop.get_ac_state();
            if !lighting || state != ac {
                deferred = true;
            } else {
                let writes = laptop.set_brightness(level);
                counted = Some(push_commands(&mut actions, &writes));
            }
        }
        assert(counted is None ==> actions@ =~= power::saves(save) + step::commands(seq![]));
        Step::Perform { actions, task: Task::Stored { save, deferred, counted } }
    }

    /// The experimental unlock and its mirror on the laptop set.
    pub open spec fn with_unlock(self, value: bool, mirror: bool) -> DeviceManager {
        DeviceManager {
            config: match self.config {
                Some(c) => Some(Configuration { experimental_profiles: value, ..c }),
                None => None,
            },
            device: match self.device {
                Some(d) => Some(RazerLaptop { allow_experimental: mirror, ..d }),
                None => None,
            },
            ..self
        }
    }

    /// From `self`, the experimental unlock leads to `post` and asks for
    /// `step`.
    pub open spec fn starts_unlock(self, enabled: bool, post: DeviceManager, step: Step) -> bool {
        match self.config {
            None => post == self && step == Step::Done(Outcome::Flag(false)),
            Some(c) => {
                &&& post == self.with_unlock(enabled, enabled)
                &&& step::asks(
                    step,
                    seq![Action::Save],
                    Task::UnlockSaved {
                        previous: c.experimental_profiles,
                        mirrored: self.device matches Some(d) && d.allow_experimental,
                    },
                )
            },
        }
    }

    /// Sets the experimental unlock and its mirror.
    pub fn set_experimental_profiles(&mut self, enabled: bool) -> (step: Step)
        requires
            old(self).wf(),
        ensures
            final(self).wf(),
            old(self).starts_unlock(enabled, *final(self), step),
    {
        match &mut self.config {
            None => Step::Done(Outcome::Flag(false)),
            Some(cfg) => {
                let previous = cfg.experimental_profiles;
                let mut mirrored = false;
                cfg.experimental_profiles = enabled;
                if let Some(dev) = &mut self.device {
                    mirrored = dev.allow_experimental;
                    dev.allow_experimental = enabled;
                }
                save_round(Task::UnlockSaved { previous, mirrored })
            },
        }
    }

    /// From `self`, an unlock that was to be stored leads to `post` and asks
    /// for `step`: it is put back where it could not be stored.
    pub open spec fn concludes_unlock(
        self,
        previous: bool,
        mirrored: bool,
        replies: Seq<Reply>,
        post: DeviceManager,
        step: Step,
    ) -> bool {
        if step::saved(replies, 0) {
            post == self && step == Step::Done(Outcome::Flag(true))
        } else {
            &&& post == self.with_unlock(previous, mirrored)
            &&& step == Step::Done(Outcome::Flag(false))
        }
    }

    pub(crate) fn conclude_unlock(
        &mut self,
        previous: bool,
        mirrored: bool,
        replies: &Vec<Reply>,
    ) -> (step: Step)
        requires
            old(self).wf(),
        ensures
            final(self).wf(),
            old(self).concludes_unlock(previous, mirrored, replies@, *final(self), step),
    {
        if saved_at(replies, 0) {
            return Step::Done(Outcome::Flag(true));
        }
        if let Some(cfg) = &mut self.config {
            cfg.experimental_profiles = previous;
        }
        if let Some(dev) = &mut self.device {
            dev.allow_experimental = mirrored;
        }
        Step::Done(Outcome::Flag(false))
    }
}

/// A round that writes brightness and logo.
fn light_round(laptop: &RazerLaptop, brightness: u8, logo: u8) -> (step: Step)
    ensures
        step::asks(
            step,
            step::commands(laptop.brightness_writes(brightness) + laptop.logo_writes(logo)),
            Task::Ignore,
        ),
{
    let mut actions: Vec<Action> = Vec::new();
    let mut writes = laptop.set_brightness(brightness);
    let mut logo_writes = laptop.set_logo_led_state(logo);
    writes.append(&mut logo_writes);
    push_commands(&mut actions, &writes);
    assert(actions@ =~= step::commands(
        laptop.brightness_writes(brightness) + laptop.logo_writes(logo),
    ));
    Step::Perform { actions, task: Task::Ignore }
}

/// A round that writes a colour.
pub(crate) fn color_round(red: u8, green: u8, blue: u8, task: Task) -> (step: Step)
    ensures
        step::asks(
            step,
            seq![Action::Command(EcCommand::StaticColor { red, green, blue })],
            task,
        ),
{
    let mut actions: Vec<Action> = Vec::new();
    actions.push(Action::Command(EcCommand::StaticColor { red, green, blue }));
    assert(actions@ =~= seq![Action::Command(EcCommand::StaticColor { red, green, blue })]);
    Step::Perform { actions, task }
}

/// A round that saves the configuration.
pub(crate) fn save_round(task: Task) -> (step: Step)
    ensures
        step::asks(step, seq![Action::Save], task),
{
    let mut actions: Vec<Action> = Vec::new();
    actions.push(Action::Save);
    assert(actions@ =~= seq![Action::Save]);
    Step::Perform { actions, task }
}

} // verus!
