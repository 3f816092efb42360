//! Profiles: the application of a charger domain, power requests, the power
//! key.

use vstd::prelude::*;

use crate::charger::{desired_state, ChargerDomain};
use crate::command::EcCommand;
use crate::config::PowerConfig;
use crate::manager::DeviceManager;
use crate::manager::step;
use crate::manager::step::{
    all_confirmed, push_commands, saved_at, span_took, Action, AfterApply, Outcome, Reply, Span, Step, Task,
    Writes,
};
use crate::packet::RazerPacket;
use crate::profile::{advance, cycle_order, validate_power_request};

verus! {

/// How long after a successful press the next one advances the cycle, in
/// nanoseconds: three seconds.
pub const POWER_KEY_ADVANCE_WINDOW_NS: u64 = 3_000_000_000;

impl DeviceManager {
    /// The lighting writes of a domain, once the mirrors are in line.
    pub open spec fn domain_light(self, domain: ChargerDomain) -> Seq<EcCommand> {
        match (self.device, self.config) {
            (Some(d), Some(c)) => d.light_writes(c.power@[domain.slot()], c.static_lighting),
            _ => seq![],
        }
    }

    /// The profile writes of a domain, `None` when there are none to make.
    /// Under USB-PD Balanced is written whatever is stored.
    pub open spec fn domain_power(self, domain: ChargerDomain) -> Option<Seq<EcCommand>> {
        match self.device {
            None => None,
            Some(d) => if domain is Pd {
                Some(d.power_writes(0, 0, 0))
            } else {
                match self.stored(domain.slot()) {
                    None => None,
                    Some(s) => if d.refuses(s.power_mode) {
                        None
                    } else {
                        Some(d.power_writes(s.power_mode, s.cpu_boost, s.gpu_boost))
                    },
                }
            },
        }
    }

    /// The fan writes of a domain; none under USB-PD.
    pub open spec fn domain_fan(self, domain: ChargerDomain) -> Seq<EcCommand> {
        match (self.device, self.config) {
            (Some(d), Some(c)) => if domain is Pd {
                seq![]
            } else {
                d.restore_writes(c.power@[domain.slot()])
            },
            _ => seq![],
        }
    }

    /// The mirrors once the writes of a domain are planned.
    pub open spec fn domain_mirrors(self, domain: ChargerDomain) -> DeviceManager {
        DeviceManager {
            device: match self.device {
                None => None,
                Some(d) => Some(
                    if domain is Pd {
                        d.after_power(0)
                    } else {
                        match self.stored(domain.slot()) {
                            None => d,
                            Some(s) => d.after_config(s),
                        }
                    },
                ),
            },
            ..self
        }
    }

    /// The wire that a domain calls for.
    pub open spec fn domain_wire(self, domain: ChargerDomain) -> Option<u8> {
        if domain is Pd {
            Some(0)
        } else {
            match self.stored(domain.slot()) {
                None => None,
                Some(s) => Some(s.power_mode),
            }
        }
    }

    /// From `self`, whose mirrors are in line, the writes of `domain` lead to
    /// `post` in the round `actions`: lighting, profile, fan, and the fan curve
    /// latched again.
    pub open spec fn writes_domain(
        self,
        domain: ChargerDomain,
        post: DeviceManager,
        actions: Seq<Action>,
        writes: Writes,
    ) -> bool {
        let planned = self.domain_mirrors(domain);
        &&& post == planned.relatching()
        &&& step::laid_out(
            actions,
            seq![],
            self.domain_light(domain),
            self.domain_power(domain),
            self.domain_fan(domain),
            planned.relatch_writes(),
            writes,
        )
    }

    /// From `self`, applying `domain` leads to `post` and asks for `step`: the
    /// mirrors are brought in line, then the domain is written.
    pub open spec fn applies(
        self,
        domain: ChargerDomain,
        after: AfterApply,
        post: DeviceManager,
        step: Step,
    ) -> bool {
        step matches Step::Perform { actions, task } && task matches Task::Applied {
            domain: d,
            wire,
            writes,
            after: a,
        } && {
            &&& d == domain
            &&& wire == self.domain_wire(domain)
            &&& a == after
            &&& self.mirrored(!(domain is Battery)).writes_domain(
                domain,
                post,
                actions@,
                writes,
            )
        }
    }

    /// Plans to latch the fan curve again at the end of a round.
    pub(crate) fn reassert_fan_curve(&mut self, actions: &mut Vec<Action>) -> (span: Option<Span>)
        requires
            old(self).wf(),
        ensures
            *final(self) == old(self).relatching(),
            final(self).wf(),
            final(actions)@ == old(actions)@ + step::commands(
                step::listed(old(self).relatch_writes()),
            ),
            span == step::placed(
                old(actions)@.len(),
                old(self).relatch_writes(),
            ),
    {
        if let Some(laptop) = &mut self.device {
            let ac = laptop.get_ac_state();
            let enabled = match &self.config {
                Some(c) => c.power[ac].fan_curve.enabled,
                None => false,
            };
            if enabled {
                if let Some(rpm) = self.fan_curve_last_rpm {
                    let writes = laptop.drive_fans(true, rpm);
                    return Some(push_commands(actions, &writes));
                }
            }
        }
        assert(actions@ =~= actions@ + step::commands(seq![]));
        None
    }

    /// Plans the writes of a charger domain.
    pub(crate) fn write_domain(&mut self, domain: ChargerDomain) -> (r: (Vec<Action>, Writes))
        requires
            old(self).wf(),
        ensures
            final(self).wf(),
            old(self).writes_domain(domain, *final(self), r.0@, r.1),
    {
        let ghost m = *self;
        let mut actions: Vec<Action> = Vec::new();
        let mut power: Option<Span> = None;
        match domain {
            ChargerDomain::Pd => {
                if let Some(laptop) = &mut self.device {
                    if let Some(cfg) = &self.config {
                        if cfg.static_lighting {
                            let mut light = laptop.set_brightness(cfg.power[1].brightness);
                            let mut logo = laptop.set_logo_led_state(cfg.power[1].logo_state);
                            light.append(&mut logo);
                            push_commands(&mut actions, &light);
                        }
                    }
                    assert(actions@ =~= step::commands(m.domain_light(domain)));
                    if let Some(writes) = laptop.set_power_mode(0, 0, 0) {
                        power = Some(push_commands(&mut actions, &writes));
                    }
                }
            },
            ChargerDomain::Barrel | ChargerDomain::Battery => {
                if let Some(cfg) = &self.config {
                    let slot = &cfg.power[domain.config_index()];
                    if let Some(laptop) = &mut self.device {
                        let (light, writes, fan) = laptop.set_config(slot, cfg.static_lighting);
                        push_commands(&mut actions, &light);
                        assert(actions@ =~= step::commands(m.domain_light(domain)));
                        if let Some(w) = writes {
                            power = Some(push_commands(&mut actions, &w));
                        }
                        push_commands(&mut actions, &fan);
                    }
                }
            },
        }
        assert(self.device == m.domain_mirrors(domain).device);
        assert(actions@ =~= seq![] + step::commands(m.domain_light(domain)) + step::commands(
            step::listed(m.domain_power(domain)),
        ) + step::commands(m.domain_fan(domain)));
        let relatch = self.reassert_fan_curve(&mut actions);
        (actions, Writes { power, relatch })
    }

    /// Plans the application of a charger domain.
    pub(crate) fn plan_apply(&mut self, domain: ChargerDomain, after: AfterApply) -> (step: Step)
        requires
            old(self).wf(),
        ensures
            final(self).wf(),
            old(self).applies(domain, after, *final(self), step),
    {
        let plugged = match domain {
            ChargerDomain::Battery => false,
            _ => true,
        };
        let wire: Option<u8> = match domain {
            ChargerDomain::Pd => Some(0),
            _ => match &self.config {
                Some(cfg) => Some(cfg.power[domain.config_index()].power_mode),
                None => None,
            },
        };
        self.set_ac_mirror(plugged);
        let (actions, writes) = self.write_domain(domain);
        Step::Perform { actions, task: Task::Applied { domain, wire, writes, after } }
    }

    /// What the confirmation of the writes that latch the fan curve leaves:
    /// latched when all were confirmed, else to be done again from scratch.
    pub open spec fn relatched(self, writes: Writes, replies: Seq<Reply>) -> DeviceManager {
        match writes.relatch {
            None => self,
            Some(span) => if step::confirmed(replies, span) {
                DeviceManager { fan_curve_established: true, ..self }
            } else {
                DeviceManager {
                    fan_curve_established: false,
                    fan_curve_last_rpm: None,
                    ..self
                }
            },
        }
    }

    pub(crate) fn note_relatch(&mut self, writes: Writes, replies: &Vec<Reply>)
        ensures
            *final(self) == old(self).relatched(writes, replies@),
    {
        if let Some(span) = writes.relatch {
            let ok = all_confirmed(replies, span);
            self.fan_curve_established = ok;
            if !ok {
                self.fan_curve_last_rpm = None;
            }
        }
    }

    /// The books after `domain` was applied with `wire` confirmed. A change of
    /// domain ends the window of the power key.
    pub open spec fn domain_noted(self, domain: ChargerDomain, wire: u8) -> DeviceManager {
        DeviceManager {
            last_key_press: if self.active_domain == Some(domain) {
                self.last_key_press
            } else {
                None
            },
            active_domain: Some(domain),
            last_applied_wire: Some(wire),
            ..self
        }
    }

    /// The wire that an application confirmed: only a confirmed profile write
    /// may claim it.
    pub open spec fn applied_wire(
        wire: Option<u8>,
        writes: Writes,
        replies: Seq<Reply>,
    ) -> Option<u8> {
        if step::took(replies, writes.power) {
            wire
        } else {
            None
        }
    }

    /// From `self`, the replies to the application of `domain` lead to `post`
    /// and ask for `step`.
    pub open spec fn concludes_apply(
        self,
        domain: ChargerDomain,
        wire: Option<u8>,
        writes: Writes,
        after: AfterApply,
        replies: Seq<Reply>,
        post: DeviceManager,
        step: Step,
    ) -> bool {
        let fanned = self.relatched(writes, replies);
        let applied = DeviceManager::applied_wire(wire, writes, replies);
        let noted = match applied {
            Some(w) => fanned.domain_noted(domain, w),
            None => fanned,
        };
        match after {
            AfterApply::Report => post == noted && step == Step::Done(Outcome::Byte(applied)),
            AfterApply::Sync => post == noted && step == Step::Done(Outcome::Nothing),
            AfterApply::Key { now, cold } => match applied {
                Some(w) => {
                    &&& post == (DeviceManager { last_key_press: Some((now, domain)), ..noted })
                    &&& step == Step::Done(Outcome::Cycle(Some((w, domain, cold))))
                },
                None => post == noted && step == Step::Done(Outcome::Cycle(None)),
            },
            AfterApply::Write { ac, pwr, cpu, gpu, key } => match applied {
                Some(_) => noted.writes_power(ac as int, pwr, cpu, gpu, domain, key, post, step),
                None => post == noted && step == Step::Done(failed(key)),
            },
        }
    }

    pub(crate) fn conclude_apply(
        &mut self,
        domain: ChargerDomain,
        wire: Option<u8>,
        writes: Writes,
        after: AfterApply,
        replies: &Vec<Reply>,
    ) -> (step: Step)
        requires
            old(self).wf(),
        ensures
            final(self).wf(),
            old(self).concludes_apply(
                domain,
                wire,
                writes,
                after,
                replies@,
                *final(self),
                step,
            ),
    {
        self.note_relatch(writes, replies);
        let applied: Option<u8> = if span_took(replies, writes.power) {
            wire
        } else {
            None
        };
        if let Some(w) = applied {
            if self.active_domain != Some(domain) {
                self.last_key_press = None;
            }
            self.active_domain = Some(domain);
            self.last_applied_wire = Some(w);
        }
        match after {
            AfterApply::Report => Step::Done(Outcome::Byte(applied)),
            AfterApply::Sync => Step::Done(Outcome::Nothing),
            AfterApply::Key { now, cold } => match applied {
                Some(w) => {
                    self.last_key_press = Some((now, domain));
                    Step::Done(Outcome::Cycle(Some((w, domain, cold))))
                },
                None => Step::Done(Outcome::Cycle(None)),
            },
            AfterApply::Write { ac, pwr, cpu, gpu, key } => match applied {
                Some(_) => self.write_power(ac, pwr, cpu, gpu, domain, key),
                None => Step::Done(fail(key)),
            },
        }
    }

    /// Slot `ac` with a power request stored in it. Boost tiers are part of
    /// Custom: any other profile keeps those that are stored.
    pub open spec fn requested_slot(slot: PowerConfig, pwr: u8, cpu: u8, gpu: u8) -> PowerConfig {
        PowerConfig {
            power_mode: pwr,
            cpu_boost: if pwr == 4 {
                cpu
            } else {
                slot.cpu_boost
            },
            gpu_boost: if pwr == 4 {
                gpu
            } else {
                slot.gpu_boost
            },
            ..slot
        }
    }

    /// The configuration with a power request stored in slot `ac`.
    pub open spec fn storing_power(self, ac: int, pwr: u8, cpu: u8, gpu: u8) -> DeviceManager {
        DeviceManager {
            fan_curve_established: false,
            config: match self.config {
                Some(c) => Some(
                    c.with_slot(ac, DeviceManager::requested_slot(c.power@[ac], pwr, cpu, gpu)),
                ),
                None => None,
            },
            ..self
        }
    }

    /// A power request for slot `ac` reaches the EC: the slot is in force, and
    /// under USB-PD the profile is Balanced.
    pub open spec fn reaches_ec(self, ac: int, pwr: u8, domain: ChargerDomain) -> bool {
        self.device matches Some(d) && d.ac_state == ac && !(domain is Pd && pwr != 0)
    }

    /// The profile writes of a power request, `None` when there are none.
    pub open spec fn request_writes(
        self,
        ac: int,
        pwr: u8,
        cpu: u8,
        gpu: u8,
        domain: ChargerDomain,
    ) -> Option<Seq<EcCommand>> {
        if self.reaches_ec(ac, pwr, domain) && !self.device->0.refuses(pwr) {
            Some(self.device->0.power_writes(pwr, cpu, gpu))
        } else {
            None
        }
    }

    /// The mirrors once those writes are planned.
    pub open spec fn request_mirrors(
        self,
        ac: int,
        pwr: u8,
        domain: ChargerDomain,
    ) -> DeviceManager {
        if self.reaches_ec(ac, pwr, domain) {
            DeviceManager { device: Some(self.device->0.after_power(pwr)), ..self }
        } else {
            self
        }
    }

    /// From `self`, a power request in a domain that is already applied leads
    /// to `post` and asks for `step`. A request that the matrix refuses leaves
    /// no trace. Any other is stored, then written when its slot is in force.
    pub open spec fn writes_power(
        self,
        ac: int,
        pwr: u8,
        cpu: u8,
        gpu: u8,
        domain: ChargerDomain,
        key: Option<u64>,
        post: DeviceManager,
        step: Step,
    ) -> bool {
        if crate::profile::refusal(self.pid(), ac, pwr, cpu, gpu, self.unlocked()) is Some {
            post == self && step == Step::Done(failed(key))
        } else {
            let m = self.storing_power(ac, pwr, cpu, gpu);
            let planned = m.request_mirrors(ac, pwr, domain);
            &&& post == planned.relatching()
            &&& step matches Step::Perform { actions, task } && task matches Task::Written {
                pwr: p,
                domain: d,
                save,
                deferred,
                writes,
                key: k,
            } && {
                &&& p == pwr && d == domain && k == key
                &&& save == self.config is Some
                &&& deferred == (self.device is Some && !m.reaches_ec(ac, pwr, domain))
                &&& step::laid_out(
                    actions@,
                    saves(save),
                    seq![],
                    m.request_writes(ac, pwr, cpu, gpu, domain),
                    seq![],
                    planned.relatch_writes(),
                    writes,
                )
            }
        }
    }

    fn write_power(
        &mut self,
        ac: usize,
        pwr: u8,
        cpu: u8,
        gpu: u8,
        domain: ChargerDomain,
        key: Option<u64>,
    ) -> (step: Step)
        requires
            old(self).wf(),
        ensures
            final(self).wf(),
            old(self).writes_power(
                ac as int,
                pwr,
                cpu,
                gpu,
                domain,
                key,
                *final(self),
                step,
            ),
    {
        let pid: u16 = match &self.device {
            Some(d) => d.get_pid(),
            None => 0,
        };
        let experimental = match &self.config {
            Some(c) => c.experimental_profiles,
            None => false,
        };
        if validate_power_request(pid, ac, pwr, cpu, gpu, experimental).is_err() {
            return Step::Done(fail(key));
        }
        self.fan_curve_established = false;
        let mut actions: Vec<Action> = Vec::new();
        let mut save = false;
        if let Some(config) = &mut self.config {
            let ghost before = *config;
            config.power[ac].power_mode = pwr;
            if pwr == 4 {
                config.power[ac].cpu_boost = cpu;
                config.power[ac].gpu_boost = gpu;
            }
            proof {
                let slot = DeviceManager::requested_slot(before.power@[ac as int], pwr, cpu, gpu);
                assert(config.power =~= before.with_slot(ac as int, slot).power);
            }
            actions.push(Action::Save);
            save = true;
        }
        assert(actions@ =~= saves(save));
        let ghost m = *self;
        assert(m == old(self).storing_power(ac as int, pwr, cpu, gpu));
        let mut deferred = false;
        let mut power: Option<Span> = None;
        if let Some(laptop) = &mut self.device {
            let state = laptop.get_ac_state();
            if state != ac {
                deferred = true;
            } else if domain == ChargerDomain::Pd && pwr != 0 {
                deferred = true;
            } else if let Some(writes) = laptop.set_power_mode(pwr, cpu, gpu) {
                power = Some(push_commands(&mut actions, &writes));
            }
        }
        let ghost planned = *self;
        assert(planned == m.request_mirrors(ac as int, pwr, domain));
        assert(actions@ =~= saves(save) + step::commands(seq![]) + step::commands(
            step::listed(m.request_writes(ac as int, pwr, cpu, gpu, domain)),
        ) + step::commands(seq![]));
        let relatch = self.reassert_fan_curve(&mut actions);
        Step::Perform {
            actions,
            task: Task::Written {
                pwr,
                domain,
                save,
                deferred,
                writes: Writes { power, relatch },
                key,
            },
        }
    }

    /// From `self`, the replies to a power request lead to `post` and end the
    /// operation. It succeeded when it was stored, and either deferred or
    /// confirmed by the EC.
    pub open spec fn concludes_write(
        self,
        pwr: u8,
        domain: ChargerDomain,
        save: bool,
        deferred: bool,
        writes: Writes,
        key: Option<u64>,
        replies: Seq<Reply>,
        post: DeviceManager,
        step: Step,
    ) -> bool {
        let live = !deferred && step::took(replies, writes.power);
        let fanned = self.relatched(writes, replies);
        let noted = if live {
            DeviceManager {
                last_applied_wire: Some(pwr),
                active_domain: Some(domain),
                ..fanned
            }
        } else {
            fanned
        };
        let ok = (deferred || live) && (save ==> step::saved(replies, 0));
        match key {
            None => post == noted && step == Step::Done(Outcome::Flag(ok)),
            Some(now) => if ok {
                &&& post == (DeviceManager { last_key_press: Some((now, domain)), ..noted })
                &&& step == Step::Done(Outcome::Cycle(Some((pwr, domain, false))))
            } else {
                post == noted && step == Step::Done(Outcome::Cycle(None))
            },
        }
    }

    pub(crate) fn conclude_write(
        &mut self,
        pwr: u8,
        domain: ChargerDomain,
        save: bool,
        deferred: bool,
        writes: Writes,
        key: Option<u64>,
        replies: &Vec<Reply>,
    ) -> (step: Step)
        requires
            old(self).wf(),
        ensures
            final(self).wf(),
            old(self).concludes_write(
                pwr,
                domain,
                save,
                deferred,
                writes,
                key,
                replies@,
                *final(self),
                step,
            ),
    {
        let mut res = deferred;
        if !deferred && span_took(replies, writes.power) {
            res = true;
            self.last_applied_wire = Some(pwr);
            self.active_domain = Some(domain);
        }
        self.note_relatch(writes, replies);
        let ok = res && (!save || saved_at(replies, 0));
        match key {
            None => Step::Done(Outcome::Flag(ok)),
            Some(now) => {
                if ok {
                    self.last_key_press = Some((now, domain));
                    Step::Done(Outcome::Cycle(Some((pwr, domain, false))))
                } else {
                    Step::Done(Outcome::Cycle(None))
                }
            },
        }
    }

    /// From `self`, a power request in a freshly resolved domain leads to
    /// `post` and asks for `step`: where the domain drifted it is applied
    /// first, and the request goes on from there.
    pub open spec fn writes_in_domain(
        self,
        ac: int,
        pwr: u8,
        cpu: u8,
        gpu: u8,
        domain: ChargerDomain,
        key: Option<u64>,
        post: DeviceManager,
        step: Step,
    ) -> bool {
        if self.active_domain == Some(domain) {
            self.writes_power(ac, pwr, cpu, gpu, domain, key, post, step)
        } else {
            self.applies(
                domain,
                AfterApply::Write { ac: ac as usize, pwr, cpu, gpu, key },
                post,
                step,
            )
        }
    }

    pub(crate) fn set_power_mode_in_domain(
        &mut self,
        ac: usize,
        pwr: u8,
        cpu: u8,
        gpu: u8,
        domain: ChargerDomain,
        key: Option<u64>,
    ) -> (step: Step)
        requires
            old(self).wf(),
        ensures
            final(self).wf(),
            old(self).writes_in_domain(
                ac as int,
                pwr,
                cpu,
                gpu,
                domain,
                key,
                *final(self),
                step,
            ),
    {
        if self.active_domain != Some(domain) {
            return self.plan_apply(domain, AfterApply::Write { ac, pwr, cpu, gpu, key });
        }
        self.write_power(ac, pwr, cpu, gpu, domain, key)
    }

    /// The domain that a fresh read of the adapter class resolves to. Without
    /// one it is battery when the adapter was last seen offline, else USB-PD,
    /// the smallest surface.
    pub open spec fn resolved(self, class: Option<RazerPacket>) -> ChargerDomain {
        match class {
            Some(p) => ChargerDomain::of_class(p.args@[0]),
            None => match self.device {
                Some(d) if d.ac_state != 1 => ChargerDomain::Battery,
                _ => ChargerDomain::Pd,
            },
        }
    }

    pub(crate) fn resolve_domain(&self, class: Option<RazerPacket>) -> (domain: ChargerDomain)
        ensures
            domain == self.resolved(class),
    {
        if let Some(p) = class {
            return ChargerDomain::from_actp(p.args[0]);
        }
        let plugged = match &self.device {
            Some(d) => d.get_ac_state() == 1,
            None => true,
        };
        if plugged {
            ChargerDomain::Pd
        } else {
            ChargerDomain::Battery
        }
    }

    /// From `self`, a power request leads to `post` and asks for `step`: the
    /// adapter class is read first.
    pub open spec fn starts_power(
        self,
        ac: usize,
        pwr: u8,
        cpu: u8,
        gpu: u8,
        post: DeviceManager,
        step: Step,
    ) -> bool {
        match self.device {
            Some(_) => post == self && step::asks(
                step,
                seq![Action::Command(EcCommand::ReadCharger)],
                Task::ResolveWrite { ac, pwr, cpu, gpu },
            ),
            None => self.writes_in_domain(
                ac as int,
                pwr,
                cpu,
                gpu,
                self.resolved(None),
                None,
                post,
                step,
            ),
        }
    }

    /// Asks for profile `pwr` in slot `ac`, with boost tiers for Custom.
    pub fn set_power_mode(&mut self, ac: usize, pwr: u8, cpu: u8, gpu: u8) -> (step: Step)
        requires
            old(self).wf(),
        ensures
            final(self).wf(),
            old(self).starts_power(ac, pwr, cpu, gpu, *final(self), step),
    {
        if self.device.is_none() {
            let domain = self.resolve_domain(None);
            return self.set_power_mode_in_domain(ac, pwr, cpu, gpu, domain, None);
        }
        ask_class(Task::ResolveWrite { ac, pwr, cpu, gpu })
    }

    /// Applies the profile that a charger domain calls for.
    pub fn apply_charger_domain(&mut self, domain: ChargerDomain) -> (step: Step)
        requires
            old(self).wf(),
        ensures
            final(self).wf(),
            old(self).applies(domain, AfterApply::Report, *final(self), step),
    {
        self.plan_apply(domain, AfterApply::Report)
    }

    /// A press of the power key asks for `step`: the adapter class and the
    /// time are read first.
    pub open spec fn starts_press(self, step: Step) -> bool {
        step::asks(
            step,
            if self.device is Some {
                seq![Action::Command(EcCommand::ReadCharger), Action::ReadClock]
            } else {
                seq![Action::ReadClock]
            },
            Task::ResolveCycle { read: self.device is Some },
        )
    }

    /// A press of the power key.
    pub fn cycle_power_key(&self) -> (step: Step)
        ensures
            self.starts_press(step),
    {
        let mut actions: Vec<Action> = Vec::new();
        let read = self.device.is_some();
        if read {
            actions.push(Action::Command(EcCommand::ReadCharger));
        }
        actions.push(Action::ReadClock);
        assert(read ==> actions@ =~= seq![
            Action::Command(EcCommand::ReadCharger),
            Action::ReadClock,
        ]);
        assert(!read ==> actions@ =~= seq![Action::ReadClock]);
        Step::Perform { actions, task: Task::ResolveCycle { read } }
    }

    /// A press at `now` in `domain` is warm: it follows a successful press in
    /// the same domain within the window.
    pub open spec fn warm(self, domain: ChargerDomain, now: u64) -> bool {
        self.last_key_press matches Some((t, d)) && d == domain && now - t
            <= POWER_KEY_ADVANCE_WINDOW_NS
    }

    /// The profile that a warm press advances to.
    pub open spec fn next_profile(self, domain: ChargerDomain) -> u8 {
        let turbo = self.device matches Some(d) && d.has_turbo();
        crate::profile::advanced(
            crate::profile::cycle(turbo, domain.slot() == 1, self.unlocked()),
            self.last_applied_wire,
        )
    }

    /// The power request that a press at `now` in `domain` stands for: profile
    /// and boost tiers. A cold press asks for none, nor does one under USB-PD.
    pub open spec fn asked_by_press(self, domain: ChargerDomain, now: u64) -> Option<(u8, u8, u8)> {
        if !self.warm(domain, now) || domain is Pd {
            None
        } else {
            let slot = self.stored(domain.slot());
            Some(
                (
                    self.next_profile(domain),
                    match slot {
                        Some(s) => s.cpu_boost,
                        None => 0,
                    },
                    match slot {
                        Some(s) => s.gpu_boost,
                        None => 0,
                    },
                ),
            )
        }
    }

    fn is_warm(&self, domain: ChargerDomain, now: u64) -> (r: bool)
        ensures
            r == self.warm(domain, now),
    {
        match self.last_key_press {
            Some((t, d)) => d == domain && (now < t || now - t <= POWER_KEY_ADVANCE_WINDOW_NS),
            None => false,
        }
    }

    pub(crate) fn request_of_press(&self, domain: ChargerDomain, now: u64) -> (r: Option<
        (u8, u8, u8),
    >)
        requires
            self.wf(),
        ensures
            r == self.asked_by_press(domain, now),
    {
        if !self.is_warm(domain, now) || domain == ChargerDomain::Pd {
            return None;
        }
        let idx = domain.config_index();
        let turbo_stock = match &self.device {
            Some(d) => d.turbo_is_stock(),
            None => false,
        };
        let experimental = match &self.config {
            Some(c) => c.experimental_profiles,
            None => false,
        };
        let order = cycle_order(turbo_stock, idx == 1, experimental);
        let next = advance(&order, self.last_applied_wire);
        let (cpu, gpu): (u8, u8) = match &self.config {
            Some(c) => (c.power[idx].cpu_boost, c.power[idx].gpu_boost),
            None => (0, 0),
        };
        Some((next, cpu, gpu))
    }

    /// From `self`, a press of the power key at `now` in `domain` leads to
    /// `post` and asks for `step`. A cold press applies the profile of the
    /// domain; so does any press under USB-PD. A warm press asks for the next
    /// profile of the cycle, with the stored boost tiers.
    pub open spec fn presses(
        self,
        domain: ChargerDomain,
        now: u64,
        post: DeviceManager,
        step: Step,
    ) -> bool {
        match self.asked_by_press(domain, now) {
            None => self.applies(
                domain,
                AfterApply::Key { now, cold: !self.warm(domain, now) },
                post,
                step,
            ),
            Some((pwr, cpu, gpu)) => self.writes_in_domain(
                domain.slot(),
                pwr,
                cpu,
                gpu,
                domain,
                Some(now),
                post,
                step,
            ),
        }
    }

    pub(crate) fn press_power_key(&mut self, domain: ChargerDomain, now: u64) -> (step: Step)
        requires
            old(self).wf(),
        ensures
            final(self).wf(),
            old(self).presses(domain, now, *final(self), step),
    {
        match self.request_of_press(domain, now) {
            None => {
                let cold = !self.is_warm(domain, now);
                self.plan_apply(domain, AfterApply::Key { now, cold })
            },
            Some((pwr, cpu, gpu)) => {
                self.set_power_mode_in_domain(
                    domain.config_index(),
                    pwr,
                    cpu,
                    gpu,
                    domain,
                    Some(now),
                )
            },
        }
    }

    /// From `self`, applying the profile again in `domain` leads to `post` and
    /// asks for `step`. Nothing is stored.
    pub open spec fn reapplies(
        self,
        domain: ChargerDomain,
        post: DeviceManager,
        step: Step,
    ) -> bool {
        match (self.device, self.config) {
            (Some(d), Some(c)) => {
                let want = crate::charger::desired(c, domain);
                let (cpu, gpu) = match want.boosts {
                    Some(b) => b,
                    None => (0, 0),
                };
                let planned = DeviceManager { device: Some(d.after_power(want.wire)), ..self };
                &&& post == planned.relatching()
                &&& step matches Step::Perform { actions, task } && task
                    matches Task::Reapplied { domain: dd, wire, writes } && {
                    &&& dd == domain
                    &&& wire == want.wire
                    &&& step::laid_out(
                        actions@,
                        seq![],
                        seq![],
                        if d.refuses(want.wire) {
                            None
                        } else {
                            Some(d.power_writes(want.wire, cpu, gpu))
                        },
                        seq![],
                        planned.relatch_writes(),
                        writes,
                    )
                }
            },
            _ => post == self && step == Step::Done(Outcome::Flag(false)),
        }
    }

    /// From `self`, the wish to apply the profile again leads to `post` and asks
    /// for `step`.
    pub open spec fn starts_reapply(self, post: DeviceManager, step: Step) -> bool {
        &&& post == (DeviceManager { fan_curve_established: false, ..self })
        &&& match self.device {
            Some(_) => step::asks(
                step,
                seq![Action::Command(EcCommand::ReadCharger)],
                Task::ResolveReapply,
            ),
            None => step == Step::Done(Outcome::Flag(false)),
        }
    }

    /// Writes the stored profile to the EC again, without storing anything.
    /// The adapter class is read first.
    pub fn reapply_power_mode(&mut self) -> (step: Step)
        requires
            old(self).wf(),
        ensures
            final(self).wf(),
            old(self).starts_reapply(*final(self), step),
    {
        self.fan_curve_established = false;
        if self.device.is_none() {
            return Step::Done(Outcome::Flag(false));
        }
        ask_class(Task::ResolveReapply)
    }

    pub(crate) fn reapply_in_domain(&mut self, domain: ChargerDomain) -> (step: Step)
        requires
            old(self).wf(),
        ensures
            final(self).wf(),
            old(self).reapplies(domain, *final(self), step),
    {
        let mut actions: Vec<Action> = Vec::new();
        let mut power: Option<Span> = None;
        let wire: u8;
        if let Some(cfg) = &self.config {
            if let Some(laptop) = &mut self.device {
                let want = desired_state(cfg, domain);
                let (cpu, gpu): (u8, u8) = match want.boosts {
                    Some(b) => b,
                    None => (0, 0),
                };
                wire = want.wire;
                if let Some(writes) = laptop.set_power_mode(want.wire, cpu, gpu) {
                    power = Some(push_commands(&mut actions, &writes));
                }
            } else {
                return Step::Done(Outcome::Flag(false));
            }
        } else {
            return Step::Done(Outcome::Flag(false));
        }
        let ghost sent = actions@;
        assert(sent =~= Seq::<Action>::empty() + step::commands(seq![]) + sent + step::commands(
            seq![],
        ));
        let relatch = self.reassert_fan_curve(&mut actions);
        Step::Perform {
            actions,
            task: Task::Reapplied { domain, wire, writes: Writes { power, relatch } },
        }
    }

    /// The books after the replies to a re-application.
    pub open spec fn reapplied(
        self,
        domain: ChargerDomain,
        wire: u8,
        writes: Writes,
        replies: Seq<Reply>,
    ) -> DeviceManager {
        let fanned = self.relatched(writes, replies);
        if step::took(replies, writes.power) {
            DeviceManager {
                last_applied_wire: Some(wire),
                active_domain: Some(domain),
                ..fanned
            }
        } else {
            fanned
        }
    }

    pub(crate) fn conclude_reapply(
        &mut self,
        domain: ChargerDomain,
        wire: u8,
        writes: Writes,
        replies: &Vec<Reply>,
    ) -> (step: Step)
        requires
            old(self).wf(),
        ensures
            final(self).wf(),
            *final(self) == old(self).reapplied(domain, wire, writes, replies@),
            step == Step::Done(Outcome::Flag(step::took(replies@, writes.power))),
    {
        let result = span_took(replies, writes.power);
        if result {
            self.last_applied_wire = Some(wire);
            self.active_domain = Some(domain);
        }
        self.note_relatch(writes, replies);
        Step::Done(Outcome::Flag(result))
    }
}

/// What a power request that came to nothing reports.
pub open spec fn failed(key: Option<u64>) -> Outcome {
    match key {
        None => Outcome::Flag(false),
        Some(_) => Outcome::Cycle(None),
    }
}

fn fail(key: Option<u64>) -> (r: Outcome)
    ensures
        r == failed(key),
{
    match key {
        None => Outcome::Flag(false),
        Some(_) => Outcome::Cycle(None),
    }
}

/// The save that leads a round, where there is something to save.
pub open spec fn saves(save: bool) -> Seq<Action> {
    if save {
        seq![Action::Save]
    } else {
        seq![]
    }
}

/// A round that reads the adapter class.
pub(crate) fn ask_class(task: Task) -> (step: Step)
    ensures
        step::asks(step, seq![Action::Command(EcCommand::ReadCharger)], task),
{
    let mut actions: Vec<Action> = Vec::new();
    actions.push(Action::Command(EcCommand::ReadCharger));
    assert(actions@ =~= seq![Action::Command(EcCommand::ReadCharger)]);
    Step::Perform { actions, task }
}

} // verus!
