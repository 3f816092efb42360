//! The attached laptop: what it is, what the daemon last told it, and the
//! commands that each change of it takes.

use vstd::prelude::*;

use crate::command::{EcCommand, CPU_ZONE, GPU_ZONE, standard_effect_report};
use crate::config::PowerConfig;
use crate::fan::clamp_fan_to_range;
use crate::packet::RazerPacket;
use crate::profile::bho_to_byte;
use crate::text::same_text;

verus! {

/// An attached laptop.
pub struct RazerLaptop {
    pub name: String,
    /// Features of the model.
    pub features: Vec<String>,
    /// Lowest and highest fan speed of the model in RPM.
    pub fan: Vec<u16>,
    /// USB product id of the model.
    pub pid: u16,
    /// Performance profile last written.
    pub power: u8,
    /// Fan speed last written in hundreds of RPM, 0 for automatic.
    pub fan_rpm: u8,
    /// Slot of the configuration in force: 1 plugged in, 0 on battery.
    pub ac_state: u8,
    /// Transaction id of the last report written, 0 before the first.
    pub transaction_id: u8,
    /// Mirror of the experimental unlock in the configuration.
    pub allow_experimental: bool,
    /// Mirror of the lighting master switch in the configuration.
    pub static_lighting: bool,
    /// Command classes and ids that the EC has refused as unsupported.
    pub unsupported_cmds: Vec<(u8, u8)>,
}

/// Whether `name` is among `features`.
pub open spec fn lists(features: Seq<String>, name: Seq<char>) -> bool {
    exists|i: int| 0 <= i < features.len() && (#[trigger] features[i])@ == name
}

/// Whether `name` is among `features`.
pub fn list_has(features: &Vec<String>, name: &str) -> (r: bool)
    ensures
        r == lists(features@, name@),
{
    let mut i: usize = 0;
    while i < features.len()
        invariant
            i <= features@.len(),
            forall|j: int| 0 <= j < i ==> (#[trigger] features@[j])@ != name@,
        decreases features@.len() - i,
    {
        if same_text(features[i].as_str(), name) {
            assert(features@[i as int]@ == name@);
            return true;
        }
        i = i + 1;
    }
    false
}

impl RazerLaptop {
    /// Model data is complete and the mirrors are in range.
    pub open spec fn wf(self) -> bool {
        &&& self.fan@.len() >= 2
        &&& self.ac_state <= 1
        &&& self.transaction_id <= 30
    }

    /// The model ships the Turbo profile.
    pub open spec fn has_turbo(self) -> bool {
        lists(self.features@, "turbo_stock"@)
    }

    /// The model ships the Max boost tier.
    pub open spec fn has_max_tier(self) -> bool {
        lists(self.features@, "max_tier_stock"@)
    }

    /// The model has a battery health optimizer.
    pub open spec fn has_bho(self) -> bool {
        lists(self.features@, "bho"@)
    }

    /// Turbo is neither stock here nor unlocked.
    pub open spec fn refuses(self, mode: u8) -> bool {
        mode == 7 && !(self.allow_experimental || self.has_turbo())
    }

    /// The tier that a boost write carries: Max falls to High where it is
    /// neither stock nor unlocked.
    pub open spec fn capped(self, tier: u8) -> u8 {
        if tier == 3 && !(self.allow_experimental || self.has_max_tier()) {
            2
        } else {
            tier
        }
    }

    /// Manual flag of a profile write: manual once a speed was written.
    pub open spec fn manual_flag(self) -> u8 {
        if self.fan_rpm == 0 {
            0
        } else {
            1
        }
    }

    /// Fan speed byte that `rpm` comes to on this model.
    pub open spec fn speed(self, rpm: u16) -> u8 {
        ((crate::fan::into_range(rpm, self.fan@[0], self.fan@[1]) / 100) % 256) as u8
    }

    /// Mode of both fan zones under the current profile.
    pub open spec fn zone_writes(self, manual: u8) -> Seq<EcCommand> {
        seq![
            EcCommand::ZoneMode { zone: CPU_ZONE, mode: self.power, manual },
            EcCommand::ZoneMode { zone: GPU_ZONE, mode: self.power, manual },
        ]
    }

    /// The mirrors after a profile change; a refused one changes nothing.
    pub open spec fn after_power(self, mode: u8) -> RazerLaptop {
        if self.refuses(mode) {
            self
        } else {
            RazerLaptop {
                power: mode,
                fan_rpm: if mode == 4 {
                    0
                } else {
                    self.fan_rpm
                },
                ..self
            }
        }
    }

    /// The writes of a profile change: both zones, and for Custom the CPU and
    /// then the GPU boost. A refused one writes nothing.
    pub open spec fn power_writes(self, mode: u8, cpu: u8, gpu: u8) -> Seq<EcCommand> {
        let after = self.after_power(mode);
        if self.refuses(mode) {
            seq![]
        } else if mode == 4 {
            after.zone_writes(after.manual_flag()) + seq![
                EcCommand::Boost { zone: CPU_ZONE, tier: self.capped(cpu) },
                EcCommand::Boost { zone: GPU_ZONE, tier: self.capped(gpu) },
            ]
        } else {
            after.zone_writes(after.manual_flag())
        }
    }

    /// The mirrors after a fan speed change.
    pub open spec fn after_speed(self, rpm: u16) -> RazerLaptop {
        RazerLaptop {
            fan_rpm: if rpm == 0 {
                0
            } else {
                self.speed(rpm)
            },
            ..self
        }
    }

    /// Speed of both fan zones as mirrored.
    pub open spec fn speed_writes(self) -> Seq<EcCommand> {
        seq![
            EcCommand::ZoneSpeed { zone: CPU_ZONE, hundreds: self.fan_rpm },
            EcCommand::ZoneSpeed { zone: GPU_ZONE, hundreds: self.fan_rpm },
        ]
    }

    /// The writes of a fan speed change: automatic for 0, else manual mode and
    /// the speed on both zones.
    pub open spec fn fan_writes(self, rpm: u16) -> Seq<EcCommand> {
        if rpm == 0 {
            self.zone_writes(0)
        } else {
            self.zone_writes(1) + self.after_speed(rpm).speed_writes()
        }
    }

    /// The mirrors after the fan curve drove both zones.
    pub open spec fn after_drive(self, rpm: u16) -> RazerLaptop {
        RazerLaptop { fan_rpm: self.speed(rpm), ..self }
    }

    /// The writes by which the fan curve drives both zones, with the manual
    /// mode in front when it has to be latched.
    pub open spec fn drive_writes(self, latch: bool, rpm: u16) -> Seq<EcCommand> {
        (if latch {
            self.zone_writes(1)
        } else {
            seq![]
        }) + self.after_drive(rpm).speed_writes()
    }

    /// The brightness write, absent while lighting is switched off.
    pub open spec fn brightness_writes(self, value: u8) -> Seq<EcCommand> {
        if self.static_lighting {
            seq![EcCommand::Brightness { value }]
        } else {
            seq![]
        }
    }

    /// The logo writes, effect first, absent while lighting is switched off.
    pub open spec fn logo_writes(self, mode: u8) -> Seq<EcCommand> {
        if self.static_lighting {
            seq![
                EcCommand::LogoEffect {
                    effect: if mode == 2 {
                        2
                    } else {
                        0
                    },
                },
                EcCommand::LogoState {
                    state: if mode > 1 {
                        1
                    } else {
                        mode
                    },
                },
            ]
        } else {
            seq![]
        }
    }

    /// The lighting part of applying a stored slot.
    pub open spec fn light_writes(self, slot: PowerConfig, lighting: bool) -> Seq<EcCommand> {
        if lighting {
            self.brightness_writes(slot.brightness) + self.logo_writes(slot.logo_state)
        } else {
            seq![]
        }
    }

    /// A stored fan speed is restored when no curve owns the fans and the
    /// value is representable.
    pub open spec fn restores_fan(slot: PowerConfig) -> bool {
        !slot.fan_curve.enabled && 0 <= slot.fan_rpm <= 65535
    }

    /// The mirrors after a stored slot was applied.
    pub open spec fn after_config(self, slot: PowerConfig) -> RazerLaptop {
        let powered = self.after_power(slot.power_mode);
        if RazerLaptop::restores_fan(slot) {
            powered.after_speed(slot.fan_rpm as u16)
        } else {
            powered
        }
    }

    /// The fan part of applying a stored slot, after its profile.
    pub open spec fn restore_writes(self, slot: PowerConfig) -> Seq<EcCommand> {
        if RazerLaptop::restores_fan(slot) {
            self.after_power(slot.power_mode).fan_writes(slot.fan_rpm as u16)
        } else {
            seq![]
        }
    }

    /// A laptop as it is when it was just opened.
    pub fn new(name: String, features: Vec<String>, fan: Vec<u16>, pid: u16) -> (r: RazerLaptop)
        ensures
            r.name == name,
            r.features == features,
            r.fan == fan,
            r.pid == pid,
            r.power == 0,
            r.fan_rpm == 0,
            r.ac_state == 0,
            r.transaction_id == 0,
            !r.allow_experimental,
            r.static_lighting,
            r.unsupported_cmds@.len() == 0,
    {
        RazerLaptop {
            name,
            features,
            fan,
            pid,
            power: 0,
            fan_rpm: 0,
            ac_state: 0,
            transaction_id: 0,
            allow_experimental: false,
            static_lighting: true,
            unsupported_cmds: Vec::new(),
        }
    }

    /// Records whether the adapter is online; returns the slot in force.
    pub fn set_ac_state(&mut self, online: bool) -> (slot: usize)
        ensures
            *final(self) == (RazerLaptop { ac_state: online as u8, ..*old(self) }),
            slot == online as usize,
    {
        if online {
            self.ac_state = 1;
        } else {
            self.ac_state = 0;
        }
        self.ac_state as usize
    }

    /// The slot of the configuration in force.
    pub fn get_ac_state(&self) -> (slot: usize)
        ensures
            slot == self.ac_state,
    {
        self.ac_state as usize
    }

    pub fn get_pid(&self) -> (pid: u16)
        ensures
            pid == self.pid,
    {
        self.pid
    }

    pub fn get_name(&self) -> (name: String)
        ensures
            name@ == self.name@,
    {
        self.name.clone()
    }

    /// Whether the model has the feature `fch`.
    pub fn have_feature(&self, fch: String) -> (r: bool)
        ensures
            r == lists(self.features@, fch@),
    {
        list_has(&self.features, fch.as_str())
    }

    pub fn turbo_is_stock(&self) -> (r: bool)
        ensures
            r == self.has_turbo(),
    {
        list_has(&self.features, "turbo_stock")
    }

    pub fn max_tier_is_stock(&self) -> (r: bool)
        ensures
            r == self.has_max_tier(),
    {
        list_has(&self.features, "max_tier_stock")
    }

    fn clamp_fan(&self, rpm: u16) -> (r: u8)
        requires
            self.wf(),
        ensures
            r == self.speed(rpm),
    {
        clamp_fan_to_range(rpm, self.fan[0], self.fan[1])
    }

    /// `r` is the report of a standard effect, absent while lighting is switched
    /// off.
    pub open spec fn shows_effect(
        self,
        effect_id: u8,
        params: Seq<u8>,
        r: Option<RazerPacket>,
    ) -> bool {
        &&& r is Some <==> self.static_lighting
        &&& r matches Some(p) ==> ({
            let kept = if params.len() < 79 { params.len() as int } else { 79 };
            &&& crate::command::fresh(p, 0x03, 0x0a, (1 + kept) as u8)
            &&& p.args@ == crate::command::padded(seq![effect_id] + params.take(kept))
        })
    }

    /// The effect report to send, `None` while lighting is switched off. The
    /// EC renders this effect one command behind, so it is sent twice: the
    /// second time once the first was confirmed.
    pub fn set_standard_effect(&self, effect_id: u8, params: &Vec<u8>) -> (r: Option<RazerPacket>)
        ensures
            self.shows_effect(effect_id, params@, r),
    {
        if !self.static_lighting {
            return None;
        }
        Some(standard_effect_report(effect_id, params))
    }

    /// The profile write of one zone.
    pub fn set_power(&self, zone: u8) -> (c: EcCommand)
        ensures
            c == (EcCommand::ZoneMode { zone, mode: self.power, manual: self.manual_flag() }),
    {
        let manual: u8 = match self.fan_rpm {
            0 => 0x00,
            _ => 0x01,
        };
        EcCommand::ZoneMode { zone, mode: self.power, manual }
    }

    /// The fan mode write of one zone. The EC keys the fan mode to the profile
    /// slot, so it carries the current profile.
    fn set_zone_fan_state(&self, zone: u8, manual: u8) -> (c: EcCommand)
        ensures
            c == (EcCommand::ZoneMode { zone, mode: self.power, manual }),
    {
        EcCommand::ZoneMode { zone, mode: self.power, manual }
    }

    fn cap_boost(&self, boost: u8) -> (r: u8)
        ensures
            r == self.capped(boost),
    {
        if boost == 3 && !(self.allow_experimental || self.max_tier_is_stock()) {
            2
        } else {
            boost
        }
    }

    fn set_cpu_boost(&self, boost: u8) -> (c: EcCommand)
        ensures
            c == (EcCommand::Boost { zone: CPU_ZONE, tier: self.capped(boost) }),
    {
        EcCommand::Boost { zone: CPU_ZONE, tier: self.cap_boost(boost) }
    }

    fn set_gpu_boost(&self, boost: u8) -> (c: EcCommand)
        ensures
            c == (EcCommand::Boost { zone: GPU_ZONE, tier: self.capped(boost) }),
    {
        EcCommand::Boost { zone: GPU_ZONE, tier: self.cap_boost(boost) }
    }

    /// Changes the profile: the writes to make, all of which are to be made
    /// and confirmed, or `None` when Turbo is refused on this model.
    pub fn set_power_mode(&mut self, mode: u8, cpu_boost: u8, gpu_boost: u8) -> (r: Option<
        Vec<EcCommand>,
    >)
        ensures
            r is None <==> old(self).refuses(mode),
            *final(self) == old(self).after_power(mode),
            r matches Some(writes) ==> writes@ == old(self).power_writes(
                mode,
                cpu_boost,
                gpu_boost,
            ),
    {
        if mode == 7 && !(self.allow_experimental || self.turbo_is_stock()) {
            return None;
        }
        self.power = mode;
        let mut writes: Vec<EcCommand> = Vec::new();
        if mode == 4 {
            self.fan_rpm = 0;
        }
        writes.push(self.set_power(CPU_ZONE));
        writes.push(self.set_power(GPU_ZONE));
        if mode == 4 {
            writes.push(self.set_cpu_boost(cpu_boost));
            writes.push(self.set_gpu_boost(gpu_boost));
        }
        assert(writes@ =~= old(self).power_writes(mode, cpu_boost, gpu_boost));
        Some(writes)
    }

    fn set_rpm(&self, zone: u8) -> (c: EcCommand)
        ensures
            c == (EcCommand::ZoneSpeed { zone, hundreds: self.fan_rpm }),
    {
        EcCommand::ZoneSpeed { zone, hundreds: self.fan_rpm }
    }

    /// Changes the fan speed: 0 is automatic, else manual at `value` RPM
    /// within the model range. All writes are to be made and confirmed.
    pub fn set_fan_rpm(&mut self, value: u16) -> (writes: Vec<EcCommand>)
        requires
            old(self).wf(),
        ensures
            writes@ == old(self).fan_writes(value),
            *final(self) == old(self).after_speed(value),
    {
        let mut writes: Vec<EcCommand> = Vec::new();
        if value == 0 {
            self.fan_rpm = 0;
            writes.push(self.set_zone_fan_state(CPU_ZONE, 0x00));
            writes.push(self.set_zone_fan_state(GPU_ZONE, 0x00));
            assert(writes@ =~= old(self).fan_writes(value));
            return writes;
        }
        self.fan_rpm = self.clamp_fan(value);
        writes.push(self.set_zone_fan_state(CPU_ZONE, 0x01));
        writes.push(self.set_zone_fan_state(GPU_ZONE, 0x01));
        writes.push(self.set_rpm(CPU_ZONE));
        writes.push(self.set_rpm(GPU_ZONE));
        assert(writes@ =~= old(self).fan_writes(value));
        writes
    }

    /// Latches both fan zones into manual mode without setting a speed.
    pub fn set_fan_manual(&self) -> (writes: Vec<EcCommand>)
        ensures
            writes@ == self.zone_writes(1),
    {
        let mut writes: Vec<EcCommand> = Vec::new();
        writes.push(self.set_zone_fan_state(CPU_ZONE, 0x01));
        writes.push(self.set_zone_fan_state(GPU_ZONE, 0x01));
        assert(writes@ =~= self.zone_writes(1));
        writes
    }

    /// Sets the speed of one fan zone that is in manual mode.
    pub fn set_zone_rpm(&mut self, zone: u8, rpm: u16) -> (c: EcCommand)
        requires
            old(self).wf(),
        ensures
            *final(self) == old(self).after_drive(rpm),
            c == (EcCommand::ZoneSpeed { zone, hundreds: old(self).speed(rpm) }),
    {
        self.fan_rpm = self.clamp_fan(rpm);
        self.set_rpm(zone)
    }

    /// The writes by which the fan curve drives both zones.
    pub fn drive_fans(&mut self, latch: bool, rpm: u16) -> (writes: Vec<EcCommand>)
        requires
            old(self).wf(),
        ensures
            writes@ == old(self).drive_writes(latch, rpm),
            *final(self) == old(self).after_drive(rpm),
    {
        let mut writes: Vec<EcCommand> = if latch {
            self.set_fan_manual()
        } else {
            Vec::new()
        };
        writes.push(self.set_zone_rpm(CPU_ZONE, rpm));
        writes.push(self.set_zone_rpm(GPU_ZONE, rpm));
        assert(writes@ =~= old(self).drive_writes(latch, rpm));
        writes
    }

    /// The logo writes: the effect decides the result, the state write may be
    /// refused. None while lighting is switched off.
    pub fn set_logo_led_state(&self, mode: u8) -> (writes: Vec<EcCommand>)
        ensures
            writes@ == self.logo_writes(mode),
    {
        let mut writes: Vec<EcCommand> = Vec::new();
        if self.static_lighting {
            writes.push(
                EcCommand::LogoEffect {
                    effect: if mode == 2 {
                        0x02
                    } else {
                        0x00
                    },
                },
            );
            writes.push(
                EcCommand::LogoState {
                    state: if mode > 0x01 {
                        0x01
                    } else {
                        mode
                    },
                },
            );
        }
        assert(writes@ =~= self.logo_writes(mode));
        writes
    }

    /// The brightness write, none while lighting is switched off.
    pub fn set_brightness(&self, brightness: u8) -> (writes: Vec<EcCommand>)
        ensures
            writes@ == self.brightness_writes(brightness),
    {
        let mut writes: Vec<EcCommand> = Vec::new();
        if self.static_lighting {
            writes.push(EcCommand::Brightness { value: brightness });
        }
        assert(writes@ =~= self.brightness_writes(brightness));
        writes
    }

    /// Applies a stored slot: lighting, profile, fan, in this order. Returns
    /// the three parts; the middle one is `None` when the profile is refused,
    /// and it alone decides whether the slot was applied.
    pub fn set_config(&mut self, config: &PowerConfig, lighting: bool) -> (r: (
        Vec<EcCommand>,
        Option<Vec<EcCommand>>,
        Vec<EcCommand>,
    ))
        requires
            old(self).wf(),
        ensures
            r.0@ == old(self).light_writes(*config, lighting),
            r.1 is None <==> old(self).refuses(config.power_mode),
            r.1 matches Some(writes) ==> writes@ == old(self).power_writes(
                config.power_mode,
                config.cpu_boost,
                config.gpu_boost,
            ),
            r.2@ == old(self).restore_writes(*config),
            *final(self) == old(self).after_config(*config),
    {
        let mut light: Vec<EcCommand> = Vec::new();
        if lighting {
            light = self.set_brightness(config.brightness);
            let mut logo = self.set_logo_led_state(config.logo_state);
            light.append(&mut logo);
        }
        let power = self.set_power_mode(config.power_mode, config.cpu_boost, config.gpu_boost);
        let mut fan: Vec<EcCommand> = Vec::new();
        if !config.fan_curve.enabled && 0 <= config.fan_rpm && config.fan_rpm <= 65535 {
            fan = self.set_fan_rpm(config.fan_rpm as u16);
        }
        (light, power, fan)
    }

    /// The charge limit write, `None` on a model without the optimizer. Once
    /// it was confirmed, the commit follows.
    pub fn set_bho(&self, is_on: bool, threshold: u8) -> (r: Option<EcCommand>)
        ensures
            r is Some <==> self.has_bho(),
            r matches Some(c) ==> c == (EcCommand::ChargeLimit {
                packed: crate::profile::packed_limit(is_on, threshold),
            }),
    {
        if !list_has(&self.features, "bho") {
            return None;
        }
        Some(EcCommand::ChargeLimit { packed: bho_to_byte(is_on, threshold) })
    }

    /// The charge limit read, `None` on a model without the optimizer.
    pub fn get_bho(&self) -> (r: Option<EcCommand>)
        ensures
            r == (if self.has_bho() {
                Some(EcCommand::ReadChargeLimit)
            } else {
                None
            }),
    {
        if !list_has(&self.features, "bho") {
            return None;
        }
        Some(EcCommand::ReadChargeLimit)
    }
}

/// An effect is sent under its number with its parameters behind it, as many as
/// there is room for, and zeros after them. While lighting is switched off no
/// effect is sent.
pub proof fn an_effect_carries_its_parameters(
    l: RazerLaptop,
    effect_id: u8,
    params: Seq<u8>,
    r: Option<RazerPacket>,
    i: int,
)
    requires
        l.shows_effect(effect_id, params, r),
        1 <= i < 80,
    ensures
        !l.static_lighting ==> r is None,
        l.static_lighting ==> (r matches Some(p) && {
            &&& p.command_class == 0x03 && p.command_id == 0x0a
            &&& params.len() < 79 ==> p.data_size == params.len() + 1
            &&& params.len() >= 79 ==> p.data_size == 80
            &&& p.args@[0] == effect_id
            &&& i <= params.len() ==> p.args@[i] == params[i - 1]
            &&& i > params.len() ==> p.args@[i] == 0
        }),
{
}

/// What is known of a laptop is what its list of features names.
pub proof fn features_are_what_is_listed(l: RazerLaptop, mode: u8, tier: u8)
    ensures
        l.refuses(mode) <==> mode == 7 && !l.allow_experimental && !lists(
            l.features@,
            "turbo_stock"@,
        ),
        tier != 3 ==> l.capped(tier) == tier,
        tier == 3 && (l.allow_experimental || lists(l.features@, "max_tier_stock"@)) ==> l.capped(
            tier,
        ) == 3,
        tier == 3 && !l.allow_experimental && !lists(l.features@, "max_tier_stock"@) ==> l.capped(
            tier,
        ) == 2,
        l.has_bho() <==> lists(l.features@, "bho"@),
{
}

} // verus!
