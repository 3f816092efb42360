//! The charger domain, and what should hold in it.

use vstd::prelude::*;

use crate::comms::{ChargerDomainWire, DesiredStateWire};
use crate::config::Configuration;

verus! {

/// The power domain that the daemon applies. Barrel takes the stored AC slot,
/// battery the stored battery slot; under USB-PD only Balanced holds.
#[derive(Debug, Clone, Copy, PartialEq, Eq, Structural)]
pub enum ChargerDomain {
    Barrel,
    Pd,
    Battery,
}

impl ChargerDomain {
    /// The slot of the configuration that the domain draws from.
    pub open spec fn slot(self) -> int {
        if self is Battery {
            0
        } else {
            1
        }
    }

    /// The domain of an adapter class: 0x11 is the barrel, 0x00 no adapter,
    /// anything else counts as USB-PD.
    pub open spec fn of_class(actp: u8) -> ChargerDomain {
        if actp == 0x11 {
            ChargerDomain::Barrel
        } else if actp == 0x00 {
            ChargerDomain::Battery
        } else {
            ChargerDomain::Pd
        }
    }

    /// The same domain as clients see it.
    pub open spec fn shown(self) -> ChargerDomainWire {
        match self {
            ChargerDomain::Barrel => ChargerDomainWire::Barrel,
            ChargerDomain::Pd => ChargerDomainWire::Pd,
            ChargerDomain::Battery => ChargerDomainWire::Battery,
        }
    }

    /// Classifies the adapter class that the EC reports.
    pub fn from_actp(actp: u8) -> (r: Self)
        ensures
            r == ChargerDomain::of_class(actp),
    {
        match actp {
            0x11 => ChargerDomain::Barrel,
            0x00 => ChargerDomain::Battery,
            _ => ChargerDomain::Pd,
        }
    }

    /// The slot of the configuration that the domain draws from.
    pub fn config_index(self) -> (i: usize)
        ensures
            i == self.slot(),
            i < 2,
    {
        match self {
            ChargerDomain::Barrel | ChargerDomain::Pd => 1,
            ChargerDomain::Battery => 0,
        }
    }

    pub fn to_wire(self) -> (r: ChargerDomainWire)
        ensures
            r == self.shown(),
    {
        match self {
            ChargerDomain::Barrel => ChargerDomainWire::Barrel,
            ChargerDomain::Pd => ChargerDomainWire::Pd,
            ChargerDomain::Battery => ChargerDomainWire::Battery,
        }
    }
}

/// Only the barrel class unlocks the AC surface, and only class 0 is battery.
pub proof fn barrel_is_exact(actp: u8)
    ensures
        ChargerDomain::of_class(actp) is Barrel <==> actp == 0x11,
        ChargerDomain::of_class(actp) is Battery <==> actp == 0x00,
{
}

/// What the fans should do. `Manual` carries the stored speed as it is.
#[derive(Debug, Clone, Copy, PartialEq, Eq, Structural)]
pub enum FanTarget {
    Auto,
    Manual(i32),
    Curve,
}

/// What should hold right now.
#[derive(Debug, Clone, Copy, PartialEq, Eq)]
pub struct DesiredState {
    pub wire: u8,
    /// Boost tiers, for Custom alone.
    pub boosts: Option<(u8, u8)>,
    pub brightness: u8,
    pub logo: u8,
    pub fan: FanTarget,
    /// Battery health optimizer: on, threshold.
    pub bho: (bool, u8),
}

/// What should hold in a domain: everything from its slot, but for USB-PD,
/// whose profile is Balanced. Boost tiers belong to Custom alone. A curve comes
/// before a manual speed, and that before automatic.
pub open spec fn desired(cfg: Configuration, domain: ChargerDomain) -> DesiredState {
    let slot = cfg.power@[domain.slot()];
    let wire = if domain is Pd {
        0
    } else {
        slot.power_mode
    };
    DesiredState {
        wire,
        boosts: if wire == 4 {
            Some((slot.cpu_boost, slot.gpu_boost))
        } else {
            None
        },
        brightness: slot.brightness,
        logo: slot.logo_state,
        fan: if slot.fan_curve.enabled {
            FanTarget::Curve
        } else if slot.fan_rpm == 0 {
            FanTarget::Auto
        } else {
            FanTarget::Manual(slot.fan_rpm)
        },
        bho: (cfg.bho_on, cfg.bho_threshold),
    }
}

/// What should hold in a domain.
pub fn desired_state(cfg: &Configuration, domain: ChargerDomain) -> (r: DesiredState)
    ensures
        r == desired(*cfg, domain),
{
    let slot = &cfg.power[domain.config_index()];
    let wire: u8 = match domain {
        ChargerDomain::Pd => 0,
        _ => slot.power_mode,
    };
    let boosts = if wire == 4 {
        Some((slot.cpu_boost, slot.gpu_boost))
    } else {
        None
    };
    let fan = if slot.fan_curve.enabled {
        FanTarget::Curve
    } else if slot.fan_rpm == 0 {
        FanTarget::Auto
    } else {
        FanTarget::Manual(slot.fan_rpm)
    };
    DesiredState {
        wire,
        boosts,
        brightness: slot.brightness,
        logo: slot.logo_state,
        fan,
        bho: (cfg.bho_on, cfg.bho_threshold),
    }
}

/// The desired state as clients see it.
pub open spec fn shown_state(
    cfg: Configuration,
    domain: ChargerDomain,
    lighting: bool,
) -> DesiredStateWire {
    let d = desired(cfg, domain);
    DesiredStateWire {
        domain: domain.shown(),
        wire: d.wire,
        boosts: d.boosts,
        brightness: d.brightness,
        logo: d.logo,
        fan_mode: match d.fan {
            FanTarget::Auto => 0,
            FanTarget::Manual(_) => 1,
            FanTarget::Curve => 2,
        },
        fan_rpm: match d.fan {
            FanTarget::Manual(rpm) => rpm,
            _ => 0,
        },
        bho_on: d.bho.0,
        bho_threshold: d.bho.1,
        lighting,
    }
}

/// The desired state as clients see it.
pub fn show_desired(cfg: &Configuration, domain: ChargerDomain, lighting: bool) -> (r:
    DesiredStateWire)
    ensures
        r == shown_state(*cfg, domain, lighting),
{
    let d = desired_state(cfg, domain);
    let (fan_mode, fan_rpm): (u8, i32) = match d.fan {
        FanTarget::Auto => (0, 0),
        FanTarget::Manual(rpm) => (1, rpm),
        FanTarget::Curve => (2, 0),
    };
    DesiredStateWire {
        domain: domain.to_wire(),
        wire: d.wire,
        boosts: d.boosts,
        brightness: d.brightness,
        logo: d.logo,
        fan_mode,
        fan_rpm,
        bho_on: d.bho.0,
        bho_threshold: d.bho.1,
        lighting,
    }
}

/// Under USB-PD Balanced is desired, without boost tiers, and brightness, logo
/// and fan are those of the barrel.
pub proof fn pd_borrows_all_but_the_profile(cfg: Configuration)
    ensures
        desired(cfg, ChargerDomain::Pd).wire == 0,
        desired(cfg, ChargerDomain::Pd).boosts is None,
        desired(cfg, ChargerDomain::Pd).brightness == desired(
            cfg,
            ChargerDomain::Barrel,
        ).brightness,
        desired(cfg, ChargerDomain::Pd).logo == desired(cfg, ChargerDomain::Barrel).logo,
        desired(cfg, ChargerDomain::Pd).fan == desired(cfg, ChargerDomain::Barrel).fan,
{
}

/// Boost tiers are desired exactly where Custom is, and the optimizer is the
/// same in every domain.
pub proof fn boosts_belong_to_custom(cfg: Configuration, domain: ChargerDomain)
    ensures
        desired(cfg, domain).boosts is Some <==> desired(cfg, domain).wire == 4,
        desired(cfg, domain).bho == (cfg.bho_on, cfg.bho_threshold),
{
}

} // verus!
