//! The device manager: the one door through which the state of the laptop is
//! changed.

pub mod adapter;
pub mod charge;
pub mod effects;
pub mod fan;
pub mod journal;
pub mod laws;
pub mod light;
pub mod power;
pub mod profiles;
pub mod read;
pub mod requests;
pub mod resume;
pub mod step;
pub mod sync;

use vstd::prelude::*;

use crate::charger::ChargerDomain;
use crate::command::EcCommand;
use crate::config::{Configuration, PowerConfig};
use crate::device::SupportedDevice;
use crate::laptop::RazerLaptop;

verus! {

/// The attached laptop, the configuration, and what the daemon knows of what
/// it last did.
pub struct DeviceManager {
    pub device: Option<RazerLaptop>,
    pub supported_devices: Vec<SupportedDevice>,
    pub config: Option<Configuration>,
    /// The fan curve has the fans latched in manual mode.
    pub fan_curve_established: bool,
    /// The speed that the fan curve last wrote.
    pub fan_curve_last_rpm: Option<u16>,
    /// The charger domain of the last confirmed application.
    pub active_domain: Option<ChargerDomain>,
    /// The wire of the last confirmed application.
    pub last_applied_wire: Option<u8>,
    /// Time in nanoseconds and charger domain of the last successful press of
    /// the power key.
    pub last_key_press: Option<(u64, ChargerDomain)>,
}

impl DeviceManager {
    /// An attached laptop is well formed.
    pub open spec fn wf(self) -> bool {
        self.device matches Some(d) ==> d.wf()
    }

    /// The lighting master switch, on while there is no configuration.
    pub open spec fn lighting(self) -> bool {
        match self.config {
            Some(c) => c.static_lighting,
            None => true,
        }
    }

    /// The experimental unlock, off while there is no configuration.
    pub open spec fn unlocked(self) -> bool {
        self.config matches Some(c) && c.experimental_profiles
    }

    /// Product id of the laptop, 0 while there is none.
    pub open spec fn pid(self) -> u16 {
        match self.device {
            Some(d) => d.pid,
            None => 0,
        }
    }

    /// The stored slot `ac`, if there is a configuration.
    pub open spec fn stored(self, ac: int) -> Option<PowerConfig> {
        match self.config {
            Some(c) => Some(c.power@[ac]),
            None => None,
        }
    }

    /// The mirrors of the laptop brought in line with the configuration and
    /// the adapter; the fan curve has to latch again.
    pub open spec fn mirrored(self, online: bool) -> DeviceManager {
        DeviceManager {
            fan_curve_established: false,
            device: match self.device {
                Some(d) => Some(
                    match self.config {
                        Some(c) => RazerLaptop {
                            allow_experimental: c.experimental_profiles,
                            static_lighting: c.static_lighting,
                            ac_state: online as u8,
                            ..d
                        },
                        None => RazerLaptop { ac_state: online as u8, ..d },
                    },
                ),
                None => None,
            },
            ..self
        }
    }

    /// The speed to latch again: that which the curve last wrote, when a
    /// curve owns the fans in the slot in force.
    pub open spec fn relatch_target(self) -> Option<u16> {
        match (self.device, self.config) {
            (Some(d), Some(c)) => if c.power@[d.ac_state as int].fan_curve.enabled {
                self.fan_curve_last_rpm
            } else {
                None
            },
            _ => None,
        }
    }

    /// The writes that latch the fan curve again, `None` when there is nothing
    /// to latch.
    pub open spec fn relatch_writes(self) -> Option<Seq<EcCommand>> {
        match self.relatch_target() {
            Some(rpm) => Some(self.device->0.drive_writes(true, rpm)),
            None => None,
        }
    }

    /// The mirrors once those writes are planned.
    pub open spec fn relatching(self) -> DeviceManager {
        match self.relatch_target() {
            Some(rpm) => DeviceManager {
                device: Some(self.device->0.after_drive(rpm)),
                ..self
            },
            None => self,
        }
    }

    /// A manager without laptop and configuration.
    pub fn new() -> (r: DeviceManager)
        ensures
            r.device is None,
            r.supported_devices@.len() == 0,
            r.config is None,
            !r.fan_curve_established,
            r.fan_curve_last_rpm is None,
            r.active_domain is None,
            r.last_applied_wire is None,
            r.last_key_press is None,
            r.wf(),
    {
        DeviceManager {
            device: None,
            supported_devices: Vec::new(),
            config: None,
            fan_curve_established: false,
            fan_curve_last_rpm: None,
            active_domain: None,
            last_applied_wire: None,
            last_key_press: None,
        }
    }

    /// The attached laptop.
    pub fn get_device(&mut self) -> (r: Option<&mut RazerLaptop>)
        ensures
            match r {
                Some(d) => {
                    &&& old(self).device == Some(*d)
                    &&& *final(self) == (DeviceManager { device: Some(*final(d)), ..*old(self) })
                },
                None => old(self).device is None && *final(self) == *old(self),
            },
    {
        self.device.as_mut()
    }

    /// The lighting master switch.
    pub fn get_static_lighting(&self) -> (r: bool)
        ensures
            r == self.lighting(),
    {
        match &self.config {
            Some(c) => c.static_lighting,
            None => true,
        }
    }

    /// Brings the mirrors in line without applying a profile.
    pub fn set_ac_mirror(&mut self, online: bool)
        ensures
            *final(self) == old(self).mirrored(online),
            old(self).wf() ==> final(self).wf(),
    {
        self.fan_curve_established = false;
        if let Some(dev) = &mut self.device {
            if let Some(cfg) = &self.config {
                dev.allow_experimental = cfg.experimental_profiles;
                dev.static_lighting = cfg.static_lighting;
            }
            dev.set_ac_state(online);
        }
    }
}

} // verus!
