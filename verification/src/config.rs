//! The stored configuration: one slot per power domain and the settings that
//! both share.

use vstd::prelude::*;

use crate::comms::FanCurve;
use crate::text::decimal;

verus! {

/// Settings of one power domain.
#[derive(Debug)]
pub struct PowerConfig {
    pub power_mode: u8,
    pub cpu_boost: u8,
    pub gpu_boost: u8,
    pub fan_rpm: i32,
    pub brightness: u8,
    pub logo_state: u8,
    pub fan_curve: FanCurve,
}

impl PowerConfig {
    /// The defaults of a slot with the given profile.
    pub open spec fn is_default(self, power_mode: u8) -> bool {
        &&& self.power_mode == power_mode
        &&& self.cpu_boost == 2
        &&& self.gpu_boost == 0
        &&& self.fan_rpm == 0
        &&& self.brightness == 128
        &&& self.logo_state == 0
        &&& self.fan_curve@ == crate::comms::fresh_curve()
    }

    pub fn new() -> (r: PowerConfig)
        ensures
            r.is_default(0),
    {
        PowerConfig {
            power_mode: 0,
            cpu_boost: 2,
            gpu_boost: 0,
            fan_rpm: 0,
            brightness: 128,
            logo_state: 0,
            fan_curve: FanCurve::new(),
        }
    }
}

/// The whole configuration. `power[0]` is the battery slot, `power[1]` the AC
/// slot.
#[derive(Debug)]
pub struct Configuration {
    pub power: [PowerConfig; 2],
    /// The one keyboard colour.
    pub static_color: [u8; 3],
    /// Master switch of lighting. While off the daemon writes no lighting.
    pub static_lighting: bool,
    pub bho_on: bool,
    pub bho_threshold: u8,
    /// Unlock of the profiles and tiers that the model does not ship.
    pub experimental_profiles: bool,
    /// Version of the schema of the stored file.
    pub schema_version: u32,
}

/// The schema that this version writes.
pub const CONFIG_SCHEMA_VERSION: u32 = 1;

/// Colour of a configuration that names none.
pub open spec fn green() -> Seq<u8> {
    seq![0u8, 255u8, 0u8]
}

pub fn default_static_color() -> (r: [u8; 3])
    ensures
        r@ == green(),
{
    let r: [u8; 3] = [0, 255, 0];
    assert(r@ =~= green());
    r
}

impl Configuration {
    /// This configuration with slot `ac` replaced.
    pub open spec fn with_slot(self, ac: int, slot: PowerConfig) -> Configuration {
        Configuration {
            power: if ac == 0 {
                [slot, self.power@[1]]
            } else {
                [self.power@[0], slot]
            },
            ..self
        }
    }

    /// A configuration of factory defaults. Each slot starts on the Balanced
    /// profile of its own domain.
    pub open spec fn is_factory(self) -> bool {
        &&& self.power@[0].is_default(6)
        &&& self.power@[1].is_default(0)
        &&& self.static_color@ == green()
        &&& self.static_lighting
        &&& !self.bho_on
        &&& self.bho_threshold == 80
        &&& !self.experimental_profiles
        &&& self.schema_version == CONFIG_SCHEMA_VERSION
    }

    pub fn new() -> (r: Configuration)
        ensures
            r.is_factory(),
    {
        let mut dc_default = PowerConfig::new();
        dc_default.power_mode = 6;
        let ac_default = PowerConfig::new();
        Configuration {
            power: [dc_default, ac_default],
            static_color: default_static_color(),
            static_lighting: true,
            bho_on: false,
            experimental_profiles: false,
            bho_threshold: 80,
            schema_version: CONFIG_SCHEMA_VERSION,
        }
    }
}

/// A slot as read from a file: the fan curve may be absent.
#[derive(Debug)]
pub struct StoredPowerConfig {
    pub power_mode: u8,
    pub cpu_boost: u8,
    pub gpu_boost: u8,
    pub fan_rpm: i32,
    pub brightness: u8,
    pub logo_state: u8,
    pub fan_curve: Option<FanCurve>,
}

impl StoredPowerConfig {
    /// `slot` is this slot, with a fresh curve where none is stored.
    pub open spec fn filled_as(self, slot: PowerConfig) -> bool {
        &&& slot.power_mode == self.power_mode
        &&& slot.cpu_boost == self.cpu_boost
        &&& slot.gpu_boost == self.gpu_boost
        &&& slot.fan_rpm == self.fan_rpm
        &&& slot.brightness == self.brightness
        &&& slot.logo_state == self.logo_state
        &&& slot.fan_curve@ == (match self.fan_curve {
            Some(curve) => curve@,
            None => crate::comms::fresh_curve(),
        })
    }

    /// Fills the defaults in.
    pub fn fill(self) -> (slot: PowerConfig)
        ensures
            self.filled_as(slot),
    {
        PowerConfig {
            power_mode: self.power_mode,
            cpu_boost: self.cpu_boost,
            gpu_boost: self.gpu_boost,
            fan_rpm: self.fan_rpm,
            brightness: self.brightness,
            logo_state: self.logo_state,
            fan_curve: match self.fan_curve {
                Some(curve) => curve,
                None => FanCurve::new(),
            },
        }
    }
}

/// A configuration as read from a file: settings that joined later may be
/// absent.
#[derive(Debug)]
pub struct StoredConfiguration {
    pub battery: StoredPowerConfig,
    pub ac: StoredPowerConfig,
    pub static_color: Option<[u8; 3]>,
    pub static_lighting: Option<bool>,
    pub bho_on: Option<bool>,
    pub bho_threshold: Option<u8>,
    pub experimental_profiles: Option<bool>,
    pub schema_version: Option<u32>,
}

impl StoredConfiguration {
    /// Schema of the file; a file that names none is of schema 0.
    pub open spec fn schema(self) -> u32 {
        match self.schema_version {
            Some(v) => v,
            None => 0,
        }
    }

    /// `cfg` is this configuration with defaults for what is absent, stamped
    /// with the current schema.
    pub open spec fn filled_as(self, cfg: Configuration) -> bool {
        &&& self.battery.filled_as(cfg.power@[0])
        &&& self.ac.filled_as(cfg.power@[1])
        &&& cfg.static_color@ == (match self.static_color {
            Some(c) => c@,
            None => green(),
        })
        &&& cfg.static_lighting == (match self.static_lighting {
            Some(b) => b,
            None => true,
        })
        &&& cfg.bho_on == (match self.bho_on {
            Some(b) => b,
            None => false,
        })
        &&& cfg.bho_threshold == (match self.bho_threshold {
            Some(t) => t,
            None => 80u8,
        })
        &&& cfg.experimental_profiles == (match self.experimental_profiles {
            Some(b) => b,
            None => false,
        })
        &&& cfg.schema_version == CONFIG_SCHEMA_VERSION
    }
}

/// Why the contents of a configuration file could not be used.
#[derive(Debug, Clone, Copy, PartialEq, Eq, Structural)]
pub enum ConfigFault {
    /// Not a configuration at all.
    Garbage,
    /// The text ends in the middle of a configuration.
    Truncated,
    /// Written under a schema that this version does not know.
    NewerSchema { found: u32 },
    /// Not even text.
    NotText,
}

/// What reading the text of a configuration file gave.
#[derive(Debug)]
pub enum ParsedConfig {
    Parsed(StoredConfiguration),
    Garbage,
    Truncated,
}

/// Accepts the contents of a configuration file, or tells why they have to be
/// put aside. A file of an older schema is stamped with the current one; a
/// file of a newer schema is refused, not reinterpreted.
pub fn parse_or_quarantine(contents: ParsedConfig) -> (r: Result<Configuration, ConfigFault>)
    ensures
        match contents {
            ParsedConfig::Parsed(stored) => if stored.schema() <= CONFIG_SCHEMA_VERSION {
                r matches Ok(cfg) && stored.filled_as(cfg)
            } else {
                r == Err::<Configuration, ConfigFault>(
                    ConfigFault::NewerSchema { found: stored.schema() },
                )
            },
            ParsedConfig::Garbage => r == Err::<Configuration, ConfigFault>(ConfigFault::Garbage),
            ParsedConfig::Truncated => r == Err::<Configuration, ConfigFault>(
                ConfigFault::Truncated,
            ),
        },
{
    match contents {
        ParsedConfig::Garbage => Err(ConfigFault::Garbage),
        ParsedConfig::Truncated => Err(ConfigFault::Truncated),
        ParsedConfig::Parsed(stored) => {
            let schema: u32 = stored.schema_version.unwrap_or(0);
            if schema > CONFIG_SCHEMA_VERSION {
                return Err(ConfigFault::NewerSchema { found: schema });
            }
            let static_color: [u8; 3] = match stored.static_color {
                Some(c) => c,
                None => default_static_color(),
            };
            let cfg = Configuration {
                power: [stored.battery.fill(), stored.ac.fill()],
                static_color,
                static_lighting: stored.static_lighting.unwrap_or(true),
                bho_on: stored.bho_on.unwrap_or(false),
                bho_threshold: stored.bho_threshold.unwrap_or(80),
                experimental_profiles: stored.experimental_profiles.unwrap_or(false),
                schema_version: CONFIG_SCHEMA_VERSION,
            };
            Ok(cfg)
        },
    }
}

/// A configuration file as it was found.
#[derive(Debug)]
pub enum ConfigFile {
    /// It holds text, and this is what reading it gave.
    Text(ParsedConfig),
    /// It holds something else than text.
    NotText,
    /// There is none.
    Missing,
    /// It could not be read.
    Unreadable,
}

/// What a look at the configuration file comes to.
#[derive(Debug)]
pub enum ConfigLook {
    /// This is the configuration.
    Use(Configuration),
    /// The file is to be put aside; there is no configuration.
    PutAside(ConfigFault),
    /// The file stays as it is; there is no configuration.
    Leave,
    /// There is no file here.
    Elsewhere,
}

/// A look at `file` comes to `look`.
pub open spec fn looked_at(file: ConfigFile, look: ConfigLook) -> bool {
    match file {
        ConfigFile::Text(ParsedConfig::Parsed(stored)) => if stored.schema()
            <= CONFIG_SCHEMA_VERSION {
            look matches ConfigLook::Use(cfg) && stored.filled_as(cfg)
        } else {
            look == ConfigLook::PutAside(ConfigFault::NewerSchema { found: stored.schema() })
        },
        ConfigFile::Text(ParsedConfig::Garbage) => look == ConfigLook::PutAside(
            ConfigFault::Garbage,
        ),
        ConfigFile::Text(ParsedConfig::Truncated) => look == ConfigLook::PutAside(
            ConfigFault::Truncated,
        ),
        ConfigFile::NotText => look == ConfigLook::PutAside(ConfigFault::NotText),
        ConfigFile::Unreadable => look == ConfigLook::Leave,
        ConfigFile::Missing => look == ConfigLook::Elsewhere,
    }
}

/// A look at `file` in the earlier location comes to `look`.
pub open spec fn looked_at_earlier(file: ConfigFile, look: ConfigLook) -> bool {
    match file {
        ConfigFile::Text(_) => looked_at(file, look),
        _ => look == ConfigLook::Elsewhere,
    }
}

/// Looks at the configuration file. Damaged contents are put aside; a file that
/// could not be read may be intact and is left alone.
pub fn look_at_config(file: ConfigFile) -> (look: ConfigLook)
    ensures
        looked_at(file, look),
{
    match file {
        ConfigFile::Text(contents) => match parse_or_quarantine(contents) {
            Ok(cfg) => ConfigLook::Use(cfg),
            Err(fault) => ConfigLook::PutAside(fault),
        },
        ConfigFile::NotText => ConfigLook::PutAside(ConfigFault::NotText),
        ConfigFile::Unreadable => ConfigLook::Leave,
        ConfigFile::Missing => ConfigLook::Elsewhere,
    }
}

/// Looks at the configuration file of the earlier location. One that is not
/// readable text counts as missing.
pub fn look_at_legacy(file: ConfigFile) -> (look: ConfigLook)
    ensures
        looked_at_earlier(file, look),
{
    match file {
        ConfigFile::Text(contents) => look_at_config(ConfigFile::Text(contents)),
        _ => ConfigLook::Elsewhere,
    }
}

/// Why a file is put aside, in words; `message` is what the reader of the text
/// said.
pub fn fault_reason(fault: ConfigFault, message: &str) -> (r: String)
    ensures
        r@ == (match fault {
            ConfigFault::Garbage | ConfigFault::Truncated => message@,
            ConfigFault::NotText => "not valid UTF-8"@,
            ConfigFault::NewerSchema { found } => "schema "@ + crate::text::dec(found as nat)
                + " > supported "@ + crate::text::dec(CONFIG_SCHEMA_VERSION as nat),
        }),
{
    match fault {
        ConfigFault::Garbage | ConfigFault::Truncated => message.to_owned(),
        ConfigFault::NotText => "not valid UTF-8".to_owned(),
        ConfigFault::NewerSchema { found } => {
            let mut r = "schema ".to_owned();
            r.append(decimal(found as u64).as_str());
            r.append(" > supported ");
            r.append(decimal(CONFIG_SCHEMA_VERSION as u64).as_str());
            r
        },
    }
}

/// What a file of this schema, or of an older one, names is used as it is. What
/// it does not name is filled in: a curve that is off, the lighting on in green,
/// no charge limit, no unlock.
pub proof fn a_stored_configuration_is_used_as_it_is(
    stored: StoredConfiguration,
    look: ConfigLook,
    early: ConfigLook,
)
    requires
        looked_at(ConfigFile::Text(ParsedConfig::Parsed(stored)), look),
        looked_at_earlier(ConfigFile::Text(ParsedConfig::Parsed(stored)), early),
        stored.schema_version matches Some(v) ==> v <= 1,
    ensures
        look is Use && early is Use,
        ({
            let c = look->Use_0;
            let e = early->Use_0;
            &&& c.power@[0].power_mode == stored.battery.power_mode && c.power@[1].power_mode
                == stored.ac.power_mode
            &&& c.power@[0].cpu_boost == stored.battery.cpu_boost && c.power@[1].cpu_boost
                == stored.ac.cpu_boost
            &&& c.power@[0].gpu_boost == stored.battery.gpu_boost && c.power@[1].gpu_boost
                == stored.ac.gpu_boost
            &&& c.power@[0].fan_rpm == stored.battery.fan_rpm && c.power@[1].fan_rpm
                == stored.ac.fan_rpm
            &&& c.power@[0].brightness == stored.battery.brightness && c.power@[1].brightness
                == stored.ac.brightness
            &&& c.power@[0].logo_state == stored.battery.logo_state && c.power@[1].logo_state
                == stored.ac.logo_state
            &&& stored.battery.fan_curve matches Some(f) ==> c.power@[0].fan_curve@ == f@
            &&& stored.ac.fan_curve matches Some(f) ==> c.power@[1].fan_curve@ == f@
            &&& stored.battery.fan_curve is None ==> !c.power@[0].fan_curve.enabled
            &&& stored.ac.fan_curve is None ==> !c.power@[1].fan_curve.enabled
            &&& stored.static_color matches Some(x) ==> c.static_color@ == x@
            &&& stored.static_color is None ==> c.static_color@ == seq![0u8, 255u8, 0u8]
            &&& stored.static_lighting matches Some(x) ==> c.static_lighting == x
            &&& stored.static_lighting is None ==> c.static_lighting
            &&& stored.bho_on matches Some(x) ==> c.bho_on == x
            &&& stored.bho_on is None ==> !c.bho_on
            &&& stored.bho_threshold matches Some(x) ==> c.bho_threshold == x
            &&& stored.bho_threshold is None ==> c.bho_threshold == 80
            &&& stored.experimental_profiles matches Some(x) ==> c.experimental_profiles == x
            &&& stored.experimental_profiles is None ==> !c.experimental_profiles
            &&& c.schema_version == 1
            &&& stored.filled_as(e)
        }),
{
}

/// A file of a newer schema, one that is damaged and one that is no text is put
/// aside; one that cannot be read is left alone; none is looked for elsewhere.
/// In the earlier location only text is looked at.
pub proof fn a_file_that_cannot_be_used_is_kept(
    stored: StoredConfiguration,
    file: ConfigFile,
    look: ConfigLook,
    early: ConfigLook,
)
    requires
        looked_at(file, look),
        looked_at_earlier(file, early),
    ensures
        file == ConfigFile::Text(ParsedConfig::Parsed(stored)) && (
        stored.schema_version matches Some(v) && v > 1) ==> {
            &&& look == ConfigLook::PutAside(
                ConfigFault::NewerSchema { found: stored.schema_version->0 },
            )
            &&& early == look
        },
        file == ConfigFile::Text(ParsedConfig::Garbage) ==> look == ConfigLook::PutAside(
            ConfigFault::Garbage,
        ) && early == look,
        file == ConfigFile::Text(ParsedConfig::Truncated) ==> look == ConfigLook::PutAside(
            ConfigFault::Truncated,
        ) && early == look,
        file is NotText ==> look == ConfigLook::PutAside(ConfigFault::NotText),
        file is Unreadable ==> look is Leave,
        file is Missing ==> look is Elsewhere,
        !(file is Text) ==> early is Elsewhere,
{
}

/// A factory configuration starts on the Balanced of each supply, with no limit
/// and no unlock, the lighting on in green at half brightness, the logo off and
/// the fans automatic.
pub proof fn a_factory_configuration_is_plain(c: Configuration)
    requires
        c.is_factory(),
    ensures
        c.power@[0].power_mode == 6 && c.power@[1].power_mode == 0,
        forall|ac: int| 0 <= ac < 2 ==> {
            let slot = #[trigger] c.power@[ac];
            &&& slot.cpu_boost == 2 && slot.gpu_boost == 0
            &&& slot.fan_rpm == 0 && slot.brightness == 128 && slot.logo_state == 0
        },
        !c.power@[0].fan_curve.enabled && !c.power@[1].fan_curve.enabled,
        c.static_color@ == seq![0u8, 255u8, 0u8] && c.static_lighting,
        !c.bho_on && c.bho_threshold == 80 && !c.experimental_profiles,
        c.schema_version == 1,
{
}

} // verus!
