//! What travels between the daemon and its clients.

use vstd::prelude::*;

verus! {

/// A GPU found on the PCI bus.
#[derive(Debug)]
pub struct GpuInfo {
    pub name: String,
    pub pci_slot: String,
    pub driver: String,
    pub gpu_type: String,
    pub runtime_status: String,
}

/// A dGPU sensor snapshot. Temperature and power are carried as the bit
/// patterns of 64-bit floating point numbers: the daemon hands them through
/// without computing on them. `age_ms` is the age of the snapshot.
#[derive(Debug, Clone, Copy, PartialEq, Eq, Structural)]
pub struct DgpuSensors {
    pub temp_c: u64,
    pub power_w: Option<u64>,
    pub util_pct: Option<u32>,
    pub age_ms: u64,
}

/// A single temperature -> fan speed point of a smart fan curve.
#[derive(Debug, Clone, Copy, PartialEq, Eq, Structural)]
pub struct FanCurvePoint {
    pub temp_c: u8,
    pub rpm: u16,
}

/// Which temperature drives the smart fan curve. `Both` looks the CPU
/// temperature up on the CPU curve and the GPU temperature on the GPU curve;
/// the higher speed wins, not the higher temperature.
#[derive(Debug, Clone, Copy, PartialEq, Eq, Structural)]
pub enum CurveTempSource {
    Cpu,
    Gpu,
    Both,
}

/// A smart fan curve, stored per slot of the configuration.
#[derive(Debug)]
pub struct FanCurve {
    pub enabled: bool,
    pub source: CurveTempSource,
    /// Used when `source` is `Cpu` or `Both`.
    pub cpu_points: Vec<FanCurvePoint>,
    /// Used when `source` is `Gpu` or `Both`.
    pub gpu_points: Vec<FanCurvePoint>,
}

/// What a fan curve says.
pub struct FanCurveView {
    pub enabled: bool,
    pub source: CurveTempSource,
    pub cpu_points: Seq<FanCurvePoint>,
    pub gpu_points: Seq<FanCurvePoint>,
}

impl View for FanCurve {
    type V = FanCurveView;

    open spec fn view(&self) -> FanCurveView {
        FanCurveView {
            enabled: self.enabled,
            source: self.source,
            cpu_points: self.cpu_points@,
            gpu_points: self.gpu_points@,
        }
    }
}

impl Clone for FanCurve {
    fn clone(&self) -> (r: FanCurve)
        ensures
            r@ == self@,
    {
        let cpu_points = self.cpu_points.clone();
        let gpu_points = self.gpu_points.clone();
        assert(cpu_points@ =~= self.cpu_points@);
        assert(gpu_points@ =~= self.gpu_points@);
        FanCurve { enabled: self.enabled, source: self.source, cpu_points, gpu_points }
    }
}

/// The points of a fresh curve.
pub open spec fn gentle_points() -> Seq<FanCurvePoint> {
    seq![
        FanCurvePoint { temp_c: 40, rpm: 2200 },
        FanCurvePoint { temp_c: 50, rpm: 2600 },
        FanCurvePoint { temp_c: 60, rpm: 3200 },
        FanCurvePoint { temp_c: 70, rpm: 3900 },
        FanCurvePoint { temp_c: 80, rpm: 4500 },
        FanCurvePoint { temp_c: 90, rpm: 5000 },
    ]
}

/// A fresh curve: off, driven by the CPU, gentle points on both sides.
pub open spec fn fresh_curve() -> FanCurveView {
    FanCurveView {
        enabled: false,
        source: CurveTempSource::Cpu,
        cpu_points: gentle_points(),
        gpu_points: gentle_points(),
    }
}

/// Points in strictly rising order of temperature.
pub open spec fn ascending(points: Seq<FanCurvePoint>) -> bool {
    forall|i: int, j: int|
        0 <= i < j < points.len() ==> (#[trigger] points[i]).temp_c < (#[trigger] points[j]).temp_c
}

impl FanCurve {
    pub fn new() -> (r: FanCurve)
        ensures
            r@ == fresh_curve(),
    {
        FanCurve {
            enabled: false,
            source: CurveTempSource::Cpu,
            cpu_points: default_curve_points(),
            gpu_points: default_curve_points(),
        }
    }
}

/// A gentle curve over a typical laptop fan range.
pub fn default_curve_points() -> (r: Vec<FanCurvePoint>)
    ensures
        r@ == gentle_points(),
{
    let r = vec![
        FanCurvePoint { temp_c: 40, rpm: 2200 },
        FanCurvePoint { temp_c: 50, rpm: 2600 },
        FanCurvePoint { temp_c: 60, rpm: 3200 },
        FanCurvePoint { temp_c: 70, rpm: 3900 },
        FanCurvePoint { temp_c: 80, rpm: 4500 },
        FanCurvePoint { temp_c: 90, rpm: 5000 },
    ];
    assert(r@ =~= gentle_points());
    r
}

/// The default points rise in temperature.
pub proof fn default_points_ascend()
    ensures
        ascending(gentle_points()),
{
}

/// What a client asks of the daemon. `ac` is a slot of the configuration:
/// 1 plugged in, 0 on battery.
#[allow(inconsistent_fields)]
#[derive(Debug)]
pub enum DaemonCommand {
    SetFanSpeed { ac: usize, rpm: i32 },
    GetFanSpeed { ac: usize },
    SetPowerMode { ac: usize, pwr: u8, cpu: u8, gpu: u8 },
    GetPwrLevel { ac: usize },
    GetCPUBoost { ac: usize },
    GetGPUBoost { ac: usize },
    SetLogoLedState { ac: usize, logo_state: u8 },
    GetLogoLedState { ac: usize },
    SetBrightness { ac: usize, val: u8 },
    GetBrightness { ac: usize },
    SetBatteryHealthOptimizer { is_on: bool, threshold: u8 },
    GetBatteryHealthOptimizer,
    GetDeviceName,
    GetActualFanRpm,
    GetGpuStatus,
    SetFanCurve { ac: usize, curve: FanCurve },
    GetFanCurve { ac: usize },
    GetDgpuSensors,
    SetExperimentalProfiles { enabled: bool },
    GetExperimentalProfiles,
    SetStaticColor { red: u8, green: u8, blue: u8 },
    GetStaticColor,
    SetStaticLighting { enabled: bool },
    GetStaticLighting,
    GetCapabilities { ac: usize },
    GetCharger,
    CyclePowerMode,
    GetDesiredState,
    GetEcPowerZone { zone: u8 },
    GetEcBoost { gpu: bool },
    GetEcBrightness,
    GetEcBho,
    GetEcFanTach { zone: u8 },
    GetEcFanSetpoint { zone: u8 },
}

/// What should hold right now, for clients. `fan_mode` is 0 automatic,
/// 1 manual, 2 curve; `fan_rpm` means something for manual only. With
/// `lighting` off the daemon writes no lighting at all.
#[derive(Debug, Clone, Copy, PartialEq, Eq)]
pub struct DesiredStateWire {
    pub domain: ChargerDomainWire,
    pub wire: u8,
    pub boosts: Option<(u8, u8)>,
    pub brightness: u8,
    pub logo: u8,
    pub fan_mode: u8,
    pub fan_rpm: i32,
    pub bho_on: bool,
    pub bho_threshold: u8,
    pub lighting: bool,
}

/// What the daemon answers.
#[allow(inconsistent_fields)]
#[derive(Debug)]
pub enum DaemonResponse {
    SetFanSpeed { result: bool },
    GetFanSpeed { rpm: i32 },
    SetPowerMode { result: bool },
    GetPwrLevel { pwr: u8 },
    GetCPUBoost { cpu: u8 },
    GetGPUBoost { gpu: u8 },
    SetLogoLedState { result: bool },
    GetLogoLedState { logo_state: u8 },
    SetBrightness { result: bool },
    GetBrightness { result: u8 },
    SetBatteryHealthOptimizer { result: bool },
    GetBatteryHealthOptimizer { is_on: bool, threshold: u8 },
    GetDeviceName { name: String },
    GetActualFanRpm { rpm: i32 },
    GetGpuStatus { gpus: Vec<GpuInfo>, dgpu_runtime_pm: bool },
    SetFanCurve { result: bool },
    GetFanCurve { curve: FanCurve },
    GetDgpuSensors { sensors: Option<DgpuSensors> },
    SetExperimentalProfiles { result: bool },
    GetExperimentalProfiles { enabled: bool },
    SetStaticColor { result: bool },
    GetStaticColor { color: [u8; 3] },
    SetStaticLighting { result: bool },
    GetStaticLighting { enabled: bool },
    GetCapabilities { wires: Vec<u8>, max_boost_tier: u8, model: String },
    GetCharger { actp: Option<u8> },
    CyclePowerMode { applied: Option<CycleResult> },
    GetDesiredState { state: Option<DesiredStateWire> },
    GetEcPowerZone { mode: Option<(u8, u8)> },
    GetEcBoost { value: Option<u8> },
    GetEcBrightness { value: Option<u8> },
    GetEcBho { state: Option<(bool, u8)> },
    GetEcFanTach { rpm: Option<u16> },
    GetEcFanSetpoint { rpm: Option<u16> },
}

/// Outcome of a power-key press. `cold` tells that the press applied the
/// profile that belongs to the current domain; a warm press advanced it.
#[derive(Debug, Clone, Copy, PartialEq, Eq, Structural)]
pub struct CycleResult {
    pub wire: u8,
    pub domain: ChargerDomainWire,
    pub cold: bool,
}

/// The charger domain as clients see it.
#[derive(Debug, Clone, Copy, PartialEq, Eq, Structural)]
pub enum ChargerDomainWire {
    Barrel,
    Pd,
    Battery,
}

/// Display name of a profile wire value. 0 and 6 are both "Balanced", one per
/// power domain.
pub open spec fn profile_label(wire: u8) -> Seq<char> {
    if wire == 0 || wire == 6 {
        "Balanced"@
    } else if wire == 2 {
        "Performance"@
    } else if wire == 5 {
        "Silent"@
    } else if wire == 4 {
        "Custom"@
    } else if wire == 3 {
        "Battery Saver"@
    } else if wire == 7 {
        "Turbo"@
    } else if wire == 1 {
        "Gaming (legacy)"@
    } else {
        "Unknown"@
    }
}

/// Display name of a profile wire value.
pub fn profile_name(wire: u8) -> (name: &'static str)
    ensures
        name@ == profile_label(wire),
{
    match wire {
        0 | 6 => "Balanced",
        2 => "Performance",
        5 => "Silent",
        4 => "Custom",
        3 => "Battery Saver",
        7 => "Turbo",
        1 => "Gaming (legacy)",
        _ => "Unknown",
    }
}

/// The default curve has a point every ten degrees from 40 to 90, and its speed
/// rises with each from 2200 to 5000.
pub proof fn default_points_rise_evenly(i: int)
    requires
        0 <= i < 6,
    ensures
        gentle_points().len() == 6,
        gentle_points()[i].temp_c == 40 + 10 * i,
        2200 <= gentle_points()[i].rpm <= 5000,
        gentle_points()[0].rpm == 2200 && gentle_points()[5].rpm == 5000,
        i > 0 ==> gentle_points()[i - 1].rpm + 400 <= gentle_points()[i].rpm
            <= gentle_points()[i - 1].rpm + 700,
        !fresh_curve().enabled && fresh_curve().source is Cpu,
        fresh_curve().cpu_points == gentle_points() && fresh_curve().gpu_points == gentle_points(),
{
}

} // verus!
