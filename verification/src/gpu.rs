//! GPUs on the PCI bus: which there are, and what state they are in.

use vstd::prelude::*;

use crate::comms::{DaemonResponse, GpuInfo};
use crate::text;
use crate::text::{same_text, split, starts_with, trim, trim_start_matches};

verus! {

/// A PCI device as sysfs has it. Files that could not be read are `None`.
#[derive(Debug)]
pub struct PciDevice {
    /// Path of the device directory.
    pub path: String,
    pub slot: String,
    pub class: Option<String>,
    pub vendor: Option<String>,
    pub device_id: Option<String>,
    /// Name of the bound driver, empty when there is none.
    pub driver: String,
    pub runtime_status: Option<String>,
    /// What `lspci` says of the device, if it was asked and answered.
    pub listing: Option<String>,
}

/// Contents of a sysfs file without the white space around them.
pub open spec fn contents(raw: Option<String>) -> Option<Seq<char>> {
    match raw {
        Some(s) => Some(text::trimmed(s@)),
        None => None,
    }
}

/// Contents of a sysfs file without the white space around them.
pub fn read_sysfs_trimmed(raw: &Option<String>) -> (r: Option<String>)
    ensures
        r is Some <==> contents(*raw) is Some,
        r matches Some(s) ==> contents(*raw) == Some(s@),
{
    match raw {
        Some(s) => Some(trim(s.as_str())),
        None => None,
    }
}

/// Whether a sysfs file says exactly this.
pub open spec fn says(raw: Option<String>, what: Seq<char>) -> bool {
    contents(raw) == Some(what)
}

/// Whether a sysfs file says exactly this.
pub fn file_says(raw: &Option<String>, what: &str) -> (r: bool)
    ensures
        r == says(*raw, what@),
{
    match read_sysfs_trimmed(raw) {
        Some(s) => same_text(s.as_str(), what),
        None => false,
    }
}

/// What kind of GPU a device is.
#[derive(Debug, Clone, Copy, PartialEq, Eq, Structural)]
pub enum GpuKind {
    Discrete,
    Integrated,
    Unknown,
}

impl GpuKind {
    /// Name of the kind.
    pub open spec fn label(self) -> Seq<char> {
        match self {
            GpuKind::Discrete => "dgpu"@,
            GpuKind::Integrated => "igpu"@,
            GpuKind::Unknown => "unknown"@,
        }
    }

    pub fn name(self) -> (r: &'static str)
        ensures
            r@ == self.label(),
    {
        match self {
            GpuKind::Discrete => "dgpu",
            GpuKind::Integrated => "igpu",
            GpuKind::Unknown => "unknown",
        }
    }
}

/// A name that is kept, and what it is kept under.
#[derive(Debug)]
pub struct KnownName {
    pub key: String,
    pub name: String,
}

/// The names of GPUs that were resolved so far.
#[derive(Debug)]
pub struct KnownNames {
    pub entries: Vec<KnownName>,
}

/// The names that a list of entries holds.
pub open spec fn names_in(entries: Seq<KnownName>) -> Map<Seq<char>, Seq<char>>
    decreases entries.len(),
{
    if entries.len() == 0 {
        Map::empty()
    } else {
        names_in(entries.drop_last()).insert(entries.last().key@, entries.last().name@)
    }
}

impl View for KnownNames {
    type V = Map<Seq<char>, Seq<char>>;

    open spec fn view(&self) -> Map<Seq<char>, Seq<char>> {
        names_in(self.entries@)
    }
}

impl KnownNames {
    pub fn new() -> (r: KnownNames)
        ensures
            r@ == Map::<Seq<char>, Seq<char>>::empty(),
    {
        KnownNames { entries: Vec::new() }
    }

    fn find(&self, key: &str) -> (r: Option<String>)
        ensures
            r is Some <==> self@.contains_key(key@),
            r matches Some(name) ==> name@ == self@[key@],
    {
        let mut i: usize = self.entries.len();
        assert(self.entries@.take(i as int) =~= self.entries@);
        while i > 0
            invariant
                i <= self.entries@.len(),
                names_in(self.entries@.take(i as int)).contains_key(key@) <==> self@.contains_key(
                    key@,
                ),
                self@.contains_key(key@) ==> names_in(self.entries@.take(i as int))[key@]
                    == self@[key@],
            decreases i,
        {
            let ghost here = self.entries@.take(i as int);
            assert(here.drop_last() =~= self.entries@.take(i - 1));
            assert(here.last() == self.entries@[i - 1]);
            i = i - 1;
            if same_text(self.entries[i].key.as_str(), key) {
                return Some(self.entries[i].name.clone());
            }
        }
        None
    }

    fn keep(&mut self, key: String, name: String)
        ensures
            final(self)@ == old(self)@.insert(key@, name@),
    {
        let ghost before = self.entries@;
        self.entries.push(KnownName { key, name });
        assert(self.entries@.drop_last() =~= before);
    }
}

impl PciDevice {
    /// A VGA or 3D controller.
    pub open spec fn gpu(self) -> bool {
        contents(self.class) matches Some(c) && (text::begins_with(c, "0x0300"@)
            || text::begins_with(c, "0x0302"@))
    }

    /// NVIDIA is discrete, Intel integrated. AMD is integrated under the
    /// driver `amdgpu`, else discrete.
    pub open spec fn kind(self) -> GpuKind {
        if says(self.vendor, "0x10de"@) {
            GpuKind::Discrete
        } else if says(self.vendor, "0x1002"@) {
            if self.driver@ == "amdgpu"@ {
                GpuKind::Integrated
            } else {
                GpuKind::Discrete
            }
        } else if says(self.vendor, "0x8086"@) {
            GpuKind::Integrated
        } else {
            GpuKind::Unknown
        }
    }

    pub fn is_gpu(&self) -> (r: bool)
        ensures
            r == self.gpu(),
    {
        match read_sysfs_trimmed(&self.class) {
            Some(c) => starts_with(c.as_str(), "0x0300") || starts_with(c.as_str(), "0x0302"),
            None => false,
        }
    }

    fn kind_of(&self) -> (r: GpuKind)
        ensures
            r == self.kind(),
    {
        if file_says(&self.vendor, "0x10de") {
            GpuKind::Discrete
        } else if file_says(&self.vendor, "0x1002") {
            if same_text(self.driver.as_str(), "amdgpu") {
                GpuKind::Integrated
            } else {
                GpuKind::Discrete
            }
        } else if file_says(&self.vendor, "0x8086") {
            GpuKind::Integrated
        } else {
            GpuKind::Unknown
        }
    }

    /// The device to ask `lspci` about: vendor and device id without their
    /// prefix. There is none to ask about without a device id.
    pub fn lspci_filter(&self) -> (r: Option<String>)
        ensures
            r is Some <==> self.device_id is Some,
            r matches Some(f) ==> f@ == text::without_prefixes(
                match contents(self.vendor) {
                    Some(v) => v,
                    None => ""@,
                },
                "0x"@,
            ) + ":"@ + text::without_prefixes(contents(self.device_id)->0, "0x"@),
    {
        proof {
            reveal_strlit("0x");
        }
        match read_sysfs_trimmed(&self.device_id) {
            Some(dev_id) => {
                let vendor = match read_sysfs_trimmed(&self.vendor) {
                    Some(v) => v,
                    None => "".to_owned(),
                };
                let mut f = trim_start_matches(vendor.as_str(), "0x");
                let did = trim_start_matches(dev_id.as_str(), "0x");
                f.append(":");
                f.append(did.as_str());
                Some(f)
            },
            None => None,
        }
    }

    /// The name that a listing gives: vendor and device name, its second and
    /// third quoted fields, when it has enough of them.
    pub open spec fn listed_name(self) -> Option<Seq<char>> {
        match (self.device_id, self.listing) {
            (Some(_), Some(line)) => {
                let fields = text::split_on(line@, '"');
                if fields.len() >= 8 {
                    Some(fields[3] + " "@ + fields[5])
                } else {
                    None
                }
            },
            _ => None,
        }
    }

    /// Name of the vendor.
    pub open spec fn vendor_label(self) -> Seq<char> {
        if says(self.vendor, "0x10de"@) {
            "NVIDIA"@
        } else if says(self.vendor, "0x1002"@) {
            "AMD"@
        } else if says(self.vendor, "0x8086"@) {
            "Intel"@
        } else {
            "Unknown"@
        }
    }

    /// The name of the GPU: as listed, else by vendor and driver.
    pub open spec fn display_name(self) -> Seq<char> {
        match self.listed_name() {
            Some(name) => name,
            None => if self.driver@.len() == 0 {
                self.vendor_label() + " GPU"@
            } else {
                self.vendor_label() + " GPU ("@ + self.driver@ + ")"@
            },
        }
    }

    fn vendor_name(&self) -> (r: &'static str)
        ensures
            r@ == self.vendor_label(),
    {
        if file_says(&self.vendor, "0x10de") {
            "NVIDIA"
        } else if file_says(&self.vendor, "0x1002") {
            "AMD"
        } else if file_says(&self.vendor, "0x8086") {
            "Intel"
        } else {
            "Unknown"
        }
    }

    /// A readable name of the GPU, from what is known of it now.
    pub fn resolve_gpu_name_uncached(&self) -> (name: String)
        ensures
            name@ == self.display_name(),
    {
        if self.device_id.is_some() {
            if let Some(line) = &self.listing {
                let fields = split(line.as_str(), '"');
                assert(text::views(fields@).len() == fields@.len());
                if fields.len() >= 8 {
                    assert(text::views(fields@)[3] == fields@[3]@);
                    assert(text::views(fields@)[5] == fields@[5]@);
                    let mut name = fields[3].clone();
                    name.append(" ");
                    name.append(fields[5].as_str());
                    return name;
                }
            }
        }
        let mut name = self.vendor_name().to_owned();
        if self.driver.as_str().unicode_len() == 0 {
            name.append(" GPU");
        } else {
            name.append(" GPU (");
            name.append(self.driver.as_str());
            name.append(")");
        }
        name
    }

    /// What the name of a GPU is kept under: its vendor and its device id.
    pub open spec fn name_key(self) -> Seq<char> {
        let vendor = match contents(self.vendor) {
            Some(v) => v,
            None => "-"@,
        };
        let id = match contents(self.device_id) {
            Some(d) => d,
            None => "-"@,
        };
        vendor + ":"@ + id
    }

    fn key(&self) -> (key: String)
        ensures
            key@ == self.name_key(),
    {
        let mut key = match read_sysfs_trimmed(&self.vendor) {
            Some(v) => v,
            None => "-".to_owned(),
        };
        let id = match read_sysfs_trimmed(&self.device_id) {
            Some(d) => d,
            None => "-".to_owned(),
        };
        key.append(":");
        key.append(id.as_str());
        key
    }

    /// The names that are kept once this GPU was named: a name that is kept
    /// stays, one that is missing is resolved.
    pub open spec fn named(self, known: Map<Seq<char>, Seq<char>>) -> Map<Seq<char>, Seq<char>> {
        if known.contains_key(self.name_key()) {
            known
        } else {
            known.insert(self.name_key(), self.display_name())
        }
    }

    /// Whether the name of the GPU is kept.
    pub fn is_named(&self, known: &KnownNames) -> (r: bool)
        ensures
            r == known@.contains_key(self.name_key()),
    {
        known.find(self.key().as_str()).is_some()
    }

    /// A readable name of the GPU: the one that is kept, else the one that is
    /// resolved, which is kept from here on.
    pub fn resolve_gpu_name(&self, known: &mut KnownNames) -> (name: String)
        ensures
            final(known)@ == self.named(old(known)@),
            name@ == final(known)@[self.name_key()],
    {
        let key = self.key();
        match known.find(key.as_str()) {
            Some(name) => name,
            None => {
                let name = self.resolve_gpu_name_uncached();
                known.keep(key, name.clone());
                name
            },
        }
    }

    /// `info` describes this GPU under the name that is kept for it.
    pub open spec fn described_by(self, names: Map<Seq<char>, Seq<char>>, info: GpuInfo) -> bool {
        &&& info.name@ == names[self.name_key()]
        &&& info.pci_slot@ == self.slot@
        &&& info.driver@ == self.driver@
        &&& info.gpu_type@ == self.kind().label()
        &&& info.runtime_status@ == (match contents(self.runtime_status) {
            Some(s) => s,
            None => "unsupported"@,
        })
    }

    fn describe(&self, known: &mut KnownNames) -> (info: GpuInfo)
        requires
            old(known)@.contains_key(self.name_key()),
        ensures
            final(known)@ == old(known)@,
            self.described_by(final(known)@, info),
    {
        let runtime_status = match read_sysfs_trimmed(&self.runtime_status) {
            Some(s) => s,
            None => "unsupported".to_owned(),
        };
        GpuInfo {
            name: self.resolve_gpu_name(known),
            pci_slot: self.slot.clone(),
            driver: self.driver.clone(),
            gpu_type: self.kind_of().name().to_owned(),
            runtime_status,
        }
    }
}

/// Positions of the GPUs of a kind, in order.
pub open spec fn of_kind(devices: Seq<PciDevice>, kind: GpuKind) -> Seq<int>
    decreases devices.len(),
{
    if devices.len() == 0 {
        seq![]
    } else {
        let before = of_kind(devices.drop_last(), kind);
        if devices.last().gpu() && devices.last().kind() == kind {
            before.push(devices.len() - 1)
        } else {
            before
        }
    }
}

/// Positions of the GPUs in the order in which they are reported: the
/// integrated ones, the discrete ones, those of unknown kind; as found within
/// a kind.
pub open spec fn report_order(devices: Seq<PciDevice>) -> Seq<int> {
    of_kind(devices, GpuKind::Integrated) + of_kind(devices, GpuKind::Discrete) + of_kind(
        devices,
        GpuKind::Unknown,
    )
}

/// The names that are kept once the GPUs among the devices were named, one
/// after the other.
pub open spec fn names_after(
    devices: Seq<PciDevice>,
    known: Map<Seq<char>, Seq<char>>,
) -> Map<Seq<char>, Seq<char>>
    decreases devices.len(),
{
    if devices.len() == 0 {
        known
    } else {
        let before = names_after(devices.drop_last(), known);
        if devices.last().gpu() {
            devices.last().named(before)
        } else {
            before
        }
    }
}

/// `infos` describe the devices at `order`.
pub open spec fn describes(
    devices: Seq<PciDevice>,
    order: Seq<int>,
    names: Map<Seq<char>, Seq<char>>,
    infos: Seq<GpuInfo>,
) -> bool {
    &&& infos.len() == order.len()
    &&& forall|k: int|
        0 <= k < infos.len() ==> devices[order[k]].described_by(names, #[trigger] infos[k])
}

/// A name that is kept stays as it is.
pub proof fn kept_names_stay(
    devices: Seq<PciDevice>,
    known: Map<Seq<char>, Seq<char>>,
    key: Seq<char>,
)
    requires
        known.contains_key(key),
    ensures
        names_after(devices, known).contains_key(key),
        names_after(devices, known)[key] == known[key],
    decreases devices.len(),
{
    if devices.len() > 0 {
        kept_names_stay(devices.drop_last(), known, key);
    }
}

/// Every GPU has a name that is kept. Where none was kept before, it is the
/// one that is resolved for the first GPU of its vendor and device id.
pub proof fn every_gpu_is_named(
    devices: Seq<PciDevice>,
    known: Map<Seq<char>, Seq<char>>,
    i: int,
)
    requires
        0 <= i < devices.len(),
        devices[i].gpu(),
    ensures
        names_after(devices, known).contains_key(devices[i].name_key()),
        !known.contains_key(devices[i].name_key()) && (forall|j: int|
            0 <= j < i && #[trigger] devices[j].gpu() ==> devices[j].name_key()
                != devices[i].name_key()) ==> names_after(devices, known)[devices[i].name_key()]
            == devices[i].display_name(),
    decreases devices.len(),
{
    let before = devices.drop_last();
    let key = devices[i].name_key();
    if i < before.len() {
        assert(before[i] == devices[i]);
        assert(forall|j: int| 0 <= j < i ==> #[trigger] before[j] == devices[j]);
        every_gpu_is_named(before, known, i);
        if !known.contains_key(key) && (forall|j: int|
            0 <= j < i && #[trigger] devices[j].gpu() ==> devices[j].name_key() != key) {
            assert forall|j: int| 0 <= j < i && #[trigger] before[j].gpu() implies before[j].name_key()
                != key by {
                assert(devices[j].gpu());
            }
        }
    } else if !known.contains_key(key) && (forall|j: int|
        0 <= j < i && #[trigger] devices[j].gpu() ==> devices[j].name_key() != key) {
        assert forall|j: int| 0 <= j < before.len() && #[trigger] before[j].gpu() implies before[j].name_key()
            != key by {
            assert(devices[j].gpu());
        }
        unseen_keys_are_not_kept(before, known, key);
    }
}

proof fn unseen_keys_are_not_kept(
    devices: Seq<PciDevice>,
    known: Map<Seq<char>, Seq<char>>,
    key: Seq<char>,
)
    requires
        !known.contains_key(key),
        forall|j: int|
            0 <= j < devices.len() && #[trigger] devices[j].gpu() ==> devices[j].name_key() != key,
    ensures
        !names_after(devices, known).contains_key(key),
    decreases devices.len(),
{
    if devices.len() > 0 {
        let before = devices.drop_last();
        assert forall|j: int| 0 <= j < before.len() && #[trigger] before[j].gpu() implies before[j].name_key()
            != key by {
            assert(devices[j].gpu());
        }
        unseen_keys_are_not_kept(before, known, key);
        assert(devices[devices.len() - 1] == devices.last());
    }
}

fn name_gpus(devices: &Vec<PciDevice>, known: &mut KnownNames)
    ensures
        final(known)@ == names_after(devices@, old(known)@),
{
    let ghost before = known@;
    let mut i: usize = 0;
    assert(devices@.take(0) =~= Seq::<PciDevice>::empty());
    while i < devices.len()
        invariant
            i <= devices@.len(),
            known@ == names_after(devices@.take(i as int), before),
        decreases devices@.len() - i,
    {
        let ghost next = devices@.take(i + 1);
        assert(next.drop_last() =~= devices@.take(i as int));
        assert(next.last() == devices@[i as int]);
        if devices[i].is_gpu() {
            let _ = devices[i].resolve_gpu_name(known);
        }
        i = i + 1;
    }
    assert(devices@.take(i as int) =~= devices@);
}

fn push_kind(
    devices: &Vec<PciDevice>,
    kind: GpuKind,
    known: &mut KnownNames,
    infos: &mut Vec<GpuInfo>,
    Ghost(order): Ghost<Seq<int>>,
)
    requires
        forall|i: int|
            0 <= i < devices@.len() && #[trigger] devices@[i].gpu() ==> old(known)@.contains_key(
                devices@[i].name_key(),
            ),
        describes(devices@, order, old(known)@, old(infos)@),
    ensures
        final(known)@ == old(known)@,
        describes(devices@, order + of_kind(devices@, kind), old(known)@, final(infos)@),
{
    let ghost names = known@;
    let mut i: usize = 0;
    let ghost mut done: Seq<int> = order;
    proof {
        assert(devices@.take(0) =~= Seq::<PciDevice>::empty());
        assert(done =~= order + of_kind(devices@.take(0), kind));
    }
    while i < devices.len()
        invariant
            i <= devices@.len(),
            known@ == names,
            forall|i: int|
                0 <= i < devices@.len() && #[trigger] devices@[i].gpu() ==> names.contains_key(
                    devices@[i].name_key(),
                ),
            done == order + of_kind(devices@.take(i as int), kind),
            describes(devices@, done, names, infos@),
        decreases devices@.len() - i,
    {
        let ghost next = devices@.take(i + 1);
        assert(next.drop_last() =~= devices@.take(i as int));
        assert(next.last() == devices@[i as int]);
        if devices[i].is_gpu() && devices[i].kind_of() == kind {
            infos.push(devices[i].describe(known));
            proof {
                let before = done;
                done = done.push(i as int);
                assert(done =~= order + of_kind(next, kind));
                assert forall|k: int| 0 <= k < infos@.len() implies devices@[done[k]].described_by(
                    names,
                    #[trigger] infos@[k],
                ) by {
                    if k < before.len() {
                        assert(done[k] == before[k]);
                    }
                }
            }
        }
        i = i + 1;
    }
    assert(devices@.take(i as int) =~= devices@);
}

/// The GPUs among the PCI devices, under the names that are kept.
pub fn discover_gpus(devices: &Vec<PciDevice>, known: &mut KnownNames) -> (gpus: Vec<GpuInfo>)
    ensures
        final(known)@ == names_after(devices@, old(known)@),
        describes(devices@, report_order(devices@), final(known)@, gpus@),
{
    let ghost before = known@;
    name_gpus(devices, known);
    proof {
        assert forall|i: int|
            0 <= i < devices@.len() && #[trigger] devices@[i].gpu() implies known@.contains_key(
            devices@[i].name_key(),
        ) by {
            every_gpu_is_named(devices@, before, i);
        }
    }
    let mut gpus: Vec<GpuInfo> = Vec::new();
    let ghost none = Seq::<int>::empty();
    push_kind(devices, GpuKind::Integrated, known, &mut gpus, Ghost(none));
    let ghost i = none + of_kind(devices@, GpuKind::Integrated);
    push_kind(devices, GpuKind::Discrete, known, &mut gpus, Ghost(i));
    let ghost d = i + of_kind(devices@, GpuKind::Discrete);
    push_kind(devices, GpuKind::Unknown, known, &mut gpus, Ghost(d));
    assert(d + of_kind(devices@, GpuKind::Unknown) =~= report_order(devices@));
    gpus
}

/// A device is reported exactly when it is a GPU.
pub proof fn every_gpu_is_reported(devices: Seq<PciDevice>, i: int)
    requires
        0 <= i < devices.len(),
    ensures
        report_order(devices).contains(i) <==> devices[i].gpu(),
{
    let g = of_kind(devices, GpuKind::Integrated);
    let d = of_kind(devices, GpuKind::Discrete);
    let u = of_kind(devices, GpuKind::Unknown);
    kind_holds(devices, GpuKind::Integrated, i);
    kind_holds(devices, GpuKind::Discrete, i);
    kind_holds(devices, GpuKind::Unknown, i);
    let r = report_order(devices);
    if r.contains(i) {
        let k = choose|k: int| 0 <= k < r.len() && r[k] == i;
        if k < g.len() {
            assert(g[k] == i);
        } else if k < g.len() + d.len() {
            assert(d[k - g.len()] == i);
        } else {
            assert(u[k - g.len() - d.len()] == i);
        }
    }
    if g.contains(i) {
        let k = choose|k: int| 0 <= k < g.len() && g[k] == i;
        assert(r[k] == i);
    }
    if d.contains(i) {
        let k = choose|k: int| 0 <= k < d.len() && d[k] == i;
        assert(r[g.len() + k] == i);
    }
    if u.contains(i) {
        let k = choose|k: int| 0 <= k < u.len() && u[k] == i;
        assert(r[g.len() + d.len() + k] == i);
    }
}

/// A GPU is reported once, and no integrated one after a discrete one.
pub proof fn integrated_gpus_come_first(
    devices: Seq<PciDevice>,
    names: Map<Seq<char>, Seq<char>>,
    infos: Seq<GpuInfo>,
    a: int,
    b: int,
)
    requires
        describes(devices, report_order(devices), names, infos),
        0 <= a < b < infos.len(),
    ensures
        report_order(devices)[a] != report_order(devices)[b],
        infos[a].gpu_type@ == "dgpu"@ ==> infos[b].gpu_type@ != "igpu"@,
{
    reveal_strlit("dgpu");
    reveal_strlit("igpu");
    reveal_strlit("unknown");
    assert("dgpu"@[0] != "igpu"@[0] && "igpu"@[0] != "unknown"@[0] && "dgpu"@[0] != "unknown"@[0]);
    let g = of_kind(devices, GpuKind::Integrated);
    let d = of_kind(devices, GpuKind::Discrete);
    let u = of_kind(devices, GpuKind::Unknown);
    let r = report_order(devices);
    kinds_ascend(devices, GpuKind::Integrated);
    kinds_ascend(devices, GpuKind::Discrete);
    kinds_ascend(devices, GpuKind::Unknown);
    assert(forall|k: int| 0 <= k < g.len() ==> r[k] == g[k]);
    assert(forall|k: int| g.len() <= k < g.len() + d.len() ==> r[k] == d[k - g.len()]);
    assert(forall|k: int| g.len() + d.len() <= k < r.len() ==> r[k] == u[k - g.len() - d.len()]);
}

proof fn kinds_ascend(devices: Seq<PciDevice>, kind: GpuKind)
    ensures
        forall|k: int|
            0 <= k < of_kind(devices, kind).len() ==> devices[#[trigger] of_kind(
                devices,
                kind,
            )[k]].kind() == kind,
        forall|j: int, k: int|
            0 <= j < k < of_kind(devices, kind).len() ==> #[trigger] of_kind(devices, kind)[j]
                < #[trigger] of_kind(devices, kind)[k],
    decreases devices.len(),
{
    if devices.len() > 0 {
        let before = of_kind(devices.drop_last(), kind);
        let all = of_kind(devices, kind);
        kinds_ascend(devices.drop_last(), kind);
        below_length(devices.drop_last(), kind);
        assert forall|k: int| 0 <= k < all.len() implies devices[#[trigger] all[k]].kind()
            == kind by {
            if k < before.len() {
                assert(all[k] == before[k]);
                assert(devices.drop_last()[before[k]] == devices[before[k]]);
            }
        }
        assert forall|j: int, k: int| 0 <= j < k < all.len() implies #[trigger] all[j]
            < #[trigger] all[k] by {
            assert(all[j] == before[j]);
            if k < before.len() {
                assert(all[k] == before[k]);
            }
        }
    }
}

proof fn kind_holds(devices: Seq<PciDevice>, kind: GpuKind, i: int)
    requires
        0 <= i < devices.len(),
    ensures
        of_kind(devices, kind).contains(i) <==> devices[i].gpu() && devices[i].kind() == kind,
    decreases devices.len(),
{
    let before = of_kind(devices.drop_last(), kind);
    let all = of_kind(devices, kind);
    below_length(devices.drop_last(), kind);
    if i < devices.len() - 1 {
        kind_holds(devices.drop_last(), kind, i);
        assert(devices.drop_last()[i] == devices[i]);
        if before.contains(i) {
            let k = choose|k: int| 0 <= k < before.len() && before[k] == i;
            assert(all[k] == i);
        }
        if all.contains(i) {
            let k = choose|k: int| 0 <= k < all.len() && all[k] == i;
            assert(k < before.len());
            assert(before[k] == i);
        }
    } else {
        if all.len() > before.len() {
            assert(all[all.len() - 1] == i);
        }
        if all.contains(i) {
            let k = choose|k: int| 0 <= k < all.len() && all[k] == i;
            assert(k >= before.len());
        }
    }
}

proof fn below_length(devices: Seq<PciDevice>, kind: GpuKind)
    ensures
        forall|k: int|
            0 <= k < of_kind(devices, kind).len() ==> 0 <= #[trigger] of_kind(devices, kind)[k]
                < devices.len(),
    decreases devices.len(),
{
    if devices.len() > 0 {
        below_length(devices.drop_last(), kind);
        let before = of_kind(devices.drop_last(), kind);
        assert forall|k: int| 0 <= k < of_kind(devices, kind).len() implies 0
            <= #[trigger] of_kind(devices, kind)[k] < devices.len() by {
            if k < before.len() {
                assert(of_kind(devices, kind)[k] == before[k]);
            }
        }
    }
}

/// A discrete GPU.
pub open spec fn discrete(device: PciDevice) -> bool {
    device.gpu() && device.kind() is Discrete
}

/// Path of the first discrete GPU.
pub fn find_dgpu_sysfs_path(devices: &Vec<PciDevice>) -> (r: Option<String>)
    ensures
        match r {
            Some(path) => exists|i: int|
                0 <= i < devices@.len() && discrete(#[trigger] devices@[i]) && path@
                    == devices@[i].path@ && forall|j: int|
                    0 <= j < i ==> !discrete(#[trigger] devices@[j]),
            None => forall|j: int| 0 <= j < devices@.len() ==> !discrete(#[trigger] devices@[j]),
        },
{
    let mut i: usize = 0;
    while i < devices.len()
        invariant
            i <= devices@.len(),
            forall|j: int| 0 <= j < i ==> !discrete(#[trigger] devices@[j]),
        decreases devices@.len() - i,
    {
        if devices[i].is_gpu() && devices[i].kind_of() == GpuKind::Discrete {
            assert(discrete(devices@[i as int]));
            return Some(devices[i].path.clone());
        }
        i = i + 1;
    }
    None
}

/// The path of the discrete GPU to go by: the one that was found before, else
/// what a scan finds now. A scan without one leaves nothing to remember.
pub fn remembered_path(known: Option<String>, scanned: Option<String>) -> (r: Option<String>)
    ensures
        known is Some ==> r == known,
        known is None ==> r == scanned,
{
    match known {
        Some(path) => Some(path),
        None => scanned,
    }
}

/// Whether runtime power management of the discrete GPU is automatic, by the
/// contents of its control file; it is not where there is none.
pub fn get_dgpu_runtime_pm(control: &Option<String>) -> (r: bool)
    ensures
        r == says(*control, "auto"@),
{
    file_says(control, "auto")
}

/// Whether the discrete GPU is awake, by the contents of its status file.
pub fn dgpu_is_active(status: &Option<String>) -> (r: bool)
    ensures
        r == says(*status, "active"@),
{
    file_says(status, "active")
}

/// The answer to a request for the state of the GPUs.
pub fn gpu_status(
    devices: &Vec<PciDevice>,
    known: &mut KnownNames,
    control: &Option<String>,
) -> (r: DaemonResponse)
    ensures
        final(known)@ == names_after(devices@, old(known)@),
        r matches DaemonResponse::GetGpuStatus { gpus, dgpu_runtime_pm } && {
            &&& describes(devices@, report_order(devices@), final(known)@, gpus@)
            &&& dgpu_runtime_pm == says(*control, "auto"@)
        },
{
    DaemonResponse::GetGpuStatus {
        gpus: discover_gpus(devices, known),
        dgpu_runtime_pm: get_dgpu_runtime_pm(control),
    }
}

/// What the sensor tool printed: temperature, power, utilization. The first is
/// always there, the others may be absent or no numbers.
#[derive(Debug)]
pub struct SensorFields {
    pub temp: String,
    pub power: Option<String>,
    pub util: Option<u32>,
}

/// Field `i` of a line of comma separated fields.
pub open spec fn field(line: Seq<char>, i: int) -> Option<Seq<char>> {
    let fields = text::split_on(text::trimmed(line), ',');
    if i < fields.len() {
        Some(text::trimmed(fields[i]))
    } else {
        None
    }
}

/// Takes the output of the sensor tool apart.
pub fn sensor_fields(stdout: &str) -> (r: SensorFields)
    ensures
        Some(r.temp@) == field(stdout@, 0),
        r.power is Some <==> field(stdout@, 1) is Some,
        r.power matches Some(p) ==> field(stdout@, 1) == Some(p@),
        ({
            let util = match field(stdout@, 2) {
                Some(u) => text::unsigned(u, 10, 0xffff_ffff),
                None => None,
            };
            &&& r.util is Some <==> util is Some
            &&& r.util matches Some(u) ==> util == Some(u as nat)
        }),
{
    let line = trim(stdout);
    let fields = split(line.as_str(), ',');
    let ghost all = text::split_on(text::trimmed(stdout@), ',');
    assert(all.len() == fields@.len());
    assert(forall|i: int| 0 <= i < fields@.len() ==> all[i] == (#[trigger] fields@[i])@);
    let temp = trim(fields[0].as_str());
    let power = if fields.len() > 1 {
        Some(trim(fields[1].as_str()))
    } else {
        None
    };
    let util: Option<u32> = if fields.len() > 2 {
        match text::parse_unsigned(trim(fields[2].as_str()).as_str(), 10, 0xffff_ffff) {
            Some(u) => Some(u as u32),
            None => None,
        }
    } else {
        None
    };
    SensorFields { temp, power, util }
}

/// Whether a hardware monitor reads the CPU temperature, by its name file.
pub fn is_cpu_sensor(name: &str) -> (r: bool)
    ensures
        r == (text::trimmed(name@) == "k10temp"@ || text::trimmed(name@) == "zenpower"@
            || text::trimmed(name@) == "coretemp"@),
{
    let name = trim(name);
    same_text(name.as_str(), "k10temp") || same_text(name.as_str(), "zenpower") || same_text(
        name.as_str(),
        "coretemp",
    )
}

/// What is reported of a GPU is what was found of it: its slot, its driver, its
/// kind by the vendor, and the status of its file.
pub proof fn a_gpu_is_reported_as_found(
    device: PciDevice,
    names: Map<Seq<char>, Seq<char>>,
    info: GpuInfo,
)
    requires
        device.described_by(names, info),
    ensures
        info.pci_slot@ == device.slot@,
        info.driver@ == device.driver@,
        says(device.vendor, "0x10de"@) ==> info.gpu_type@ == "dgpu"@,
        device.kind() is Integrated ==> info.gpu_type@ == "igpu"@,
        device.kind() is Unknown ==> info.gpu_type@ == "unknown"@,
        device.runtime_status is None ==> info.runtime_status@ == "unsupported"@,
        device.runtime_status matches Some(s) ==> info.runtime_status@ == text::trimmed(s@),
        info.name@ == names[device.name_key()],
{
}

/// A GPU of NVIDIA is discrete; one of Intel is integrated; one of AMD is
/// integrated under the driver of the integrated ones, else discrete.
pub proof fn the_vendor_tells_the_kind(device: PciDevice)
    ensures
        contents(device.vendor) == Some("0x10de"@) ==> device.kind() is Discrete
            && device.vendor_label() == "NVIDIA"@,
        contents(device.vendor) == Some("0x8086"@) ==> device.kind() is Integrated
            && device.vendor_label() == "Intel"@,
        contents(device.vendor) == Some("0x1002"@) ==> {
            &&& device.vendor_label() == "AMD"@
            &&& device.driver@ == "amdgpu"@ ==> device.kind() is Integrated
            &&& device.driver@ != "amdgpu"@ ==> device.kind() is Discrete
        },
        contents(device.vendor) is None ==> device.kind() is Unknown && device.vendor_label()
            == "Unknown"@,
{
    reveal_strlit("0x10de");
    reveal_strlit("0x1002");
    reveal_strlit("0x8086");
    assert("0x10de"@[3] == '0' && "0x10de"@[2] == '1' && "0x10de"@[4] == 'd');
    assert("0x1002"@[4] == '0' && "0x1002"@[2] == '1');
    assert("0x8086"@[2] == '8');
}

/// A GPU is named as it is listed, by vendor and device; one that is not listed
/// by its vendor, with the driver where it has one.
pub proof fn a_gpu_is_named_as_listed(device: PciDevice, line: String)
    ensures
        device.device_id is Some && device.listing == Some(line) && text::split_on(
            line@,
            '"',
        ).len() >= 8 ==> device.display_name() == text::split_on(line@, '"')[3] + " "@
            + text::split_on(line@, '"')[5],
        device.listing is None && device.driver@.len() == 0 ==> device.display_name()
            == device.vendor_label() + " GPU"@,
        device.listing is None && device.driver@.len() > 0 ==> device.display_name()
            == device.vendor_label() + " GPU ("@ + device.driver@ + ")"@,
{
}

} // verus!
