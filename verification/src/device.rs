//! Models that the daemon supports, and finding one that is attached.

use vstd::prelude::*;

use crate::config::Configuration;
use crate::laptop::RazerLaptop;
use crate::manager::DeviceManager;
use crate::profile::sanitize_loaded_config;
use crate::text;
use crate::text::{last_piece, parse_i32, parse_unsigned, starts_with, trim};

verus! {

/// USB vendor id of Razer.
pub const RAZER_VENDOR_ID: u16 = 0x1532;

/// Rank of a node whose interface number is not known.
pub const UNKNOWN_IFACE: i32 = 999;

/// One model of the device list.
#[derive(Debug)]
pub struct SupportedDevice {
    pub name: String,
    /// USB vendor id in hexadecimal.
    pub vid: String,
    /// USB product id in hexadecimal.
    pub pid: String,
    pub features: Vec<String>,
    /// Lowest and highest fan speed in RPM.
    pub fan: Vec<u16>,
}

/// A 16-bit number in hexadecimal.
pub open spec fn hex_u16(s: Seq<char>) -> Option<nat> {
    text::unsigned(s, 16, 0xffff)
}

fn parse_hex_u16(s: &str) -> (r: Option<u16>)
    ensures
        r is Some <==> hex_u16(s@) is Some,
        r matches Some(v) ==> hex_u16(s@) == Some(v as nat),
{
    match parse_unsigned(s, 16, 0xffff) {
        Some(v) => Some(v as u16),
        None => None,
    }
}

impl SupportedDevice {
    /// Both ids can be read.
    pub open spec fn readable(self) -> bool {
        hex_u16(self.vid@) is Some && hex_u16(self.pid@) is Some
    }

    /// The model has these ids.
    pub open spec fn has_ids(self, vid: u16, pid: u16) -> bool {
        hex_u16(self.vid@) == Some(vid as nat) && hex_u16(self.pid@) == Some(pid as nat)
    }

    /// The product id, 0 when it cannot be read: the id that nothing is stock
    /// on.
    pub fn pid_u16(&self) -> (r: u16)
        ensures
            r == (match hex_u16(self.pid@) {
                Some(v) => v,
                None => 0,
            }),
    {
        parse_hex_u16(self.pid.as_str()).unwrap_or(0)
    }
}

/// The ids of every model up to the first with these can be read.
pub open spec fn searchable(models: Seq<SupportedDevice>, vid: u16, pid: u16) -> bool {
    forall|i: int|
        0 <= i < models.len() && (forall|j: int|
            0 <= j < i ==> !(#[trigger] models[j]).has_ids(vid, pid)) ==> (
        #[trigger] models[i]).readable()
}

/// Position of the first model with these ids.
pub open spec fn found_at(models: Seq<SupportedDevice>, vid: u16, pid: u16, r: Option<usize>) -> bool {
    match r {
        Some(i) => {
            &&& i < models.len()
            &&& models[i as int].has_ids(vid, pid)
            &&& forall|j: int| 0 <= j < i ==> !(#[trigger] models[j]).has_ids(vid, pid)
        },
        None => forall|j: int|
            0 <= j < models.len() ==> !(#[trigger] models[j]).has_ids(vid, pid),
    }
}

/// A HID device as it was enumerated.
#[derive(Debug)]
pub struct HidEntry {
    pub vid: u16,
    pub pid: u16,
    /// Interface number as enumerated, negative when it is not known.
    pub iface: i32,
    /// Contents of the interface number file of the node, if there is one.
    pub sysfs_iface: Option<String>,
}

/// An interface number in hexadecimal, with white space around it at will.
pub open spec fn iface_in(raw: Option<String>) -> Option<int> {
    match raw {
        Some(s) => text::signed(text::trimmed(s@), 16, 0x7fff_ffff),
        None => None,
    }
}

/// Reads an interface number.
pub fn hidraw_iface_number(raw: &Option<String>) -> (r: Option<i32>)
    ensures
        r is Some <==> iface_in(*raw) is Some,
        r matches Some(v) ==> iface_in(*raw) == Some(v as int),
{
    match raw {
        Some(s) => parse_i32(trim(s.as_str()).as_str(), 16),
        None => None,
    }
}

/// Reads an id file.
pub fn read_hex_u16(raw: &Option<String>) -> (r: Option<u16>)
    ensures
        ({
            let id = match *raw {
                Some(s) => hex_u16(text::trimmed(s@)),
                None => None,
            };
            &&& r is Some <==> id is Some
            &&& r matches Some(v) ==> id == Some(v as nat)
        }),
{
    match raw {
        Some(s) => parse_hex_u16(trim(s.as_str()).as_str()),
        None => None,
    }
}

/// Name of a device node: what stands behind the last slash of its path.
pub fn node_name(path: &str) -> (name: String)
    ensures
        name@ == text::behind_last(path@, '/'),
{
    last_piece(path, '/')
}

impl HidEntry {
    /// A Razer device on interface 0, by what was enumerated or else by its
    /// interface number file.
    pub open spec fn primary(self) -> bool {
        &&& self.vid == RAZER_VENDOR_ID
        &&& (if self.iface >= 0 {
            self.iface as int
        } else {
            match iface_in(self.sysfs_iface) {
                Some(n) => n,
                None => -1,
            }
        }) == 0
    }

    pub fn is_primary(&self) -> (r: bool)
        ensures
            r == self.primary(),
    {
        if self.vid != RAZER_VENDOR_ID {
            return false;
        }
        let iface: i32 = if self.iface >= 0 {
            self.iface
        } else {
            hidraw_iface_number(&self.sysfs_iface).unwrap_or(-1)
        };
        iface == 0
    }
}

/// A node of /dev as it was found.
#[derive(Debug)]
pub struct HidrawNode {
    pub name: String,
    /// Vendor and product id, if they could be resolved.
    pub ids: Option<(u16, u16)>,
    /// Contents of its interface number file, if there is one.
    pub sysfs_iface: Option<String>,
}

impl HidrawNode {
    /// A hidraw node of a Razer device.
    pub open spec fn eligible(self) -> bool {
        &&& text::begins_with(self.name@, "hidraw"@)
        &&& self.ids matches Some((vid, _)) && vid == RAZER_VENDOR_ID
    }

    /// Its interface number, ranked last when it is not known.
    pub open spec fn rank(self) -> int {
        match iface_in(self.sysfs_iface) {
            Some(n) => n,
            None => UNKNOWN_IFACE as int,
        }
    }

    /// Whether it is a hidraw node of a Razer device.
    pub fn is_eligible(&self) -> (r: bool)
        ensures
            r == self.eligible(),
    {
        if !starts_with(self.name.as_str(), "hidraw") {
            return false;
        }
        match self.ids {
            Some((vid, _)) => vid == RAZER_VENDOR_ID,
            None => false,
        }
    }

    /// Its interface number, ranked last when it is not known.
    pub fn rank_of(&self) -> (r: i32)
        ensures
            r == self.rank(),
    {
        hidraw_iface_number(&self.sysfs_iface).unwrap_or(UNKNOWN_IFACE)
    }
}

/// Node `a` is tried before node `b`: it has the lower interface number, or the
/// same one and was found first.
pub open spec fn tried_before(nodes: Seq<HidrawNode>, a: int, b: int) -> bool {
    nodes[a].rank() < nodes[b].rank() || (nodes[a].rank() == nodes[b].rank() && a < b)
}

/// `order` holds the positions of the eligible nodes among the first `n`, each
/// once, in the order in which they are tried.
pub open spec fn trial_order(nodes: Seq<HidrawNode>, n: int, order: Seq<usize>) -> bool {
    &&& forall|k: int|
        0 <= k < order.len() ==> (#[trigger] order[k]) < n && nodes[order[k] as int].eligible()
    &&& forall|i: int|
        0 <= i < n && (#[trigger] nodes[i]).eligible() ==> exists|k: int|
            0 <= k < order.len() && order[k] == i
    &&& forall|k: int, l: int|
        0 <= k < l < order.len() ==> tried_before(
            nodes,
            #[trigger] order[k] as int,
            #[trigger] order[l] as int,
        )
}

/// The hidraw nodes to try when no primary device could be opened, lowest
/// interface number first.
pub fn fallback_order(nodes: &Vec<HidrawNode>) -> (order: Vec<usize>)
    ensures
        trial_order(nodes@, nodes@.len() as int, order@),
{
    let mut order: Vec<usize> = Vec::new();
    let mut i: usize = 0;
    while i < nodes.len()
        invariant
            i <= nodes@.len(),
            trial_order(nodes@, i as int, order@),
        decreases nodes@.len() - i,
    {
        if nodes[i].is_eligible() {
            let rank = nodes[i].rank_of();
            let mut at: usize = order.len();
            while at > 0 && nodes[order[at - 1]].rank_of() > rank
                invariant
                    at <= order@.len(),
                    i < nodes@.len(),
                    rank == nodes@[i as int].rank(),
                    trial_order(nodes@, i as int, order@),
                    forall|k: int|
                        at <= k < order@.len() ==> nodes@[(#[trigger] order@[k]) as int].rank()
                            > rank,
                ensures
                    at <= order@.len(),
                    at > 0 ==> nodes@[order@[at - 1] as int].rank() <= rank,
                    forall|k: int|
                        at <= k < order@.len() ==> nodes@[(#[trigger] order@[k]) as int].rank()
                            > rank,
                decreases at,
            {
                at = at - 1;
            }
            let ghost before = order@;
            order.insert(at, i);
            proof {
                insert_keeps_order(nodes@, i as int, before, at as int, order@);
            }
        } else {
            assert forall|j: int| 0 <= j < i + 1 && (#[trigger] nodes@[j]).eligible() implies exists|
                k: int,
            | 0 <= k < order@.len() && order@[k] == j by {
                assert(j < i);
            }
        }
        i = i + 1;
    }
    order
}

proof fn insert_keeps_order(
    nodes: Seq<HidrawNode>,
    i: int,
    before: Seq<usize>,
    at: int,
    after: Seq<usize>,
)
    requires
        0 <= i < nodes.len(),
        i <= usize::MAX,
        nodes[i].eligible(),
        trial_order(nodes, i, before),
        0 <= at <= before.len(),
        after == before.insert(at, i as usize),
        at > 0 ==> nodes[before[at - 1] as int].rank() <= nodes[i].rank(),
        forall|k: int|
            at <= k < before.len() ==> nodes[(#[trigger] before[k]) as int].rank()
                > nodes[i].rank(),
    ensures
        trial_order(nodes, i + 1, after),
{
    let place = |k: int|
        if k < at {
            k
        } else {
            k - 1
        };
    assert forall|k: int| 0 <= k < after.len() implies (#[trigger] after[k]) < i + 1
        && nodes[after[k] as int].eligible() by {
        if k != at {
            assert(after[k] == before[place(k)]);
        }
    }
    assert forall|j: int| 0 <= j < i + 1 && (#[trigger] nodes[j]).eligible() implies exists|
        k: int,
    | 0 <= k < after.len() && after[k] == j by {
        if j == i {
            assert(after[at] == j);
        } else {
            let k = choose|k: int| 0 <= k < before.len() && before[k] == j;
            if k < at {
                assert(after[k] == j);
            } else {
                assert(after[k + 1] == j);
            }
        }
    }
    assert forall|k: int, l: int| 0 <= k < l < after.len() implies tried_before(
        nodes,
        #[trigger] after[k] as int,
        #[trigger] after[l] as int,
    ) by {
        if k != at {
            assert(after[k] == before[place(k)]);
        }
        if l != at {
            assert(after[l] == before[place(l)]);
        }
        if l == at && k < at - 1 {
            assert(tried_before(nodes, before[k] as int, before[at - 1] as int));
        }
    }
}

/// Path of a node of /dev.
pub fn device_node(name: &str) -> (path: String)
    ensures
        path@ == "/dev/"@ + name@,
{
    let mut path = "/dev/".to_owned();
    path.append(name);
    path
}

/// The same texts.
pub fn copy_texts(texts: &Vec<String>) -> (r: Vec<String>)
    ensures
        r@ == texts@,
{
    let mut r: Vec<String> = Vec::new();
    let mut i: usize = 0;
    while i < texts.len()
        invariant
            i <= texts@.len(),
            r@ == texts@.take(i as int),
        decreases texts@.len() - i,
    {
        r.push(texts[i].clone());
        i = i + 1;
        assert(r@ =~= texts@.take(i as int));
    }
    assert(texts@.take(i as int) =~= texts@);
    r
}

impl DeviceManager {
    /// The position in the device list of the model with these ids.
    pub fn find_supported_device(&self, vid: u16, pid: u16) -> (r: Option<usize>)
        requires
            searchable(self.supported_devices@, vid, pid),
        ensures
            found_at(self.supported_devices@, vid, pid, r),
    {
        let mut i: usize = 0;
        while i < self.supported_devices.len()
            invariant
                i <= self.supported_devices@.len(),
                searchable(self.supported_devices@, vid, pid),
                forall|j: int|
                    0 <= j < i ==> !(#[trigger] self.supported_devices@[j]).has_ids(vid, pid),
            decreases self.supported_devices@.len() - i,
        {
            let model = &self.supported_devices[i];
            assert(self.supported_devices@[i as int].readable());
            let svid: Option<u16> = parse_hex_u16(model.vid.as_str());
            let spid: Option<u16> = parse_hex_u16(model.pid.as_str());
            if svid == Some(vid) && spid == Some(pid) {
                return Some(i);
            }
            i = i + 1;
        }
        None
    }

    /// Whether the search for these ids comes across an id that cannot be
    /// read.
    pub fn is_searchable(&self, vid: u16, pid: u16) -> (r: bool)
        ensures
            r == searchable(self.supported_devices@, vid, pid),
    {
        let mut i: usize = 0;
        while i < self.supported_devices.len()
            invariant
                i <= self.supported_devices@.len(),
                forall|j: int|
                    0 <= j < i ==> !(#[trigger] self.supported_devices@[j]).has_ids(vid, pid)
                        && self.supported_devices@[j].readable(),
            decreases self.supported_devices@.len() - i,
        {
            let model = &self.supported_devices[i];
            let svid: Option<u16> = parse_hex_u16(model.vid.as_str());
            let spid: Option<u16> = parse_hex_u16(model.pid.as_str());
            if svid.is_none() || spid.is_none() {
                assert(!self.supported_devices@[i as int].readable());
                return false;
            }
            if svid == Some(vid) && spid == Some(pid) {
                assert(self.supported_devices@[i as int].has_ids(vid, pid));
                return true;
            }
            i = i + 1;
        }
        true
    }

    /// The next primary device to open, from position `from` on: its position
    /// among the enumerated ones and that of its model.
    pub fn next_primary(&self, entries: &Vec<HidEntry>, from: usize) -> (r: Option<(usize, usize)>)
        requires
            forall|i: int|
                from <= i < entries@.len() && (#[trigger] entries@[i]).primary() ==> searchable(
                    self.supported_devices@,
                    entries@[i].vid,
                    entries@[i].pid,
                ),
        ensures
            match r {
                Some((i, model)) => {
                    &&& from <= i < entries@.len()
                    &&& entries@[i as int].primary()
                    &&& found_at(
                        self.supported_devices@,
                        entries@[i as int].vid,
                        entries@[i as int].pid,
                        Some(model),
                    )
                    &&& forall|j: int|
                        from <= j < i && (#[trigger] entries@[j]).primary() ==> found_at(
                            self.supported_devices@,
                            entries@[j].vid,
                            entries@[j].pid,
                            None,
                        )
                },
                None => forall|j: int|
                    from <= j < entries@.len() && (#[trigger] entries@[j]).primary() ==> found_at(
                        self.supported_devices@,
                        entries@[j].vid,
                        entries@[j].pid,
                        None,
                    ),
            },
    {
        let mut i: usize = from;
        while i < entries.len()
            invariant
                from <= i,
                forall|k: int|
                    from <= k < entries@.len() && (#[trigger] entries@[k]).primary()
                        ==> searchable(
                        self.supported_devices@,
                        entries@[k].vid,
                        entries@[k].pid,
                    ),
                forall|j: int|
                    from <= j < i && j < entries@.len() && (#[trigger] entries@[j]).primary()
                        ==> found_at(
                        self.supported_devices@,
                        entries@[j].vid,
                        entries@[j].pid,
                        None,
                    ),
            decreases entries@.len() - i,
        {
            if entries[i].is_primary() {
                if let Some(model) = self.find_supported_device(entries[i].vid, entries[i].pid) {
                    return Some((i, model));
                }
            }
            i = i + 1;
        }
        None
    }

    /// From `self`, attaching the laptop of model `model` leads to `post`;
    /// `changed` tells whether the configuration had to be repaired.
    pub open spec fn attaches(self, model: int, post: DeviceManager, changed: bool) -> bool {
        let m = self.supported_devices@[model];
        &&& post.device matches Some(d) && {
            &&& d.name@ == m.name@
            &&& d.features@ == m.features@
            &&& d.fan@ == m.fan@
            &&& d.pid == (match hex_u16(m.pid@) {
                Some(v) => v as u16,
                None => 0,
            })
            &&& d.power == 0 && d.fan_rpm == 0 && d.ac_state == 0 && d.transaction_id == 0
            &&& !d.allow_experimental && d.static_lighting
            &&& d.unsupported_cmds@.len() == 0
        }
        &&& post == (DeviceManager {
            device: post.device,
            config: post.config,
            ..self
        })
        &&& match self.config {
            Some(c) => {
                &&& post.config == Some(
                    crate::profile::repaired(c, Some(post.device->0.pid)),
                )
                &&& changed == !crate::profile::valid_on(
                    c,
                    Some(post.device->0.pid),
                )
            },
            None => post.config is None && !changed,
        }
    }

    /// Attaches the laptop of model `model`, and holds the configuration to
    /// the model. Tells whether that changed it, so that it has to be saved.
    pub fn attach(&mut self, model: usize) -> (changed: bool)
        requires
            model < old(self).supported_devices@.len(),
            old(self).supported_devices@[model as int].fan@.len() >= 2,
        ensures
            old(self).attaches(model as int, *final(self), changed),
            final(self).wf(),
    {
        let pid = self.supported_devices[model].pid_u16();
        let name = self.supported_devices[model].name.clone();
        let features = copy_texts(&self.supported_devices[model].features);
        let fan = self.supported_devices[model].fan.clone();
        assert(fan@ =~= self.supported_devices@[model as int].fan@);
        self.device = Some(RazerLaptop::new(name, features, fan, pid));
        self.enforce_model_law()
    }

    /// Holds the configuration to the attached model; tells whether that
    /// changed it.
    pub fn enforce_model_law(&mut self) -> (changed: bool)
        ensures
            match (old(self).device, old(self).config) {
                (Some(d), Some(c)) => {
                    &&& *final(self) == (DeviceManager {
                        config: Some(crate::profile::repaired(c, Some(d.pid))),
                        ..*old(self)
                    })
                    &&& changed == !crate::profile::valid_on(c, Some(d.pid))
                },
                _ => *final(self) == *old(self) && !changed,
            },
    {
        if let Some(d) = &self.device {
            let pid = d.get_pid();
            if let Some(cfg) = &mut self.config {
                return sanitize_loaded_config(cfg, Some(pid));
            }
        }
        false
    }

    /// From `self`, adopting what was loaded leads to `post`; `changed` tells
    /// whether it had to be repaired.
    pub open spec fn adopts(
        self,
        loaded: Option<Configuration>,
        post: DeviceManager,
        changed: bool,
    ) -> bool {
        &&& post == (DeviceManager { config: post.config, ..self })
        &&& match loaded {
            Some(c) => {
                &&& post.config == Some(crate::profile::repaired(c, None))
                &&& changed == !crate::profile::valid_on(c, None)
            },
            None => post.config matches Some(c) && c.is_factory() && !changed,
        }
    }

    /// Takes over the configuration that was loaded, or the factory defaults
    /// where none could be. What no model offers is reset; tells whether that
    /// changed it, so that it has to be saved.
    pub fn adopt_config(&mut self, loaded: Option<Configuration>) -> (changed: bool)
        ensures
            old(self).adopts(loaded, *final(self), changed),
    {
        match loaded {
            Some(c) => {
                let mut cfg = c;
                let changed = sanitize_loaded_config(&mut cfg, None);
                self.config = Some(cfg);
                changed
            },
            None => {
                self.config = Some(Configuration::new());
                false
            },
        }
    }
}

/// An attached laptop is the one of its model, on automatic and on battery until
/// told otherwise. A configuration that its model offers is kept as it is, and
/// one that changed is told.
pub proof fn an_attached_laptop_is_its_model(
    d: DeviceManager,
    model: int,
    post: DeviceManager,
    changed: bool,
)
    requires
        0 <= model < d.supported_devices@.len(),
        d.attaches(model, post, changed),
    ensures
        post.device matches Some(l) && {
            let m = d.supported_devices@[model];
            &&& l.name@ == m.name@ && l.features@ == m.features@ && l.fan@ == m.fan@
            &&& hex_u16(m.pid@) matches Some(v) ==> l.pid == v
            &&& l.power == 0 && l.fan_rpm == 0 && l.ac_state == 0 && l.transaction_id == 0
            &&& !l.allow_experimental && l.static_lighting && l.unsupported_cmds@.len() == 0
            &&& d.config matches Some(c) ==> {
                &&& crate::profile::valid_on(c, Some(l.pid)) ==> post.config == Some(c) && !changed
                &&& !crate::profile::valid_on(c, Some(l.pid)) ==> changed
                &&& post.config matches Some(p) && crate::profile::valid_on(p, Some(l.pid))
            }
        },
        d.config is None ==> post.config is None && !changed,
        post.supported_devices == d.supported_devices,
        post.fan_curve_established == d.fan_curve_established && post.fan_curve_last_rpm
            == d.fan_curve_last_rpm,
        post.active_domain == d.active_domain && post.last_applied_wire == d.last_applied_wire
            && post.last_key_press == d.last_key_press,
{
    if let Some(c) = d.config {
        crate::profile::repair_is_exact(c, Some(post.device->0.pid));
    }
}

/// A loaded configuration that some model offers is taken over as it is; without
/// one the factory defaults hold. Nothing else changes.
pub proof fn a_loaded_configuration_is_adopted(
    d: DeviceManager,
    loaded: Option<Configuration>,
    post: DeviceManager,
    changed: bool,
)
    requires
        d.adopts(loaded, post, changed),
    ensures
        loaded matches Some(c) ==> {
            &&& crate::profile::valid_on(c, None) ==> post.config == Some(c) && !changed
            &&& !crate::profile::valid_on(c, None) ==> changed
            &&& post.config matches Some(p) && crate::profile::valid_on(p, None)
        },
        loaded is None ==> !changed && (post.config matches Some(c) && c.is_factory()),
        post.device == d.device,
{
    if let Some(c) = loaded {
        crate::profile::repair_is_exact(c, None);
    }
}

/// After a laptop is attached the configuration holds only what its model
/// offers, so that only that can be applied.
pub proof fn attached_configuration_is_valid(c: Configuration, pid: u16)
    ensures
        crate::profile::valid_on(crate::profile::repaired(c, Some(pid)), Some(pid)),
{
    crate::profile::repair_is_exact(c, Some(pid));
}

/// A laptop is looked for on its first interface and under the vendor id of
/// Razer. The number that the enumeration gives counts; where it gives none,
/// the one of the interface file does.
pub proof fn only_the_first_interface_is_primary(e: HidEntry)
    ensures
        e.vid != 0x1532 ==> !e.primary(),
        e.iface > 0 ==> !e.primary(),
        e.vid == 0x1532 && e.iface == 0 ==> e.primary(),
        e.vid == 0x1532 && e.iface < 0 ==> (e.primary() <==> iface_in(e.sysfs_iface) == Some(0int)),
{
}

/// Among the nodes that are tried those with a lower interface number come
/// first, and one without a number comes behind every number below 999.
pub proof fn lower_interfaces_are_tried_first(nodes: Seq<HidrawNode>, a: int, b: int)
    requires
        0 <= a < nodes.len(),
        0 <= b < nodes.len(),
    ensures
        nodes[a].eligible() ==> (nodes[a].ids matches Some((vid, _)) && vid == 0x1532),
        ({
            let x = iface_in(nodes[a].sysfs_iface);
            let y = iface_in(nodes[b].sysfs_iface);
            &&& x is Some && y is Some && x->0 < y->0 ==> tried_before(nodes, a, b)
            &&& x is Some && y is None && x->0 < 999 ==> tried_before(nodes, a, b)
            &&& x == y && a < b ==> tried_before(nodes, a, b)
            &&& tried_before(nodes, a, b) ==> !tried_before(nodes, b, a)
        }),
{
}

} // verus!
