//! The device registry: what is configured, what was observed, and which monitor
//! may speak for a device.

use crate::addr::Ipv4;
use crate::log::Kind;
use crate::monitor::CancelToken;
use crate::notifier::EmailToken;
use crate::text::{decimal, push_decimal};
use crate::time::Timestamp;
use vstd::prelude::*;
use vstd::string::*;

verus! {

/// The number that names a device.
pub type DeviceId = u32;

/// Whether a service answers.
#[derive(Debug, Clone, Copy, PartialEq, Eq, Structural)]
pub enum ServiceStatus {
    Up,
    Down,
}

/// What is configured for a device.
#[derive(Debug)]
pub struct DeviceConf {
    pub id: DeviceId,
    pub name: Option<String>,
    pub ipv4: Option<Ipv4>,
    pub snmp: bool,
    pub snmp_community: Option<String>,
}

impl DeviceConf {
    /// The configuration of a device of which only the number is known.
    pub open spec fn blank(id: DeviceId) -> DeviceConf {
        DeviceConf { id, name: None, ipv4: None, snmp: false, snmp_community: None }
    }

    /// How the device is called in messages: by its name if it has one, else by
    /// its address if it has one, else by its number.
    pub open spec fn desc_text(&self) -> Seq<char> {
        match self.name {
            Some(name) => name@,
            None => match self.ipv4 {
                Some(ip) => ip.dotted(),
                None => "<device #"@ + decimal(self.id as nat) + ">"@,
            },
        }
    }

    /// How the device is called in messages.
    pub fn desc(&self) -> (text: String)
        ensures
            text@ == self.desc_text(),
    {
        if let Some(name) = &self.name {
            name.clone()
        } else if let Some(ipv4) = self.ipv4 {
            ipv4.to_text()
        } else {
            let mut text = String::from_str("<device #");
            push_decimal(&mut text, self.id);
            text.append(">");
            text
        }
    }
}

impl Default for DeviceConf {
    fn default() -> (conf: Self)
        ensures
            conf == DeviceConf::blank(0),
    {
        DeviceConf { id: 0, name: None, ipv4: None, snmp: false, snmp_community: None }
    }
}

impl Clone for DeviceConf {
    fn clone(&self) -> (other: Self)
        ensures
            other == *self,
    {
        let name = match &self.name {
            Some(name) => Some(name.clone()),
            None => None,
        };
        let snmp_community = match &self.snmp_community {
            Some(community) => Some(community.clone()),
            None => None,
        };
        DeviceConf { id: self.id, name, ipv4: self.ipv4, snmp: self.snmp, snmp_community }
    }
}

/// What is known of one service of a device: the status last observed and since
/// when, and the token of the monitor that observes it. No status means that
/// the service was never observed or is not monitored.
#[derive(Debug)]
pub struct Service {
    pub status: Option<(ServiceStatus, Timestamp)>,
    pub monitor: Option<CancelToken>,
}

impl Default for Service {
    fn default() -> (service: Self)
        ensures
            service.status is None,
            service.monitor is None,
    {
        Service { status: None, monitor: None }
    }
}

/// A device as the registry holds it.
#[derive(Debug)]
pub struct Device {
    pub conf: DeviceConf,
    pub icmpv4: Service,
}

impl Device {
    /// A device is monitored exactly while it has an address, and without an
    /// address it has no status.
    pub open spec fn wf(&self) -> bool {
        &&& self.conf.ipv4 is None ==> self.icmpv4.status is None
        &&& self.icmpv4.monitor is Some <==> self.conf.ipv4 is Some
    }

    /// The number of the token of the monitor that speaks for the device, if it
    /// has a monitor.
    pub open spec fn serial(&self) -> Option<u64> {
        match self.icmpv4.monitor {
            Some(token) => Some(token.serial()),
            None => None,
        }
    }

    /// The number of the token of the monitor that speaks for the device, if it
    /// has a monitor.
    pub fn monitor_number(&self) -> (serial: Option<u64>)
        ensures
            serial == self.serial(),
    {
        match &self.icmpv4.monitor {
            Some(token) => Some(token.number()),
            None => None,
        }
    }

    /// The device with number `id` before anything is configured or observed.
    pub open spec fn blank(id: DeviceId) -> Device {
        Device { conf: DeviceConf::blank(id), icmpv4: Service { status: None, monitor: None } }
    }

    /// Whether the device is well formed.
    pub fn well_formed(&self) -> (ok: bool)
        ensures
            ok == self.wf(),
    {
        let addressed = self.conf.ipv4.is_some();
        let monitored = self.icmpv4.monitor.is_some();
        let observed = self.icmpv4.status.is_some();
        monitored == addressed && (addressed || !observed)
    }

    /// A device with number `id`, no name, no address and no status.
    pub fn new(id: DeviceId) -> (device: Self)
        ensures
            device == Device::blank(id),
    {
        let mut conf: DeviceConf = Default::default();
        conf.id = id;
        Device { conf, icmpv4: Default::default() }
    }
}

/// What subscribers of the registry are told.
#[derive(Debug, Clone, Copy, PartialEq, Eq)]
pub enum DeviceChange {
    Added(DeviceId),
    Removed(DeviceId),
    IPv4Status {
        device: DeviceId,
        old: Option<(ServiceStatus, Timestamp)>,
        new: Option<(ServiceStatus, Timestamp)>,
    },
}

/// A monitor to start: the device it is for, the address to probe and the token
/// that will retire it.
#[derive(Debug)]
pub struct MonitorStart {
    pub device: DeviceId,
    pub ip: Ipv4,
    pub cancel: CancelToken,
}

/// What a change of a device's configuration does to its monitors: the token of
/// the monitor that was retired, and the monitor to start.
#[derive(Debug)]
pub struct MonitorSwitch {
    pub stopped: Option<CancelToken>,
    pub started: Option<MonitorStart>,
}

/// What the caller of `add` or `remove` has to carry out: the monitors to retire
/// and to start, and the event to broadcast.
#[derive(Debug)]
pub struct Update {
    pub switch: MonitorSwitch,
    pub event: DeviceChange,
}

/// What became of a monitor's request to record a status.
#[derive(Debug, Clone, Copy, PartialEq, Eq)]
pub enum Publication {
    /// The monitor may no longer speak for the device; nothing was recorded.
    Cancelled,
    /// The device already had that status, which is given; nothing was recorded.
    Unchanged(Option<(ServiceStatus, Timestamp)>),
    /// The status was recorded; the event is to be broadcast.
    Changed(DeviceChange),
}

/// One entry of the status stream: a device and its status.
#[derive(Debug, Clone, Copy, PartialEq, Eq)]
pub struct StatusUpdate {
    pub id: DeviceId,
    pub status: Option<(ServiceStatus, Timestamp)>,
}

/// Whether two optional addresses are the same.
pub fn same_address(a: &Option<Ipv4>, b: &Option<Ipv4>) -> (same: bool)
    ensures
        same == (*a == *b),
{
    match (a, b) {
        (Some(x), Some(y)) => *x == *y,
        (None, None) => true,
        _ => false,
    }
}

/// How `change` turns the device `before` into `after` when it is given `conf`,
/// and what it reports in `switch`. The configuration is replaced. While the
/// address stays what it was, status and monitor stay too. When the address
/// changes, the monitor's token, if there was one, is cancelled and handed out;
/// a new address gets a new monitor with a token of its own, numbered `issued`,
/// and keeps the status, and a device without an address has neither monitor nor
/// status.
pub open spec fn changed(
    before: Device,
    conf: DeviceConf,
    issued: u64,
    after: Device,
    switch: MonitorSwitch,
) -> bool {
    &&& after.conf == conf
    &&& if before.conf.ipv4 == conf.ipv4 {
        &&& after.icmpv4 == before.icmpv4
        &&& switch.stopped is None
        &&& switch.started is None
    } else {
        &&& switch.stopped == before.icmpv4.monitor
        &&& match conf.ipv4 {
            Some(ip) => {
                &&& after.icmpv4.status == before.icmpv4.status
                &&& switch.started matches Some(start)
                &&& start.device == conf.id
                &&& start.ip == ip
                &&& start.cancel.serial() == issued
                &&& after.icmpv4.monitor == Some(start.cancel)
            },
            None => {
                &&& after.icmpv4.status is None
                &&& after.icmpv4.monitor is None
                &&& switch.started is None
            },
        }
    }
}

/// How many monitors run for a device whose slot holds `monitor`.
pub open spec fn monitors(monitor: Option<CancelToken>) -> int {
    if monitor is Some {
        1
    } else {
        0
    }
}

/// A change of configuration keeps a device well formed, retires a monitor
/// exactly when it takes the token out of the device's slot, and never leaves a
/// device with more than one monitor: the monitors that run for it afterwards are
/// those that ran before, less the one retired, plus the one started.
pub proof fn lemma_one_monitor(
    before: Device,
    conf: DeviceConf,
    issued: u64,
    after: Device,
    switch: MonitorSwitch,
)
    requires
        before.wf(),
        changed(before, conf, issued, after, switch),
    ensures
        after.wf(),
        monitors(after.icmpv4.monitor) == monitors(before.icmpv4.monitor) - monitors(
            switch.stopped,
        ) + (if switch.started is Some {
            1int
        } else {
            0int
        }),
        0 <= monitors(after.icmpv4.monitor) <= 1,
        switch.started is Some ==> switch.stopped == before.icmpv4.monitor,
{
}

/// What recording `candidate` at `now` makes of the device `before`, and what it
/// answers, when the monitor's token read `cancelled`. A cancelled monitor, and
/// one whose device has no monitor, record nothing. A status that the device
/// already has is not recorded again. Otherwise the status is recorded and the
/// change is reported with the status that it replaces.
pub open spec fn recorded(
    before: Device,
    cancelled: bool,
    candidate: ServiceStatus,
    now: Timestamp,
) -> (Device, Publication) {
    if cancelled || before.icmpv4.monitor is None {
        (before, Publication::Cancelled)
    } else if before.icmpv4.status matches Some(s) && s.0 == candidate {
        (before, Publication::Unchanged(before.icmpv4.status))
    } else {
        (
            Device {
                conf: before.conf,
                icmpv4: Service {
                    status: Some((candidate, now)),
                    monitor: before.icmpv4.monitor,
                },
            },
            Publication::Changed(
                DeviceChange::IPv4Status {
                    device: before.conf.id,
                    old: before.icmpv4.status,
                    new: Some((candidate, now)),
                },
            ),
        )
    }
}

/// Every status event that is published replaces a status by a different one:
/// the new status is present, and where an old one is present the two differ in
/// whether the device is up.
pub proof fn lemma_published_differs(
    before: Device,
    cancelled: bool,
    candidate: ServiceStatus,
    now: Timestamp,
)
    ensures
        recorded(before, cancelled, candidate, now).1 matches Publication::Changed(event) ==> {
            &&& event matches DeviceChange::IPv4Status { device, old, new }
            &&& device == before.conf.id
            &&& old != new
            &&& new matches Some(n)
            &&& n.0 == candidate
            &&& old matches Some(o) ==> o.0 != n.0
        },
        before.wf() ==> recorded(before, cancelled, candidate, now).0.wf(),
{
}

/// The entry of the status stream that `change` gives rise to: a status event
/// gives the device with its new status, any other event gives nothing.
pub open spec fn status_frame_of(change: DeviceChange) -> Option<StatusUpdate> {
    match change {
        DeviceChange::IPv4Status { device, old, new } => Some(
            StatusUpdate { id: device, status: new },
        ),
        _ => None,
    }
}

/// The entry of the status stream that `change` gives rise to.
pub fn status_frame(change: &DeviceChange) -> (frame: Option<StatusUpdate>)
    ensures
        frame == status_frame_of(*change),
{
    match change {
        DeviceChange::IPv4Status { device, old, new } => Some(
            StatusUpdate { id: *device, status: *new },
        ),
        _ => None,
    }
}

/// The text of the log line for a status word: `up` or `down`.
pub open spec fn verb_text(status: ServiceStatus) -> Seq<char> {
    match status {
        ServiceStatus::Up => "up"@,
        ServiceStatus::Down => "down"@,
    }
}

/// The word for a status: `up` or `down`.
pub fn verb(status: ServiceStatus) -> (word: &'static str)
    ensures
        word@ == verb_text(status),
{
    match status {
        ServiceStatus::Up => "up",
        ServiceStatus::Down => "down",
    }
}

/// The registry: the devices in the order in which they were added, the email
/// token, and how many monitors were ordered so far, which is the number that
/// the next monitor's token will get.
#[derive(Debug)]
pub struct Devices {
    pub list: Vec<Device>,
    pub last_email: EmailToken,
    pub issued: u64,
}

impl Devices {
    /// Whether a device with number `id` is in the list.
    pub open spec fn has_id(&self, id: DeviceId) -> bool {
        exists|i: int| 0 <= i < self.list@.len() && (#[trigger] self.list@[i]).conf.id == id
    }

    /// The place in the list of a device with number `id`.
    pub open spec fn index_of(&self, id: DeviceId) -> int {
        choose|i: int| 0 <= i < self.list@.len() && (#[trigger] self.list@[i]).conf.id == id
    }

    /// No two devices have the same number, every device is well formed, and the
    /// tokens in the list are numbered below `issued`, no two of them alike.
    pub open spec fn wf(&self) -> bool {
        &&& forall|i: int, j: int|
            0 <= i < j < self.list@.len() ==> (#[trigger] self.list@[i]).conf.id != (
            #[trigger] self.list@[j]).conf.id
        &&& forall|i: int| 0 <= i < self.list@.len() ==> (#[trigger] self.list@[i]).wf()
        &&& forall|i: int|
            0 <= i < self.list@.len() ==> ((#[trigger] self.list@[i]).serial() matches Some(s)
                ==> s < self.issued)
        &&& forall|i: int, j: int|
            0 <= i < j < self.list@.len() && (#[trigger] self.list@[i]).serial() is Some ==> self.list@[i].serial()
                != (#[trigger] self.list@[j]).serial()
    }

    /// Whether the token numbered `serial` was handed out and is retired: no device
    /// has it any more.
    pub open spec fn retired(&self, serial: u64) -> bool {
        &&& serial < self.issued
        &&& forall|i: int|
            0 <= i < self.list@.len() ==> (#[trigger] self.list@[i]).serial() != Some(serial)
    }

    /// Whether `token` is the token of the monitor that speaks for the device with
    /// number `id`.
    pub open spec fn speaks_for(&self, id: DeviceId, token: CancelToken) -> bool {
        self.has_id(id) && self.list@[self.index_of(id)].serial() == Some(token.serial())
    }

    /// Whether giving the device with number `id` the configuration `conf` orders
    /// a monitor: it does when that gives the device an address that it did not
    /// have. Only then is a token numbered, for which the count of tokens must not
    /// have reached the last number.
    pub open spec fn orders_monitor(&self, id: DeviceId, conf: DeviceConf) -> bool {
        &&& self.has_id(id)
        &&& conf.ipv4 is Some
        &&& self.list@[self.index_of(id)].conf.ipv4 != conf.ipv4
    }

    /// What an operation on the registry never undoes: monitors that were ordered
    /// stay counted, and tokens that were retired stay retired.
    pub open spec fn follows(&self, before: Devices) -> bool {
        &&& before.issued <= self.issued
        &&& forall|serial: u64| #[trigger] before.retired(serial) ==> self.retired(serial)
    }

    /// An empty registry whose email token counts as handed back at `now`.
    pub fn new(now: Timestamp) -> (devices: Self)
        ensures
            devices.wf(),
            devices.list@ == Seq::<Device>::empty(),
            devices.last_email.last == Some(now),
            devices.issued == 0,
    {
        Devices { list: Vec::new(), last_email: EmailToken::new(now), issued: 0 }
    }

    /// Whether the registry is well formed, looked up device by device: for one
    /// who filled the registry by hand or from a file.
    pub fn well_formed(&self) -> (ok: bool)
        ensures
            ok == self.wf(),
    {
        let n = self.list.len();
        let mut i: usize = 0;
        while i < n
            invariant
                i <= n,
                n == self.list@.len(),
                forall|a: int, b: int|
                    0 <= a < b < i ==> (#[trigger] self.list@[a]).conf.id != (
                    #[trigger] self.list@[b]).conf.id,
                forall|a: int| 0 <= a < i ==> (#[trigger] self.list@[a]).wf(),
                forall|a: int|
                    0 <= a < i ==> ((#[trigger] self.list@[a]).serial() matches Some(s) ==> s
                        < self.issued),
                forall|a: int, b: int|
                    0 <= a < b < i && (#[trigger] self.list@[a]).serial() is Some
                        ==> self.list@[a].serial() != (#[trigger] self.list@[b]).serial(),
            decreases n - i,
        {
            if !self.list[i].well_formed() {
                assert(!self.list@[i as int].wf());
                return false;
            }
            let id = self.list[i].conf.id;
            let serial = self.list[i].monitor_number();
            match serial {
                Some(s) => {
                    if s >= self.issued {
                        assert(self.list@[i as int].serial() == Some(s));
                        return false;
                    }
                },
                None => {},
            }
            let mut j: usize = 0;
            while j < i
                invariant
                    j <= i < n,
                    n == self.list@.len(),
                    id == self.list@[i as int].conf.id,
                    serial == self.list@[i as int].serial(),
                    forall|b: int| 0 <= b < j ==> (#[trigger] self.list@[b]).conf.id != id,
                    forall|b: int|
                        0 <= b < j && (#[trigger] self.list@[b]).serial() is Some
                            ==> self.list@[b].serial() != serial,
                decreases i - j,
            {
                if self.list[j].conf.id == id {
                    assert(self.list@[j as int].conf.id == self.list@[i as int].conf.id);
                    return false;
                }
                let other = self.list[j].monitor_number();
                let alike = match (other, serial) {
                    (Some(x), Some(y)) => x == y,
                    _ => false,
                };
                if alike {
                    assert(self.list@[j as int].serial() is Some);
                    assert(self.list@[j as int].serial() == self.list@[i as int].serial());
                    return false;
                }
                j = j + 1;
            }
            i = i + 1;
        }
        true
    }

    /// Whether a device with number `id` is in the list.
    pub fn has(&self, id: DeviceId) -> (found: bool)
        ensures
            found == self.has_id(id),
    {
        self.device_index(id).is_some()
    }

    /// Whether `i` is the first place in the list at which a device with number
    /// `id` stands.
    pub open spec fn is_first(&self, i: int, id: DeviceId) -> bool {
        &&& 0 <= i < self.list@.len()
        &&& self.list@[i].conf.id == id
        &&& forall|j: int| 0 <= j < i ==> (#[trigger] self.list@[j]).conf.id != id
    }

    /// The first place in the list at which a device with number `id` stands. In
    /// a well-formed registry it is the only one, `index_of(id)`.
    pub open spec fn first_place(&self, id: DeviceId) -> int {
        choose|i: int| #[trigger] self.is_first(i, id)
    }

    /// The place in the list of the first device with number `id`, if there is
    /// one.
    pub fn device_index(&self, id: DeviceId) -> (index: Option<usize>)
        ensures
            match index {
                Some(i) => self.is_first(i as int, id) && i == self.first_place(id),
                None => !self.has_id(id),
            },
            index is Some <==> self.has_id(id),
            self.wf() && index is Some ==> index.unwrap() == self.index_of(id),
    {
        let mut i: usize = 0;
        while i < self.list.len()
            invariant
                i <= self.list@.len(),
                forall|j: int| 0 <= j < i ==> (#[trigger] self.list@[j]).conf.id != id,
            decreases self.list@.len() - i,
        {
            if self.list[i].conf.id == id {
                proof {
                    assert(self.is_first(i as int, id));
                    let first = self.first_place(id);
                    assert(self.is_first(first, id));
                    assert(first == i) by {
                        if first < i {
                            assert(self.list@[first].conf.id != id);
                        } else if i < first {
                            assert(self.list@[i as int].conf.id != id);
                        }
                    }
                    let k = self.index_of(id);
                    if self.wf() {
                        assert(self.list@[k].conf.id == id);
                        assert(k == i);
                    }
                }
                return Some(i);
            }
            i = i + 1;
        }
        None
    }

    /// The device with number `id`: the first in the list that has it.
    pub fn device(&self, id: DeviceId) -> (device: &Device)
        requires
            self.has_id(id),
        ensures
            device.conf.id == id,
            self.is_first(self.first_place(id), id),
            *device == self.list@[self.first_place(id)],
            self.wf() ==> *device == self.list@[self.index_of(id)],
    {
        let index = self.device_index(id).unwrap();
        &self.list[index]
    }

    /// The smallest number that no device in the list has.
    pub fn new_device_id(&self) -> (id: DeviceId)
        requires
            self.list@.len() <= u32::MAX,
        ensures
            !self.has_id(id),
            forall|j: DeviceId| j < id ==> self.has_id(j),
    {
        let mut id: DeviceId = 0;
        while self.device_index(id).is_some()
            invariant
                self.list@.len() <= u32::MAX,
                forall|j: DeviceId| j < id ==> self.has_id(j),
                id <= self.list@.len(),
            decreases u32::MAX - id,
        {
            proof {
                let ids = numbers(self.list@);
                assert forall|j: DeviceId| j < id + 1 implies ids.contains(j) by {
                    assert(self.has_id(j));
                    let i = choose|i: int|
                        0 <= i < self.list@.len() && (#[trigger] self.list@[i]).conf.id == j;
                    assert(ids[i] == j);
                }
                lemma_numbers_fit(ids, id + 1);
            }
            id = id + 1;
        }
        id
    }

    /// Whether giving the device with number `id` the configuration `conf` orders
    /// a monitor.
    pub fn orders(&self, id: DeviceId, conf: &DeviceConf) -> (ordered: bool)
        requires
            self.wf(),
        ensures
            ordered == self.orders_monitor(id, *conf),
    {
        match self.device_index(id) {
            Some(index) => conf.ipv4.is_some() && !same_address(
                &self.list[index].conf.ipv4,
                &conf.ipv4,
            ),
            None => false,
        }
    }

    /// Replaces the configuration of the device with number `id` by `conf`. When
    /// that changes the device's address, the monitor of the old address is
    /// cancelled and one for the new address is ordered; see `changed`. The token
    /// of the monitor that was cancelled is retired for good.
    pub fn change(&mut self, id: DeviceId, conf: DeviceConf) -> (switch: MonitorSwitch)
        requires
            old(self).wf(),
            old(self).has_id(id),
            conf.id == id || !old(self).has_id(conf.id),
            old(self).orders_monitor(id, conf) ==> old(self).issued < u64::MAX,
        ensures
            final(self).wf(),
            final(self).follows(*old(self)),
            final(self).last_email == old(self).last_email,
            final(self).issued == old(self).issued + (if switch.started is Some {
                1int
            } else {
                0int
            }),
            final(self).list@.len() == old(self).list@.len(),
            forall|j: int|
                0 <= j < old(self).list@.len() && j != old(self).index_of(id)
                    ==> final(self).list@[j] == old(self).list@[j],
            changed(
                old(self).list@[old(self).index_of(id)],
                conf,
                old(self).issued,
                final(self).list@[old(self).index_of(id)],
                switch,
            ),
            switch.stopped matches Some(token) ==> final(self).retired(token.serial()),
            forall|other: DeviceId|
                final(self).has_id(other) == (other == conf.id || (other != id && old(
                    self,
                ).has_id(other))),
    {
        let index = self.device_index(id).unwrap();
        let ghost at = self.index_of(id);
        let ghost before = self.list@[at];
        let status = self.list[index].icmpv4.status;
        let mut switch = MonitorSwitch { stopped: None, started: None };
        let service = if same_address(&self.list[index].conf.ipv4, &conf.ipv4) {
            let monitor = match &self.list[index].icmpv4.monitor {
                Some(token) => Some(token.clone()),
                None => None,
            };
            Service { status, monitor }
        } else {
            match &self.list[index].icmpv4.monitor {
                Some(token) => {
                    token.cancel();
                    switch.stopped = Some(token.clone());
                },
                None => {},
            }
            match conf.ipv4 {
                Some(ip) => {
                    let token = CancelToken::numbered(self.issued);
                    self.issued = self.issued + 1;
                    switch.started = Some(
                        MonitorStart { device: conf.id, ip, cancel: token.clone() },
                    );
                    Service { status, monitor: Some(token) }
                },
                None => Service { status: None, monitor: None },
            }
        };
        self.list.push(Device { conf, icmpv4: service });
        self.list.swap_remove(index);
        proof {
            let after = self.list@[at];
            assert(changed(before, conf, old(self).issued, after, switch));
            lemma_one_monitor(before, conf, old(self).issued, after, switch);
            assert forall|i: int, j: int| 0 <= i < j < self.list@.len() implies (
            #[trigger] self.list@[i]).conf.id != (#[trigger] self.list@[j]).conf.id by {
                let a = old(self).list@[i];
                let b = old(self).list@[j];
                assert(a.conf.id != b.conf.id);
            }
            assert forall|i: int| 0 <= i < self.list@.len() implies ((
            #[trigger] self.list@[i]).serial() matches Some(s) ==> s < self.issued) by {
                let a = old(self).list@[i];
                assert(a.serial() matches Some(s) ==> s < old(self).issued);
            }
            assert forall|i: int, j: int|
                0 <= i < j < self.list@.len() && (
                #[trigger] self.list@[i]).serial() is Some implies self.list@[i].serial() != (
            #[trigger] self.list@[j]).serial() by {
                let a = old(self).list@[i];
                let b = old(self).list@[j];
                assert(a.serial() is Some ==> a.serial() != b.serial());
                assert(a.serial() matches Some(s) ==> s < old(self).issued);
                assert(b.serial() matches Some(s) ==> s < old(self).issued);
            }
            assert forall|serial: u64| #[trigger] old(self).retired(serial) implies self.retired(
                serial,
            ) by {
                assert forall|i: int| 0 <= i < self.list@.len() implies (
                #[trigger] self.list@[i]).serial() != Some(serial) by {
                    assert(old(self).list@[i].serial() != Some(serial));
                }
            }
            if switch.stopped is Some {
                let gone = switch.stopped->0.serial();
                assert(before.serial() == Some(gone));
                assert forall|i: int| 0 <= i < self.list@.len() implies (
                #[trigger] self.list@[i]).serial() != Some(gone) by {
                    let a = old(self).list@[i];
                    if i < at {
                        assert(a.serial() is Some ==> a.serial() != before.serial());
                    } else if at < i {
                        assert(before.serial() != a.serial());
                    }
                }
            }
            assert forall|other: DeviceId|
                self.has_id(other) == (other == conf.id || (other != id && old(self).has_id(
                    other,
                ))) by {
                assert(self.list@[at].conf.id == conf.id);
                if old(self).has_id(other) && other != id {
                    let k = old(self).index_of(other);
                    assert(old(self).list@[k].conf.id == other);
                    assert(self.list@[k].conf.id == other);
                }
                if self.has_id(other) && other != conf.id {
                    let k = self.index_of(other);
                    assert(self.list@[k].conf.id == other);
                    assert(old(self).list@[k].conf.id == other);
                    if other == id {
                        assert(old(self).list@[at].conf.id == id);
                        lemma_unique_ids(*old(self), id);
                    }
                }
            }
        }
        switch
    }

    /// Appends a device with the configuration `conf`, orders its monitor if it
    /// has an address, and announces it.
    pub fn add(&mut self, conf: DeviceConf) -> (update: Update)
        requires
            old(self).wf(),
            !old(self).has_id(conf.id),
            conf.ipv4 is Some ==> old(self).issued < u64::MAX,
        ensures
            final(self).wf(),
            final(self).follows(*old(self)),
            final(self).last_email == old(self).last_email,
            final(self).issued == old(self).issued + (if update.switch.started is Some {
                1int
            } else {
                0int
            }),
            final(self).list@.len() == old(self).list@.len() + 1,
            forall|j: int|
                0 <= j < old(self).list@.len() ==> final(self).list@[j] == old(self).list@[j],
            changed(
                Device::blank(conf.id),
                conf,
                old(self).issued,
                final(self).list@.last(),
                update.switch,
            ),
            update.switch.stopped is None,
            update.event == DeviceChange::Added(conf.id),
            forall|other: DeviceId|
                final(self).has_id(other) == (other == conf.id || old(self).has_id(other)),
    {
        let id = conf.id;
        self.list.push(Device::new(id));
        proof {
            let last = self.list@.len() - 1;
            assert(self.list@[last].conf.id == id);
            assert(self.list@[last].serial() is None);
            assert forall|i: int, j: int| 0 <= i < j < self.list@.len() implies (
            #[trigger] self.list@[i]).conf.id != (#[trigger] self.list@[j]).conf.id by {
                if j == last {
                    assert(old(self).list@[i].conf.id != id);
                } else {
                    assert(old(self).list@[i].conf.id != old(self).list@[j].conf.id);
                }
            }
            assert forall|i: int| 0 <= i < self.list@.len() implies (
            #[trigger] self.list@[i]).wf() by {
                if i < last {
                    assert(old(self).list@[i].wf());
                }
            }
            assert forall|i: int| 0 <= i < self.list@.len() implies ((
            #[trigger] self.list@[i]).serial() matches Some(s) ==> s < self.issued) by {
                if i < last {
                    assert(old(self).list@[i].serial() matches Some(s) ==> s < old(self).issued);
                }
            }
            assert forall|i: int, j: int|
                0 <= i < j < self.list@.len() && (
                #[trigger] self.list@[i]).serial() is Some implies self.list@[i].serial() != (
            #[trigger] self.list@[j]).serial() by {
                if j < last {
                    assert(old(self).list@[i].serial() is Some ==> old(self).list@[i].serial()
                        != old(self).list@[j].serial());
                }
            }
            assert(self.wf());
            assert(self.has_id(id));
            let k = self.index_of(id);
            assert(self.list@[k].conf.id == id);
            if k != last {
                assert(old(self).list@[k].conf.id == id);
            }
            assert forall|serial: u64| #[trigger] old(self).retired(serial) implies self.retired(
                serial,
            ) by {
                assert forall|i: int| 0 <= i < self.list@.len() implies (
                #[trigger] self.list@[i]).serial() != Some(serial) by {
                    if i < last {
                        assert(old(self).list@[i].serial() != Some(serial));
                    }
                }
            }
        }
        let ghost grown = *self;
        let switch = self.change(id, conf);
        proof {
            assert forall|serial: u64| #[trigger] old(self).retired(serial) implies self.retired(
                serial,
            ) by {
                assert(grown.retired(serial));
            }
            assert forall|other: DeviceId|
                self.has_id(other) == (other == id || old(self).has_id(other)) by {
                if old(self).has_id(other) {
                    let k = old(self).index_of(other);
                    assert(old(self).list@[k].conf.id == other);
                    assert(grown.list@[k].conf.id == other);
                }
                if grown.has_id(other) && other != id {
                    let k = grown.index_of(other);
                    assert(grown.list@[k].conf.id == other);
                    assert(old(self).list@[k].conf.id == other);
                }
            }
        }
        Update { switch, event: DeviceChange::Added(id) }
    }

    /// Appends a device with the configuration `conf` under the smallest number
    /// that no device has, whatever number `conf` came with, orders its monitor if
    /// it has an address, and announces it: what becomes of a device that is
    /// handed in from outside.
    pub fn add_new(&mut self, conf: DeviceConf) -> (update: Update)
        requires
            old(self).wf(),
            old(self).list@.len() <= u32::MAX,
            conf.ipv4 is Some ==> old(self).issued < u64::MAX,
        ensures
            final(self).wf(),
            final(self).follows(*old(self)),
            final(self).last_email == old(self).last_email,
            final(self).issued == old(self).issued + (if update.switch.started is Some {
                1int
            } else {
                0int
            }),
            final(self).list@.len() == old(self).list@.len() + 1,
            forall|j: int|
                0 <= j < old(self).list@.len() ==> final(self).list@[j] == old(self).list@[j],
            update.switch.stopped is None,
            update.event matches DeviceChange::Added(id) && {
                &&& !old(self).has_id(id)
                &&& forall|j: DeviceId| j < id ==> old(self).has_id(j)
                &&& changed(
                    Device::blank(id),
                    DeviceConf { id, ..conf },
                    old(self).issued,
                    final(self).list@.last(),
                    update.switch,
                )
                &&& forall|other: DeviceId|
                    final(self).has_id(other) == (other == id || old(self).has_id(other))
            },
    {
        let id = self.new_device_id();
        let mut conf = conf;
        conf.id = id;
        self.add(conf)
    }

    /// Records that a monitor of the device with number `id` found it `candidate` at
    /// `now`, unless `cancelled`, the reading of the monitor's token taken while the
    /// registry is held, says that the monitor was retired. See `recorded`.
    pub fn record_status(
        &mut self,
        id: DeviceId,
        cancelled: bool,
        candidate: ServiceStatus,
        now: Timestamp,
    ) -> (outcome: Publication)
        requires
            old(self).wf(),
        ensures
            final(self).wf(),
            final(self).follows(*old(self)),
            record_post(*old(self), *final(self), id, cancelled, candidate, now, outcome),
            forall|other: DeviceId| final(self).has_id(other) == old(self).has_id(other),
    {
        let index = match self.device_index(id) {
            Some(index) => index,
            None => {
                return Publication::Cancelled;
            },
        };
        let ghost at = self.index_of(id);
        let ghost before = self.list@[at];
        let device = &self.list[index];
        let monitor = match &device.icmpv4.monitor {
            Some(token) => token.clone(),
            None => {
                assert(self.list@ =~= old(self).list@.update(at, before));
                return Publication::Cancelled;
            },
        };
        if cancelled {
            assert(self.list@ =~= old(self).list@.update(at, before));
            return Publication::Cancelled;
        }
        let status = device.icmpv4.status;
        let same = match status {
            Some(s) => s.0 == candidate,
            None => false,
        };
        if same {
            assert(self.list@ =~= old(self).list@.update(at, before));
            return Publication::Unchanged(status);
        }
        let conf = device.conf.clone();
        let new = Some((candidate, now));
        self.list.push(Device { conf, icmpv4: Service { status: new, monitor: Some(monitor) } });
        self.list.swap_remove(index);
        proof {
            lemma_published_differs(before, cancelled, candidate, now);
            assert(self.list@ =~= old(self).list@.update(
                at,
                recorded(before, cancelled, candidate, now).0,
            ));
            assert forall|i: int, j: int| 0 <= i < j < self.list@.len() implies (
            #[trigger] self.list@[i]).conf.id != (#[trigger] self.list@[j]).conf.id by {
                assert(old(self).list@[i].conf.id != old(self).list@[j].conf.id);
            }
            assert forall|i: int| 0 <= i < self.list@.len() implies (
            #[trigger] self.list@[i]).wf() by {
                assert(old(self).list@[i].wf());
            }
            assert forall|i: int| 0 <= i < self.list@.len() implies (
            #[trigger] self.list@[i]).serial() == old(self).list@[i].serial() by {}
            assert forall|i: int| 0 <= i < self.list@.len() implies ((
            #[trigger] self.list@[i]).serial() matches Some(s) ==> s < self.issued) by {
                assert(old(self).list@[i].serial() matches Some(s) ==> s < old(self).issued);
            }
            assert forall|i: int, j: int|
                0 <= i < j < self.list@.len() && (
                #[trigger] self.list@[i]).serial() is Some implies self.list@[i].serial() != (
            #[trigger] self.list@[j]).serial() by {
                assert(old(self).list@[i].serial() is Some ==> old(self).list@[i].serial()
                    != old(self).list@[j].serial());
            }
            assert forall|serial: u64| #[trigger] old(self).retired(serial) implies self.retired(
                serial,
            ) by {
                assert forall|i: int| 0 <= i < self.list@.len() implies (
                #[trigger] self.list@[i]).serial() != Some(serial) by {
                    assert(old(self).list@[i].serial() != Some(serial));
                }
            }
        }
        proof {
            assert forall|other: DeviceId| self.has_id(other) == old(self).has_id(other) by {
                if old(self).has_id(other) {
                    let k = old(self).index_of(other);
                    assert(old(self).list@[k].conf.id == other);
                    assert(self.list@[k].conf.id == other);
                }
                if self.has_id(other) {
                    let k = self.index_of(other);
                    assert(self.list@[k].conf.id == other);
                    assert(old(self).list@[k].conf.id == other);
                }
            }
        }
        Publication::Changed(DeviceChange::IPv4Status { device: id, old: status, new })
    }

    /// Records that the monitor that holds `token` found the device with number
    /// `id` `candidate` at `now`. A token that is not the one of the device's
    /// monitor belongs to a monitor that was retired, and records nothing. The
    /// token of the device's monitor is read, and the status is recorded as
    /// `record_status` does for that reading; since others may set the flag at any
    /// moment, which of the two readings is taken is not known beforehand.
    pub fn record_probe(
        &mut self,
        id: DeviceId,
        token: &CancelToken,
        candidate: ServiceStatus,
        now: Timestamp,
    ) -> (outcome: Publication)
        requires
            old(self).wf(),
        ensures
            final(self).wf(),
            final(self).follows(*old(self)),
            record_post(*old(self), *final(self), id, true, candidate, now, outcome)
                || (old(self).speaks_for(id, *token) && record_post(
                *old(self),
                *final(self),
                id,
                false,
                candidate,
                now,
                outcome,
            )),
            forall|other: DeviceId| final(self).has_id(other) == old(self).has_id(other),
    {
        let current = match self.device_index(id) {
            Some(index) => match self.list[index].monitor_number() {
                Some(serial) => serial == token.number(),
                None => false,
            },
            None => false,
        };
        let cancelled = !current || token.cancelled();
        self.record_status(id, cancelled, candidate, now)
    }

    /// Copies of the configurations of all devices, in the order of the list: what
    /// is written to disk and what the list of devices is answered with.
    pub fn confs(&self) -> (confs: Vec<DeviceConf>)
        ensures
            confs@ == confs_of(self.list@),
    {
        let mut confs: Vec<DeviceConf> = Vec::new();
        let mut i: usize = 0;
        while i < self.list.len()
            invariant
                i <= self.list@.len(),
                confs@.len() == i,
                forall|j: int| 0 <= j < i ==> confs@[j] == (#[trigger] self.list@[j]).conf,
            decreases self.list@.len() - i,
        {
            confs.push(self.list[i].conf.clone());
            i = i + 1;
        }
        assert(confs@ =~= confs_of(self.list@));
        confs
    }

    /// Every device's number with its status, in the order of the list: the first
    /// frame of a status stream.
    pub fn snapshot(&self) -> (frame: Vec<StatusUpdate>)
        ensures
            frame@ == snapshot_of(self.list@),
    {
        let mut frame: Vec<StatusUpdate> = Vec::new();
        let mut i: usize = 0;
        while i < self.list.len()
            invariant
                i <= self.list@.len(),
                frame@.len() == i,
                forall|j: int|
                    0 <= j < i ==> frame@[j] == (StatusUpdate {
                        id: (#[trigger] self.list@[j]).conf.id,
                        status: self.list@[j].icmpv4.status,
                    }),
            decreases self.list@.len() - i,
        {
            let device = &self.list[i];
            frame.push(StatusUpdate { id: device.conf.id, status: device.icmpv4.status });
            i = i + 1;
        }
        assert(frame@ =~= snapshot_of(self.list@));
        frame
    }

    /// The log line for `change`, if it is one that is logged and passed on to the
    /// notifiers: see `notice_of`.
    pub fn notify(&self, change: &DeviceChange) -> (notice: Option<(Kind, String)>)
        requires
            self.wf(),
            notice_device(*change) matches Some(device) ==> self.has_id(device),
        ensures
            notice is Some <==> notice_device(*change) is Some,
            notice_device(*change) matches Some(device) ==> {
                let desc = self.list@[self.index_of(device)].conf.desc_text();
                &&& notice_of(*change, desc) matches Some(line)
                &&& notice matches Some(n)
                &&& n.0 == line.0
                &&& n.1@ == line.1
            },
    {
        match change {
            DeviceChange::IPv4Status { device, old: Some(_), new: Some(new) } => {
                let desc = self.device(*device).conf.desc();
                let mut text = String::from_str("Device ");
                text.append(desc.as_str());
                match new.0 {
                    ServiceStatus::Up => {
                        text.append(" is up");
                        Some((Kind::Note, text))
                    },
                    ServiceStatus::Down => {
                        text.append(" is down");
                        Some((Kind::Error, text))
                    },
                }
            },
            _ => None,
        }
    }

    /// Cancels the monitor of the device with number `id`, takes the device out
    /// of the list, and announces that. The token of the monitor is retired for
    /// good.
    pub fn remove(&mut self, id: DeviceId) -> (update: Update)
        requires
            old(self).wf(),
            old(self).has_id(id),
        ensures
            final(self).wf(),
            final(self).follows(*old(self)),
            final(self).last_email == old(self).last_email,
            final(self).issued == old(self).issued,
            final(self).list@ == old(self).list@.remove(old(self).index_of(id)),
            !final(self).has_id(id),
            update.switch.stopped == old(self).list@[old(self).index_of(id)].icmpv4.monitor,
            update.switch.stopped matches Some(token) ==> final(self).retired(token.serial()),
            update.switch.started is None,
            update.event == DeviceChange::Removed(id),
            forall|other: DeviceId|
                final(self).has_id(other) == (other != id && old(self).has_id(other)),
    {
        let index = self.device_index(id).unwrap();
        let ghost at = self.index_of(id);
        match &self.list[index].icmpv4.monitor {
            Some(token) => {
                token.cancel();
            },
            None => {},
        }
        let device = self.list.remove(index);
        proof {
            assert forall|i: int, j: int| 0 <= i < j < self.list@.len() implies (
            #[trigger] self.list@[i]).conf.id != (#[trigger] self.list@[j]).conf.id by {
                let a = if i < index { i } else { i + 1 };
                let b = if j < index { j } else { j + 1 };
                assert(old(self).list@[a].conf.id != old(self).list@[b].conf.id);
            }
            assert forall|i: int| 0 <= i < self.list@.len() implies (
            #[trigger] self.list@[i]).wf() by {
                let a = if i < index { i } else { i + 1 };
                assert(old(self).list@[a].wf());
            }
            assert forall|i: int| 0 <= i < self.list@.len() implies (
            #[trigger] self.list@[i]).conf.id != id by {
                let a = if i < index { i } else { i + 1 };
                assert(old(self).list@[a].conf.id != old(self).list@[at].conf.id);
            }
            assert forall|i: int| 0 <= i < self.list@.len() implies ((
            #[trigger] self.list@[i]).serial() matches Some(s) ==> s < self.issued) by {
                let a = if i < index { i } else { i + 1 };
                assert(old(self).list@[a].serial() matches Some(s) ==> s < old(self).issued);
            }
            assert forall|i: int, j: int|
                0 <= i < j < self.list@.len() && (
                #[trigger] self.list@[i]).serial() is Some implies self.list@[i].serial() != (
            #[trigger] self.list@[j]).serial() by {
                let a = if i < index { i } else { i + 1 };
                let b = if j < index { j } else { j + 1 };
                assert(old(self).list@[a].serial() is Some ==> old(self).list@[a].serial()
                    != old(self).list@[b].serial());
            }
            assert forall|serial: u64| #[trigger] old(self).retired(serial) implies self.retired(
                serial,
            ) by {
                assert forall|i: int| 0 <= i < self.list@.len() implies (
                #[trigger] self.list@[i]).serial() != Some(serial) by {
                    let a = if i < index { i } else { i + 1 };
                    assert(old(self).list@[a].serial() != Some(serial));
                }
            }
            assert forall|other: DeviceId|
                self.has_id(other) == (other != id && old(self).has_id(other)) by {
                if old(self).has_id(other) && other != id {
                    let k = old(self).index_of(other);
                    assert(old(self).list@[k].conf.id == other);
                    let a = if k < at { k } else { k - 1 };
                    assert(self.list@[a].conf.id == other);
                }
                if self.has_id(other) {
                    let k = self.index_of(other);
                    assert(self.list@[k].conf.id == other);
                    let a = if k < at { k } else { k + 1 };
                    assert(old(self).list@[a].conf.id == other);
                }
            }
            if device.icmpv4.monitor is Some {
                let gone = device.icmpv4.monitor->0.serial();
                let before = old(self).list@[at];
                assert(before.serial() == Some(gone));
                assert(gone < old(self).issued);
                assert forall|i: int| 0 <= i < self.list@.len() implies (
                #[trigger] self.list@[i]).serial() != Some(gone) by {
                    let a = if i < index { i } else { i + 1 };
                    let other = old(self).list@[a];
                    if a < at {
                        assert(other.serial() is Some ==> other.serial() != before.serial());
                    } else {
                        assert(before.serial() != other.serial());
                    }
                }
            }
        }
        Update {
            switch: MonitorSwitch { stopped: device.icmpv4.monitor, started: None },
            event: DeviceChange::Removed(id),
        }
    }
}

/// Whether no two of `confs` have the same number.
pub open spec fn numbers_differ(confs: Seq<DeviceConf>) -> bool {
    forall|i: int, j: int| 0 <= i < j < confs.len() ==> confs[i].id != confs[j].id
}

/// Whether `device` and `update` are what loading `conf` gives: the device has
/// that configuration and no status yet, it is announced, and it has a monitor,
/// which is to be started for its address, exactly if it has an address.
pub open spec fn loaded_as(conf: DeviceConf, device: Device, update: Update) -> bool {
    &&& device.conf == conf
    &&& device.icmpv4.status is None
    &&& update.event == DeviceChange::Added(conf.id)
    &&& update.switch.stopped is None
    &&& match conf.ipv4 {
        Some(ip) => {
            &&& update.switch.started matches Some(start)
            &&& start.device == conf.id
            &&& start.ip == ip
            &&& device.icmpv4.monitor == Some(start.cancel)
        },
        None => update.switch.started is None && device.icmpv4.monitor is None,
    }
}

/// A registry that holds `confs`, in their order, with its email token counting
/// as handed back at `now`, together with what is to be carried out for each of
/// them: the monitor to start and the event to broadcast. Configurations of which
/// two have the same number are not loaded.
pub fn load(now: Timestamp, confs: &Vec<DeviceConf>) -> (loaded: Option<(Devices, Vec<Update>)>)
    ensures
        loaded is Some <==> numbers_differ(confs@),
        loaded matches Some(pair) ==> {
            &&& pair.0.wf()
            &&& pair.0.last_email.last == Some(now)
            &&& confs_of(pair.0.list@) == confs@
            &&& pair.1@.len() == confs@.len()
            &&& forall|j: int|
                0 <= j < confs@.len() ==> loaded_as(
                    #[trigger] confs@[j],
                    pair.0.list@[j],
                    pair.1@[j],
                )
        },
{
    let mut devices = Devices::new(now);
    let mut updates: Vec<Update> = Vec::new();
    let mut i: usize = 0;
    while i < confs.len()
        invariant
            i <= confs@.len(),
            devices.wf(),
            devices.last_email.last == Some(now),
            devices.issued <= i,
            devices.list@.len() == i,
            updates@.len() == i,
            forall|j: int|
                0 <= j < i ==> loaded_as(#[trigger] confs@[j], devices.list@[j], updates@[j]),
            forall|a: int, b: int| 0 <= a < b < i ==> confs@[a].id != confs@[b].id,
        decreases confs@.len() - i,
    {
        let conf = confs[i].clone();
        if devices.has(conf.id) {
            proof {
                let k = devices.index_of(conf.id);
                assert(devices.list@[k].conf.id == conf.id);
                assert(loaded_as(confs@[k], devices.list@[k], updates@[k]));
                assert(confs@[k].id == confs@[i as int].id);
            }
            return None;
        }
        let ghost before = devices;
        let ghost told = updates@;
        let update = devices.add(conf);
        updates.push(update);
        proof {
            assert forall|j: int| 0 <= j < i + 1 implies loaded_as(
                #[trigger] confs@[j],
                devices.list@[j],
                updates@[j],
            ) by {
                if j < i {
                    assert(loaded_as(confs@[j], before.list@[j], told[j]));
                }
            }
            assert forall|a: int, b: int| 0 <= a < b < i + 1 implies confs@[a].id != confs@[b].id by {
                if b == i {
                    assert(loaded_as(confs@[a], before.list@[a], told[a]));
                    assert(before.list@[a].conf.id != conf.id);
                }
            }
        }
        i = i + 1;
    }
    proof {
        assert forall|j: int| 0 <= j < confs@.len() implies confs_of(devices.list@)[j]
            == confs@[j] by {
            assert(loaded_as(confs@[j], devices.list@[j], updates@[j]));
        }
        assert(confs_of(devices.list@) =~= confs@);
    }
    Some((devices, updates))
}

/// No two configurations of a well-formed registry have the same number: what
/// `confs` writes out for such a registry, `load` takes in.
pub proof fn lemma_confs_can_be_loaded(devices: Devices)
    requires
        devices.wf(),
    ensures
        numbers_differ(confs_of(devices.list@)),
{
    let confs = confs_of(devices.list@);
    assert forall|i: int, j: int| 0 <= i < j < confs.len() implies confs[i].id != confs[j].id by {
        assert(devices.list@[i].conf.id != devices.list@[j].conf.id);
    }
}

/// The configurations of the devices in `list`, in the order of the list.
pub open spec fn confs_of(list: Seq<Device>) -> Seq<DeviceConf> {
    Seq::new(list.len(), |i: int| list[i].conf)
}

/// The status stream's view of the devices in `list`: each device's number with
/// its status, in the order of the list.
pub open spec fn snapshot_of(list: Seq<Device>) -> Seq<StatusUpdate> {
    Seq::new(list.len(), |i: int| StatusUpdate { id: list[i].conf.id, status: list[i].icmpv4.status })
}

/// The log line for `change`, where `desc` is how the device is called: a status
/// that follows an earlier status is logged, as a note when the device came up
/// and as an error when it went down. Nothing else is logged.
pub open spec fn notice_of(change: DeviceChange, desc: Seq<char>) -> Option<(Kind, Seq<char>)> {
    match change {
        DeviceChange::IPv4Status { device, old: Some(_), new: Some(new) } => Some(
            match new.0 {
                ServiceStatus::Up => (Kind::Note, "Device "@ + desc + " is up"@),
                ServiceStatus::Down => (Kind::Error, "Device "@ + desc + " is down"@),
            },
        ),
        _ => None,
    }
}

/// The device that a loggable change is about.
pub open spec fn notice_device(change: DeviceChange) -> Option<DeviceId> {
    match change {
        DeviceChange::IPv4Status { device, old: Some(_), new: Some(_) } => Some(device),
        _ => None,
    }
}

/// The device that `change` is about, if it is a change that is logged.
pub fn notice_about(change: &DeviceChange) -> (device: Option<DeviceId>)
    ensures
        device == notice_device(*change),
{
    match change {
        DeviceChange::IPv4Status { device, old: Some(_), new: Some(_) } => Some(*device),
        _ => None,
    }
}

/// What `record_status` makes of the registry `before` and what it answers: a
/// device that is not in the list is treated like a cancelled monitor, and the
/// device that is in the list is treated as `recorded` says.
pub open spec fn record_post(
    before: Devices,
    after: Devices,
    id: DeviceId,
    cancelled: bool,
    candidate: ServiceStatus,
    now: Timestamp,
    outcome: Publication,
) -> bool {
    &&& after.last_email == before.last_email
    &&& after.issued == before.issued
    &&& if before.has_id(id) {
        let at = before.index_of(id);
        &&& after.list@ == before.list@.update(
            at,
            recorded(before.list@[at], cancelled, candidate, now).0,
        )
        &&& outcome == recorded(before.list@[at], cancelled, candidate, now).1
    } else {
        &&& after.list@ == before.list@
        &&& outcome == Publication::Cancelled
    }
}

/// A monitor whose token was retired speaks for no device.
pub proof fn lemma_retired_is_refused(devices: Devices, id: DeviceId, token: CancelToken)
    requires
        devices.retired(token.serial()),
    ensures
        !devices.speaks_for(id, token),
{
    if devices.has_id(id) {
        let at = devices.index_of(id);
        assert(devices.list@[at].conf.id == id);
        assert(devices.list@[at].serial() != Some(token.serial()));
    }
}

/// At most one monitor speaks for a device, and no monitor speaks for two
/// devices: tokens that speak for the same device have the same number, and
/// tokens with the same number speak for the same device.
pub proof fn lemma_one_speaker(
    devices: Devices,
    id: DeviceId,
    other: DeviceId,
    a: CancelToken,
    b: CancelToken,
)
    requires
        devices.wf(),
        devices.speaks_for(id, a),
        devices.speaks_for(other, b),
    ensures
        id == other ==> a.serial() == b.serial(),
        a.serial() == b.serial() ==> id == other,
{
    let i = devices.index_of(id);
    let j = devices.index_of(other);
    assert(devices.list@[i].conf.id == id);
    assert(devices.list@[j].conf.id == other);
    if i < j {
        assert(devices.list@[i].serial() != devices.list@[j].serial());
        assert(devices.list@[i].conf.id != devices.list@[j].conf.id);
    } else if j < i {
        assert(devices.list@[j].serial() != devices.list@[i].serial());
        assert(devices.list@[j].conf.id != devices.list@[i].conf.id);
    }
}

/// The number that the next token gets belongs to no token that is in the list
/// or was retired.
pub proof fn lemma_next_token_is_new(devices: Devices, id: DeviceId, token: CancelToken)
    requires
        devices.wf(),
        token.serial() == devices.issued,
    ensures
        !devices.retired(token.serial()),
        !devices.speaks_for(id, token),
{
    if devices.has_id(id) {
        let at = devices.index_of(id);
        assert(devices.list@[at].conf.id == id);
        assert(devices.list@[at].serial() matches Some(s) ==> s < devices.issued);
    }
}

/// Whatever operations follow one another, what the first of them found retired
/// the last of them leaves retired.
pub proof fn lemma_follows_on(first: Devices, middle: Devices, last: Devices)
    requires
        middle.follows(first),
        last.follows(middle),
    ensures
        last.follows(first),
{
    assert forall|serial: u64| #[trigger] first.retired(serial) implies last.retired(serial) by {
        assert(middle.retired(serial));
    }
}

/// The status stream's view `view` after the entry `frame` arrived: the device
/// that the entry names has the status that the entry gives.
pub open spec fn with_frame(view: Seq<StatusUpdate>, frame: StatusUpdate) -> Seq<StatusUpdate> {
    Seq::new(
        view.len(),
        |i: int|
            if view[i].id == frame.id {
                frame
            } else {
                view[i]
            },
    )
}

/// One who took a snapshot and applies the entry of every status event that is
/// published afterwards has what a new snapshot would give: recording a status
/// changes the snapshot exactly as the entry of its event says, and not at all
/// where no event is published.
pub proof fn lemma_stream_follows(
    before: Devices,
    after: Devices,
    id: DeviceId,
    cancelled: bool,
    candidate: ServiceStatus,
    now: Timestamp,
    outcome: Publication,
)
    requires
        before.wf(),
        record_post(before, after, id, cancelled, candidate, now, outcome),
    ensures
        snapshot_of(after.list@) == match outcome {
            Publication::Changed(event) => match status_frame_of(event) {
                Some(frame) => with_frame(snapshot_of(before.list@), frame),
                None => snapshot_of(before.list@),
            },
            _ => snapshot_of(before.list@),
        },
        outcome matches Publication::Changed(event) ==> status_frame_of(event) is Some,
{
    if before.has_id(id) {
        let at = before.index_of(id);
        let device = before.list@[at];
        lemma_unique_ids(before, id);
        match outcome {
            Publication::Changed(event) => {
                let frame = status_frame_of(event)->0;
                assert(snapshot_of(after.list@) =~= with_frame(snapshot_of(before.list@), frame));
            },
            _ => {
                assert(after.list@ =~= before.list@);
            },
        }
    }
}

/// In a well-formed registry the device with a given number is found at one
/// place only.
pub proof fn lemma_unique_ids(devices: Devices, id: DeviceId)
    requires
        devices.wf(),
        devices.has_id(id),
    ensures
        0 <= devices.index_of(id) < devices.list@.len(),
        forall|i: int|
            0 <= i < devices.list@.len() ==> ((#[trigger] devices.list@[i]).conf.id == id <==> i
                == devices.index_of(id)),
{
    let at = devices.index_of(id);
    assert(devices.list@[at].conf.id == id);
    assert forall|i: int| 0 <= i < devices.list@.len() && (
    #[trigger] devices.list@[i]).conf.id == id implies i == at by {
        if i < at {
            assert(devices.list@[i].conf.id != devices.list@[at].conf.id);
        } else if at < i {
            assert(devices.list@[at].conf.id != devices.list@[i].conf.id);
        }
    }
}

/// The numbers of the devices in `list`, in the order of the list.
pub open spec fn numbers(list: Seq<Device>) -> Seq<DeviceId> {
    Seq::new(list.len(), |i: int| list[i].conf.id)
}

/// A list that holds each of the numbers below `count` has at least `count`
/// entries.
pub proof fn lemma_numbers_fit(ids: Seq<DeviceId>, count: int)
    requires
        0 <= count <= 0x1_0000_0000,
        forall|j: DeviceId| j < count ==> ids.contains(j),
    ensures
        count <= ids.len(),
    decreases ids.len(),
{
    if count > 0 {
        if ids.len() == 0 {
            let j: DeviceId = 0;
            assert(ids.contains(j));
        } else {
            // Take the last entry out, and with it the number it holds: the numbers
            // above it move one down, so that the rest holds count - 1 numbers.
            let last = ids.last();
            let rest = ids.drop_last();
            if last < count {
                let shifted = Seq::new(
                    rest.len(),
                    |i: int|
                        if rest[i] > last {
                            (rest[i] - 1) as DeviceId
                        } else {
                            rest[i]
                        },
                );
                assert forall|j: DeviceId| j < count - 1 implies shifted.contains(j) by {
                    let want: DeviceId = if j >= last {
                        (j + 1) as DeviceId
                    } else {
                        j
                    };
                    assert(want != last);
                    assert(ids.contains(want));
                    let i = choose|i: int| 0 <= i < ids.len() && ids[i] == want;
                    assert(i < rest.len());
                    assert(shifted[i] == j);
                }
                lemma_numbers_fit(shifted, count - 1);
            } else {
                assert forall|j: DeviceId| j < count implies rest.contains(j) by {
                    assert(ids.contains(j));
                    let i = choose|i: int| 0 <= i < ids.len() && ids[i] == j;
                    assert(rest[i] == j);
                }
                lemma_numbers_fit(rest, count);
            }
        }
    }
}

} // verus!
