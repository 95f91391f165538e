//! The probe cycle of one monitored device, and the token that retires it.

use crate::devices::{DeviceChange, Publication, ServiceStatus};
use crate::time::Timestamp;
use std::sync::atomic::{AtomicBool, Ordering};
use std::sync::Arc;
use vstd::prelude::*;

verus! {

/// A second handle on the same flag, made with `Arc::clone`, which returns a
/// pointer to the allocation that its argument points to.
#[verifier::external_body]
fn share_flag(flag: &Arc<AtomicBool>) -> (other: Arc<AtomicBool>)
    ensures
        other == *flag,
{
    Arc::clone(flag)
}

/// A flag that is shared between the registry and a monitor and that, once set,
/// tells the monitor to stop. It starts unset and is never reset. Handles made by
/// `clone` share the flag. Whoever holds a handle may set the flag at any moment,
/// so a reading says nothing about the next one.
///
/// A token also carries a number, which never changes and which `clone` keeps.
/// The registry numbers the tokens it hands out in the order in which it hands
/// them out, and so knows a token it has retired without reading the flag.
#[derive(Debug)]
pub struct CancelToken {
    flag: Arc<AtomicBool>,
    serial: u64,
}

impl Clone for CancelToken {
    fn clone(&self) -> (other: Self)
        ensures
            other == *self,
    {
        CancelToken { flag: share_flag(&self.flag), serial: self.serial }
    }
}

impl CancelToken {
    /// The token's number.
    pub closed spec fn serial(&self) -> u64 {
        self.serial
    }

    /// A token of its own, not cancelled, with the number 0.
    pub fn new() -> (token: Self)
        ensures
            token.serial() == 0,
    {
        CancelToken { flag: Arc::new(AtomicBool::new(false)), serial: 0 }
    }

    /// A token of its own, not cancelled, with the number `serial`.
    pub fn numbered(serial: u64) -> (token: Self)
        ensures
            token.serial() == serial,
    {
        CancelToken { flag: Arc::new(AtomicBool::new(false)), serial }
    }

    /// The token's number.
    pub fn number(&self) -> (serial: u64)
        ensures
            serial == self.serial(),
    {
        self.serial
    }

    /// Sets the flag.
    pub fn cancel(&self) {
        self.flag.store(true, Ordering::SeqCst);
    }

    /// Reads the flag.
    pub fn cancelled(&self) -> bool {
        self.flag.load(Ordering::SeqCst)
    }
}

/// What is known of a device's reachability.
#[derive(Debug, Clone, Copy, PartialEq, Eq, Structural)]
pub enum DeviceStatus {
    Unknown,
    Up,
    Down,
}

/// Seconds that one echo request may take before it counts as lost.
pub const PING_DEADLINE_SECS: u64 = 1;

/// Seconds between two echo requests while a loss is being confirmed.
pub const CONFIRM_PAUSE_SECS: u64 = 1;

/// Echo requests that must be lost after the first one before a device counts as
/// down.
pub const CONFIRM_ATTEMPTS: u8 = 10;

/// Seconds between two probe cycles.
pub const REST_SECS: u64 = 10;

/// Where a monitor stands in its probe cycle.
#[derive(Debug, Clone, Copy, PartialEq, Eq, Structural)]
pub enum Phase {
    /// The first echo request of a cycle is under way.
    Probing,
    /// The pause before a confirming echo request; `lost` confirming requests
    /// were lost in this cycle so far.
    Pausing { lost: u8 },
    /// A confirming echo request is under way after `lost` lost ones.
    Confirming { lost: u8 },
    /// The registry was asked to record `candidate`.
    Publishing { candidate: ServiceStatus },
    /// The pause between two cycles.
    Resting,
    /// The monitor has ended.
    Stopped,
}

/// What the task that runs a monitor reports to it.
#[derive(Debug, Clone, Copy, PartialEq, Eq)]
pub enum MonitorEvent {
    /// The echo reply arrived within the deadline.
    Replied,
    /// The deadline passed without a reply.
    TimedOut,
    /// The pause that was asked for is over.
    Slept,
    /// The registry took the request to record a status; the device's status is
    /// now the one given.
    Recorded(Option<(ServiceStatus, Timestamp)>),
    /// The registry refused the request: the monitor was cancelled.
    Rejected,
}

/// What the task that runs a monitor does next.
#[derive(Debug, Clone, Copy, PartialEq, Eq)]
pub enum MonitorAction {
    /// Send one echo request and wait `PING_DEADLINE_SECS` for the reply.
    Ping,
    /// Sleep for so many seconds.
    Sleep(u64),
    /// Ask the registry, under its lock, to record `candidate` in place of `old`
    /// and publish the change.
    Publish { old: Option<(ServiceStatus, Timestamp)>, candidate: ServiceStatus },
    /// End the task.
    Stop,
}

/// The monitor of one device: the status it last saw recorded and its place in
/// the probe cycle.
#[derive(Debug, Clone, Copy, PartialEq, Eq)]
pub struct Monitor {
    pub status: Option<(ServiceStatus, Timestamp)>,
    pub phase: Phase,
}

/// Whether `status` already says `candidate`.
pub open spec fn status_is(status: Option<(ServiceStatus, Timestamp)>, candidate: ServiceStatus)
    -> bool {
    status matches Some(s) && s.0 == candidate
}

/// The action that a monitor in `phase` waits on.
pub open spec fn awaited(m: Monitor) -> MonitorAction {
    match m.phase {
        Phase::Probing => MonitorAction::Ping,
        Phase::Pausing { lost } => MonitorAction::Sleep(CONFIRM_PAUSE_SECS),
        Phase::Confirming { lost } => MonitorAction::Ping,
        Phase::Publishing { candidate } => MonitorAction::Publish { old: m.status, candidate },
        Phase::Resting => MonitorAction::Sleep(REST_SECS),
        Phase::Stopped => MonitorAction::Stop,
    }
}

/// The monitor in `phase`, keeping the status of `m`.
pub open spec fn in_phase(m: Monitor, phase: Phase) -> Monitor {
    Monitor { status: m.status, phase }
}

/// A probe cycle of `m` has concluded on `candidate`, and the token read
/// `cancelled`: a cancelled monitor stops, a candidate that differs from the
/// known status is published, and otherwise the monitor rests.
pub open spec fn conclude(m: Monitor, candidate: ServiceStatus, cancelled: bool) -> Monitor {
    if cancelled {
        in_phase(m, Phase::Stopped)
    } else if status_is(m.status, candidate) {
        in_phase(m, Phase::Resting)
    } else {
        in_phase(m, Phase::Publishing { candidate })
    }
}

/// The monitor that follows `m` when `event` is reported and the token reads
/// `cancelled`. An event that the phase does not wait for changes nothing.
pub open spec fn next(m: Monitor, event: MonitorEvent, cancelled: bool) -> Monitor {
    match (m.phase, event) {
        (Phase::Probing, MonitorEvent::Replied) => conclude(m, ServiceStatus::Up, cancelled),
        (Phase::Probing, MonitorEvent::TimedOut) => in_phase(m, Phase::Pausing { lost: 0 }),
        (Phase::Pausing { lost }, MonitorEvent::Slept) => in_phase(m, Phase::Confirming { lost }),
        (Phase::Confirming { lost }, MonitorEvent::Replied) => conclude(
            m,
            ServiceStatus::Up,
            cancelled,
        ),
        (Phase::Confirming { lost }, MonitorEvent::TimedOut) => if lost + 1 < CONFIRM_ATTEMPTS {
            in_phase(m, Phase::Pausing { lost: (lost + 1) as u8 })
        } else {
            conclude(m, ServiceStatus::Down, cancelled)
        },
        (Phase::Publishing { candidate }, MonitorEvent::Recorded(status)) => Monitor {
            status,
            phase: Phase::Resting,
        },
        (Phase::Publishing { candidate }, MonitorEvent::Rejected) => in_phase(m, Phase::Stopped),
        (Phase::Resting, MonitorEvent::Slept) => in_phase(m, Phase::Probing),
        _ => m,
    }
}

/// What a monitor is told when the registry answered `outcome` to its request:
/// that it was rejected if the registry says so, and otherwise the status that
/// the device has now, recorded just now or earlier.
pub open spec fn answer_of(outcome: Publication) -> MonitorEvent {
    match outcome {
        Publication::Cancelled => MonitorEvent::Rejected,
        Publication::Unchanged(status) => MonitorEvent::Recorded(status),
        Publication::Changed(change) => MonitorEvent::Recorded(
            match change {
                DeviceChange::IPv4Status { device, old, new } => new,
                _ => None,
            },
        ),
    }
}

/// What a monitor is told when the registry answered `outcome` to its request.
pub fn answer(outcome: &Publication) -> (event: MonitorEvent)
    ensures
        event == answer_of(*outcome),
{
    match outcome {
        Publication::Cancelled => MonitorEvent::Rejected,
        Publication::Unchanged(status) => MonitorEvent::Recorded(*status),
        Publication::Changed(change) => MonitorEvent::Recorded(
            match change {
                DeviceChange::IPv4Status { device, old, new } => *new,
                _ => None,
            },
        ),
    }
}

/// What holds of every monitor that began as `Monitor::new` makes it: it never
/// counts more lost confirming requests than it sends, and what it asks the
/// registry to record differs from the status it knows.
pub open spec fn sound(m: Monitor) -> bool {
    match m.phase {
        Phase::Pausing { lost } => lost < CONFIRM_ATTEMPTS,
        Phase::Confirming { lost } => lost < CONFIRM_ATTEMPTS,
        Phase::Publishing { candidate } => !status_is(m.status, candidate),
        _ => true,
    }
}

/// A new monitor is sound, and no event makes a sound monitor unsound.
pub proof fn lemma_stays_sound(m: Monitor, event: MonitorEvent, cancelled: bool)
    ensures
        sound(Monitor { status: m.status, phase: Phase::Probing }),
        sound(m) ==> sound(next(m, event, cancelled)),
{
}

/// A device is taken for down only when the first echo request of a cycle and
/// then `CONFIRM_ATTEMPTS` more, one after each pause, were all lost: the step
/// that concludes on `Down` is the loss of the last confirming request, and the
/// count of lost confirming requests goes up only by a loss, one at a time, from
/// the zero at which the loss of the first request puts it.
pub proof fn lemma_down_is_confirmed(m: Monitor, event: MonitorEvent, cancelled: bool)
    requires
        sound(m),
        next(m, event, cancelled) != m,
    ensures
        next(m, event, cancelled).phase == (Phase::Publishing { candidate: ServiceStatus::Down })
            ==> event == MonitorEvent::TimedOut && (m.phase matches Phase::Confirming { lost }
            && lost + 1 == CONFIRM_ATTEMPTS),
        match next(m, event, cancelled).phase {
            Phase::Pausing { lost } => event == MonitorEvent::TimedOut && if lost == 0 {
                m.phase == Phase::Probing
            } else {
                m.phase == (Phase::Confirming { lost: (lost - 1) as u8 })
            },
            Phase::Confirming { lost } => event == MonitorEvent::Slept && m.phase == (
            Phase::Pausing { lost }),
            _ => true,
        },
{
}

/// The monitor that `Monitor::new(status)` makes, after it took in `steps`, each
/// an event with what the token read when it came in.
pub open spec fn after(
    status: Option<(ServiceStatus, Timestamp)>,
    steps: Seq<(MonitorEvent, bool)>,
) -> Monitor
    decreases steps.len(),
{
    if steps.len() == 0 {
        Monitor { status, phase: Phase::Probing }
    } else {
        next(after(status, steps.drop_last()), steps.last().0, steps.last().1)
    }
}

/// How many echo requests the monitor that `Monitor::new(status)` makes has lost
/// in a row within its present probe cycle, after it took in `steps`. A loss that
/// the monitor waited for counts; a reply that it waited for, and the start of a
/// new cycle, begin the count anew; events that it did not wait for count for
/// nothing.
pub open spec fn lost_in_a_row(
    status: Option<(ServiceStatus, Timestamp)>,
    steps: Seq<(MonitorEvent, bool)>,
) -> nat
    decreases steps.len(),
{
    if steps.len() == 0 {
        0
    } else {
        let before = after(status, steps.drop_last());
        let count = lost_in_a_row(status, steps.drop_last());
        match (before.phase, steps.last().0) {
            (Phase::Probing, MonitorEvent::TimedOut) => count + 1,
            (Phase::Confirming { lost }, MonitorEvent::TimedOut) => count + 1,
            (Phase::Probing, MonitorEvent::Replied) => 0,
            (Phase::Confirming { lost }, MonitorEvent::Replied) => 0,
            (Phase::Resting, MonitorEvent::Slept) => 0,
            _ => count,
        }
    }
}

/// Whatever a monitor is told from the moment it is made, it stays sound, it
/// counts in its phase the requests that it has lost in a row, and it asks the
/// registry to record `Down` only when it has lost the first request of the cycle
/// and all `CONFIRM_ATTEMPTS` confirming requests, one after the other; with
/// fewer losses it never does. It asks to record `Up` only right after a reply.
pub proof fn lemma_down_needs_every_loss(
    status: Option<(ServiceStatus, Timestamp)>,
    steps: Seq<(MonitorEvent, bool)>,
)
    ensures
        sound(after(status, steps)),
        match after(status, steps).phase {
            Phase::Probing => lost_in_a_row(status, steps) == 0,
            Phase::Pausing { lost } => lost_in_a_row(status, steps) == lost + 1,
            Phase::Confirming { lost } => lost_in_a_row(status, steps) == lost + 1,
            Phase::Publishing { candidate } => lost_in_a_row(status, steps) == match candidate {
                ServiceStatus::Down => CONFIRM_ATTEMPTS + 1,
                ServiceStatus::Up => 0,
            },
            _ => true,
        },
        awaited(after(status, steps)) matches MonitorAction::Publish { old, candidate }
            ==> candidate == ServiceStatus::Down ==> lost_in_a_row(status, steps)
            == CONFIRM_ATTEMPTS + 1,
    decreases steps.len(),
{
    if steps.len() > 0 {
        lemma_down_needs_every_loss(status, steps.drop_last());
        lemma_stays_sound(after(status, steps.drop_last()), steps.last().0, steps.last().1);
    }
}

impl Monitor {
    /// The monitor of a device whose recorded status is `status`, about to send
    /// the first echo request of its first cycle.
    pub fn new(status: Option<(ServiceStatus, Timestamp)>) -> (m: Monitor)
        ensures
            m == (Monitor { status, phase: Phase::Probing }),
            sound(m),
    {
        Monitor { status, phase: Phase::Probing }
    }

    /// The action that the monitor waits on in its present phase.
    pub fn action(&self) -> (a: MonitorAction)
        ensures
            a == awaited(*self),
    {
        match self.phase {
            Phase::Probing => MonitorAction::Ping,
            Phase::Pausing { lost } => MonitorAction::Sleep(CONFIRM_PAUSE_SECS),
            Phase::Confirming { lost } => MonitorAction::Ping,
            Phase::Publishing { candidate } => MonitorAction::Publish {
                old: self.status,
                candidate,
            },
            Phase::Resting => MonitorAction::Sleep(REST_SECS),
            Phase::Stopped => MonitorAction::Stop,
        }
    }

    /// Settles a cycle that has concluded on `candidate`.
    fn settle(&mut self, candidate: ServiceStatus, cancelled: bool)
        ensures
            *final(self) == conclude(*old(self), candidate, cancelled),
    {
        let same = match self.status {
            Some(s) => s.0 == candidate,
            None => false,
        };
        if cancelled {
            self.phase = Phase::Stopped;
        } else if same {
            self.phase = Phase::Resting;
        } else {
            self.phase = Phase::Publishing { candidate };
        }
    }

    /// Takes in `event`, together with `cancelled`, what the monitor's token read
    /// when the event came in, and returns what to do next. The token's reading
    /// counts only where a probe cycle concludes.
    pub fn step(&mut self, event: MonitorEvent, cancelled: bool) -> (a: MonitorAction)
        ensures
            *final(self) == next(*old(self), event, cancelled),
            a == awaited(*final(self)),
            sound(*old(self)) ==> sound(*final(self)),
    {
        match (self.phase, event) {
            (Phase::Probing, MonitorEvent::Replied) => {
                self.settle(ServiceStatus::Up, cancelled);
            },
            (Phase::Probing, MonitorEvent::TimedOut) => {
                self.phase = Phase::Pausing { lost: 0 };
            },
            (Phase::Pausing { lost }, MonitorEvent::Slept) => {
                self.phase = Phase::Confirming { lost };
            },
            (Phase::Confirming { lost }, MonitorEvent::Replied) => {
                self.settle(ServiceStatus::Up, cancelled);
            },
            (Phase::Confirming { lost }, MonitorEvent::TimedOut) => {
                if lost < CONFIRM_ATTEMPTS - 1 {
                    self.phase = Phase::Pausing { lost: lost + 1 };
                } else {
                    self.settle(ServiceStatus::Down, cancelled);
                }
            },
            (Phase::Publishing { candidate }, MonitorEvent::Recorded(status)) => {
                self.status = status;
                self.phase = Phase::Resting;
            },
            (Phase::Publishing { candidate }, MonitorEvent::Rejected) => {
                self.phase = Phase::Stopped;
            },
            (Phase::Resting, MonitorEvent::Slept) => {
                self.phase = Phase::Probing;
            },
            _ => {},
        }
        self.action()
    }
}

} // verus!
