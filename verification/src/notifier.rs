//! Notification by email: the token that lets one email out at a time, the
//! per-recipient buffer with its debounce and retry, and the text of the email.

use crate::devices::{verb, verb_text, DeviceChange, DeviceId, Devices, ServiceStatus};
use crate::log::Kind;
use crate::time::{Timestamp, NANOS_PER_SEC};
use chrono::{DateTime, FixedOffset, Local, Utc};
use vstd::prelude::*;
use vstd::string::*;

verus! {

/// Seconds that must lie between the end of one email and the start of the next.
pub const EMAIL_GAP_SECS: u64 = 30;

/// Seconds after which one who found the token taken or too fresh asks again.
pub const EMAIL_POLL_SECS: u64 = 35;

/// Seconds for which a recipient's changes are collected before they are sent.
pub const EMAIL_DEBOUNCE_SECS: u64 = 30;

/// Seconds after which a failed email is tried again.
pub const EMAIL_RETRY_SECS: u64 = 300;

/// The permit to send an email, one for the whole process. `last` is the time
/// the token was last handed back while it is free, and `None` while a sender
/// holds it.
#[derive(Debug, Clone, Copy, PartialEq, Eq)]
pub struct EmailToken {
    pub last: Option<Timestamp>,
}

impl EmailToken {
    /// Whether the token can be taken at `now`: it is free and was handed back
    /// at least `EMAIL_GAP_SECS` seconds ago.
    pub open spec fn free_at(self, now: Timestamp) -> bool {
        self.last matches Some(last) && now.elapsed_since(last).nanos >= EMAIL_GAP_SECS
            * NANOS_PER_SEC
    }

    /// Whether a sender holds the token.
    pub open spec fn is_held(self) -> bool {
        self.last is None
    }

    /// A free token that counts as handed back at `now`.
    pub fn new(now: Timestamp) -> (token: Self)
        ensures
            token.last == Some(now),
    {
        EmailToken { last: Some(now) }
    }

    /// Whether a sender holds the token.
    pub fn held(&self) -> (held: bool)
        ensures
            held == self.is_held(),
    {
        self.last.is_none()
    }

    /// Takes the token at `now` if it can be taken, and says whether it did. One
    /// who is refused asks again after `EMAIL_POLL_SECS` seconds.
    pub fn try_acquire(&mut self, now: Timestamp) -> (taken: bool)
        ensures
            taken == old(self).free_at(now),
            final(self).last == if taken {
                None
            } else {
                old(self).last
            },
    {
        match self.last {
            Some(last) => {
                let gap: u128 = EMAIL_GAP_SECS as u128 * NANOS_PER_SEC;
                if now.saturating_since(last).nanos >= gap {
                    self.last = None;
                    true
                } else {
                    false
                }
            },
            None => false,
        }
    }

    /// Hands the token back at `now`.
    pub fn release(&mut self, now: Timestamp)
        ensures
            final(self).last == Some(now),
    {
        self.last = Some(now);
    }
}

/// What senders do with the token, in the order in which it happens.
pub enum TokenStep {
    /// A sender asks for the token at the given time.
    Ask(Timestamp),
    /// The sender that holds the token has finished and hands it back at the
    /// given time.
    Finish(Timestamp),
}

/// The token after `steps`, starting from `token`. A `Finish` while nobody holds
/// the token is no step of a sender and changes nothing.
pub open spec fn token_after(token: EmailToken, steps: Seq<TokenStep>) -> EmailToken
    decreases steps.len(),
{
    if steps.len() == 0 {
        token
    } else {
        let before = token_after(token, steps.drop_last());
        match steps.last() {
            TokenStep::Ask(now) => if before.free_at(now) {
                EmailToken { last: None }
            } else {
                before
            },
            TokenStep::Finish(now) => if before.is_held() {
                EmailToken { last: Some(now) }
            } else {
                before
            },
        }
    }
}

/// How many emails are being sent after `steps`, when `sending` were being sent
/// before: an `Ask` that gets the token starts one, a `Finish` by the holder ends
/// one.
pub open spec fn sending_after(token: EmailToken, sending: int, steps: Seq<TokenStep>) -> int
    decreases steps.len(),
{
    if steps.len() == 0 {
        sending
    } else {
        let before = token_after(token, steps.drop_last());
        let count = sending_after(token, sending, steps.drop_last());
        match steps.last() {
            TokenStep::Ask(now) => if before.free_at(now) {
                count + 1
            } else {
                count
            },
            TokenStep::Finish(now) => if before.is_held() {
                count - 1
            } else {
                count
            },
        }
    }
}

/// Whatever senders do and whenever they do it, at most one email is being sent
/// at a time, and one is being sent exactly while the token is held.
pub proof fn lemma_one_email_in_flight(token: EmailToken, steps: Seq<TokenStep>)
    ensures
        0 <= sending_after(token, if token.is_held() { 1 } else { 0 }, steps) <= 1,
        sending_after(token, if token.is_held() { 1 } else { 0 }, steps) == 1 <==> token_after(
            token,
            steps,
        ).is_held(),
    decreases steps.len(),
{
    if steps.len() > 0 {
        lemma_one_email_in_flight(token, steps.drop_last());
    }
}

/// A change that a recipient is to be told of: the device, its new status and
/// since when.
pub type Pending = (DeviceId, (ServiceStatus, Timestamp));

/// What `change` adds to a recipient's buffer: a status that follows an earlier
/// status is worth an email, nothing else is.
pub open spec fn worth_email(change: DeviceChange) -> Option<Pending> {
    match change {
        DeviceChange::IPv4Status { device, old: Some(_), new: Some(new) } => Some((device, new)),
        _ => None,
    }
}

/// The notifier of one recipient: the changes that wait to be sent, and whether
/// a timer already runs that will send them.
#[derive(Debug)]
pub struct Notifier {
    pub buffer: Vec<Pending>,
    pub active: bool,
}

impl Notifier {
    /// A notifier with nothing to send and no timer.
    pub fn new() -> (notifier: Self)
        ensures
            notifier.buffer@ == Seq::<Pending>::empty(),
            !notifier.active,
    {
        Notifier { buffer: Vec::new(), active: false }
    }

    /// Takes in a change from the registry. One that is worth an email joins the
    /// buffer, and if no timer runs yet, one is asked for: the answer is then the
    /// seconds to wait, `EMAIL_DEBOUNCE_SECS`, before the token is asked for and
    /// the email is sent. Any other change is dropped.
    pub fn on_change(&mut self, change: DeviceChange) -> (timer: Option<u64>)
        ensures
            match worth_email(change) {
                Some(pending) => {
                    &&& final(self).buffer@ == old(self).buffer@.push(pending)
                    &&& final(self).active
                    &&& timer == if old(self).active {
                        None
                    } else {
                        Some(EMAIL_DEBOUNCE_SECS)
                    }
                },
                None => {
                    &&& final(self).buffer@ == old(self).buffer@
                    &&& final(self).active == old(self).active
                    &&& timer is None
                },
            },
    {
        match change {
            DeviceChange::IPv4Status { device, old: Some(_), new: Some(new) } => {
                self.buffer.push((device, new));
                if !self.active {
                    self.active = true;
                    Some(EMAIL_DEBOUNCE_SECS)
                } else {
                    None
                }
            },
            _ => None,
        }
    }

    /// A copy of the buffer, oldest change first: what the email that is due now
    /// has to tell.
    pub fn batch(&self) -> (batch: Vec<Pending>)
        ensures
            batch@ == self.buffer@,
    {
        let mut batch: Vec<Pending> = Vec::new();
        let mut i: usize = 0;
        while i < self.buffer.len()
            invariant
                i <= self.buffer@.len(),
                batch@ == self.buffer@.take(i as int),
            decreases self.buffer@.len() - i,
        {
            batch.push(self.buffer[i]);
            i = i + 1;
        }
        batch
    }

    /// Takes in how the sending went, after the token was handed back. After a
    /// success the buffer is empty and no timer runs. After a failure the buffer
    /// stays as it is and a new timer is asked for: the answer is then the seconds
    /// to wait, `EMAIL_RETRY_SECS`.
    pub fn on_sent(&mut self, sent: bool) -> (timer: Option<u64>)
        ensures
            sent ==> final(self).buffer@ == Seq::<Pending>::empty() && !final(self).active
                && timer is None,
            !sent ==> final(self).buffer@ == old(self).buffer@ && final(self).active == old(
                self,
            ).active && timer == Some(EMAIL_RETRY_SECS),
    {
        if sent {
            self.buffer.clear();
            self.active = false;
            None
        } else {
            Some(EMAIL_RETRY_SECS)
        }
    }
}

/// One line of an email: how the device is called, what became of it, and when,
/// as text.
#[derive(Debug)]
pub struct ChangeLine {
    pub desc: String,
    pub status: ServiceStatus,
    pub time: String,
}

/// How every email begins.
pub open spec fn body_head() -> Seq<char> {
    "The following network changes were detected:\n\n"@
}

/// The line of an email that `line` stands for.
pub open spec fn line_text(line: ChangeLine) -> Seq<char> {
    " - Device `"@ + line.desc@ + "` went "@ + verb_text(line.status) + " at "@ + line.time@
        + "\n"@
}

/// The body of the email that reports `lines`: the head and then one line for
/// each change, in their order.
pub open spec fn body_text(lines: Seq<ChangeLine>) -> Seq<char>
    decreases lines.len(),
{
    if lines.len() == 0 {
        body_head()
    } else {
        body_text(lines.drop_last()) + line_text(lines.last())
    }
}

/// The subject of every email.
pub fn email_subject() -> (subject: &'static str)
    ensures
        subject@ == "Network changes"@,
{
    "Network changes"
}

/// The body of the email that reports `lines`.
pub fn email_body(lines: &Vec<ChangeLine>) -> (body: String)
    ensures
        body@ == body_text(lines@),
{
    let mut body = String::from_str("The following network changes were detected:\n\n");
    let mut i: usize = 0;
    while i < lines.len()
        invariant
            i <= lines@.len(),
            body@ == body_text(lines@.take(i as int)),
        decreases lines@.len() - i,
    {
        let line = &lines[i];
        let ghost before = body@;
        body.append(" - Device `");
        body.append(line.desc.as_str());
        body.append("` went ");
        body.append(verb(line.status));
        body.append(" at ");
        body.append(line.time.as_str());
        body.append("\n");
        proof {
            let upto = lines@.take(i + 1);
            assert(upto.drop_last() =~= lines@.take(i as int));
            assert(upto.last() == lines@[i as int]);
            assert(body@ =~= before + line_text(lines@[i as int]));
        }
        i = i + 1;
    }
    assert(lines@.take(i as int) =~= lines@);
    body
}

/// The last second, counted from the Unix epoch, of the last day whose date has a
/// four-digit year in every time zone.
pub const LAST_DATED_SECOND: u128 = 253_402_214_399;

/// Whether `time` can be written as a date with a four-digit year.
pub open spec fn datable(time: Timestamp) -> bool {
    time.nanos / NANOS_PER_SEC <= LAST_DATED_SECOND
}

/// Whether `time` can be written as a date with a four-digit year.
pub fn can_date(time: Timestamp) -> (ok: bool)
    ensures
        ok == datable(time),
{
    time.secs() <= LAST_DATED_SECOND
}

/// The bound of a time zone's offset from UTC, in seconds: an offset lies
/// strictly between this much west and this much east.
pub const OFFSET_BOUND: i32 = 86_400;

/// The date and time `secs` seconds and `nanos` nanoseconds after the Unix epoch,
/// written in the form of RFC 2822 for a time zone that is `offset` seconds east
/// of UTC, such as `Tue, 1 Jul 2003 10:52:37 +0200`: what `chrono` writes.
pub uninterp spec fn rfc2822_text(secs: int, nanos: int, offset: int) -> Seq<char>;

/// Whether `text` is `time` written in the form of RFC 2822 for some time zone.
pub open spec fn is_time_text(time: Timestamp, text: Seq<char>) -> bool {
    exists|offset: int|
        -OFFSET_BOUND < offset < OFFSET_BOUND && text == #[trigger] rfc2822_text(
            (time.nanos / NANOS_PER_SEC) as int,
            (time.nanos % NANOS_PER_SEC) as int,
            offset,
        )
}

/// How many seconds east of UTC the time zone of this machine is at the moment
/// `secs` seconds and `nanos` nanoseconds after the Unix epoch. The moment is
/// made with `chrono::DateTime::from_timestamp` and moved to the local time zone
/// with `with_timezone`, whose offset `local_minus_utc` gives in seconds. The
/// answer depends on the machine; every offset that `chrono` holds lies strictly
/// within a day of UTC.
#[verifier::external_body]
fn local_offset(secs: i64, nanos: u32) -> (offset: i32)
    requires
        0 <= secs <= LAST_DATED_SECOND,
        nanos < NANOS_PER_SEC,
    ensures
        -OFFSET_BOUND < offset < OFFSET_BOUND,
{
    DateTime::<Utc>::from_timestamp(secs, nanos).unwrap().with_timezone(&Local).offset().local_minus_utc()
}

/// The date and time `secs` seconds and `nanos` nanoseconds after the Unix epoch
/// in the form of RFC 2822, for the time zone `offset` seconds east of UTC. The
/// moment is made with `chrono::DateTime::from_timestamp`, moved to the offset
/// made by `chrono::FixedOffset::east_opt` with `with_timezone`, and written with
/// `to_rfc2822`, which needs a year of at most four digits. The text is a function
/// of these three numbers alone.
#[verifier::external_body]
fn rfc2822_at(secs: i64, nanos: u32, offset: i32) -> (text: String)
    requires
        0 <= secs <= LAST_DATED_SECOND,
        nanos < NANOS_PER_SEC,
        -OFFSET_BOUND < offset < OFFSET_BOUND,
    ensures
        text@ == rfc2822_text(secs as int, nanos as int, offset as int),
{
    let zone = FixedOffset::east_opt(offset).unwrap();
    DateTime::<Utc>::from_timestamp(secs, nanos).unwrap().with_timezone(&zone).to_rfc2822()
}

/// When `time` was, written in the form of RFC 2822 for the time zone `offset`
/// seconds east of UTC.
pub fn time_text_at(time: Timestamp, offset: i32) -> (text: String)
    requires
        datable(time),
        -OFFSET_BOUND < offset < OFFSET_BOUND,
    ensures
        text@ == rfc2822_text(
            (time.nanos / NANOS_PER_SEC) as int,
            (time.nanos % NANOS_PER_SEC) as int,
            offset as int,
        ),
{
    let secs: u128 = time.secs();
    rfc2822_at(secs as i64, time.subsec_nanos(), offset)
}

/// When `time` was, as text for an email: `time` written in the form of RFC 2822
/// for the time zone that this machine is in at that time. Which time zone that
/// is, the machine decides.
pub fn time_text(time: Timestamp) -> (text: String)
    requires
        datable(time),
    ensures
        is_time_text(time, text@),
{
    let secs: u128 = time.secs();
    let offset = local_offset(secs as i64, time.subsec_nanos());
    time_text_at(time, offset)
}

/// Whether `lines` are the lines for `changes` in the registry `devices`: one
/// line for each change, in their order, with the device's description, the new
/// status, and the time of the change written for some time zone.
pub open spec fn lines_for(devices: Devices, changes: Seq<Pending>, lines: Seq<ChangeLine>) -> bool {
    &&& lines.len() == changes.len()
    &&& forall|i: int|
        0 <= i < changes.len() ==> {
            &&& (#[trigger] lines[i]).desc@ == devices.list@[devices.index_of(
                changes[i].0,
            )].conf.desc_text()
            &&& lines[i].status == changes[i].1.0
            &&& is_time_text(changes[i].1.1, lines[i].time@)
        }
}

/// The lines of the email that reports `changes`, with each device called as the
/// registry has it now and each time written in the local time zone.
pub fn change_lines(devices: &Devices, changes: &Vec<Pending>) -> (lines: Vec<ChangeLine>)
    requires
        devices.wf(),
        forall|i: int| 0 <= i < changes@.len() ==> devices.has_id((#[trigger] changes@[i]).0),
        forall|i: int| 0 <= i < changes@.len() ==> datable((#[trigger] changes@[i]).1.1),
    ensures
        lines_for(*devices, changes@, lines@),
{
    let mut lines: Vec<ChangeLine> = Vec::new();
    let mut i: usize = 0;
    while i < changes.len()
        invariant
            i <= changes@.len(),
            devices.wf(),
            forall|i: int| 0 <= i < changes@.len() ==> devices.has_id((#[trigger] changes@[i]).0),
            forall|i: int| 0 <= i < changes@.len() ==> datable((#[trigger] changes@[i]).1.1),
            lines_for(*devices, changes@.take(i as int), lines@),
        decreases changes@.len() - i,
    {
        let change = changes[i];
        let desc = devices.device(change.0).conf.desc();
        let time = time_text(change.1.1);
        lines.push(ChangeLine { desc, status: change.1.0, time });
        i = i + 1;
    }
    lines
}

/// How an attempt to send an email ended.
#[derive(Debug)]
pub enum SendOutcome {
    /// The sender's address is no mailbox.
    BadSender,
    /// The recipient's address is no mailbox.
    BadRecipient,
    /// The message could not be put together.
    BadMessage,
    /// No client for the mail server could be made.
    NoClient,
    /// The server took the email.
    Sent,
    /// The transport failed, with the error it gave.
    Failed(String),
}

/// The log line that reports `outcome` for an email from `sender` to
/// `recipient`.
pub open spec fn report_text(outcome: SendOutcome, sender: Seq<char>, recipient: Seq<char>) -> (
    Kind,
    Seq<char>,
) {
    match outcome {
        SendOutcome::BadSender => (
            Kind::Error,
            "Unable to parse "@ + sender + " as an email address"@,
        ),
        SendOutcome::BadRecipient => (
            Kind::Error,
            "Unable to parse "@ + recipient + " as an email address"@,
        ),
        SendOutcome::BadMessage => (Kind::Error, "Unable to create email"@),
        SendOutcome::NoClient => (Kind::Error, "Unable to create SMTP client"@),
        SendOutcome::Sent => (Kind::Note, "Sent email to "@ + recipient),
        SendOutcome::Failed(error) => (
            Kind::Error,
            "Unable to send email to "@ + recipient + "\n"@ + error@,
        ),
    }
}

/// What is logged for `outcome`, and whether the email counts as sent: only
/// `Sent` does.
pub fn send_report(outcome: &SendOutcome, sender: &str, recipient: &str) -> (report: (
    Kind,
    String,
    bool,
))
    ensures
        report.0 == report_text(*outcome, sender@, recipient@).0,
        report.1@ == report_text(*outcome, sender@, recipient@).1,
        report.2 == (*outcome is Sent),
{
    match outcome {
        SendOutcome::BadSender => {
            let mut text = String::from_str("Unable to parse ");
            text.append(sender);
            text.append(" as an email address");
            (Kind::Error, text, false)
        },
        SendOutcome::BadRecipient => {
            let mut text = String::from_str("Unable to parse ");
            text.append(recipient);
            text.append(" as an email address");
            (Kind::Error, text, false)
        },
        SendOutcome::BadMessage => (Kind::Error, String::from_str("Unable to create email"), false),
        SendOutcome::NoClient => (
            Kind::Error,
            String::from_str("Unable to create SMTP client"),
            false,
        ),
        SendOutcome::Sent => {
            let mut text = String::from_str("Sent email to ");
            text.append(recipient);
            (Kind::Note, text, true)
        },
        SendOutcome::Failed(error) => {
            let mut text = String::from_str("Unable to send email to ");
            text.append(recipient);
            text.append("\n");
            text.append(error.as_str());
            (Kind::Error, text, false)
        },
    }
}

/// The line with which a notifier announces itself in the log.
pub fn starting_text(recipient: &str) -> (text: String)
    ensures
        text@ == "Notifier for "@ + recipient@ + " starting"@,
{
    let mut text = String::from_str("Notifier for ");
    text.append(recipient);
    text.append(" starting");
    text
}

} // verus!
