//! The bounded log.

use crate::time::Timestamp;
use vstd::prelude::*;

verus! {

/// How many entries the log keeps.
pub const LOG_CAPACITY: usize = 100;

/// What kind of entry a log line is.
#[derive(Debug, Clone, Copy, PartialEq, Eq, Structural)]
pub enum Kind {
    Note,
    Error,
}

/// One line of the log.
#[derive(Debug)]
pub struct Entry {
    pub kind: Kind,
    pub msg: String,
    pub time: Timestamp,
}

impl Clone for Entry {
    fn clone(&self) -> (other: Self)
        ensures
            other == *self,
    {
        Entry { kind: self.kind, msg: self.msg.clone(), time: self.time }
    }
}

/// `entries` followed by `entry`, without the oldest entry if that makes more
/// than `LOG_CAPACITY`.
pub open spec fn appended(entries: Seq<Entry>, entry: Entry) -> Seq<Entry> {
    let all = entries.push(entry);
    if all.len() > LOG_CAPACITY {
        all.subrange(1, all.len() as int)
    } else {
        all
    }
}

/// The last `LOG_CAPACITY` entries that were logged, oldest first.
pub struct Log {
    entries: Vec<Entry>,
}

impl Log {
    /// Whether the log holds no more than `LOG_CAPACITY` entries, as every log
    /// does that was made by `new` and filled by `log`.
    pub open spec fn bounded(&self) -> bool {
        self.entries().len() <= LOG_CAPACITY
    }

    /// The entries that are kept, oldest first.
    pub closed spec fn entries(&self) -> Seq<Entry> {
        self.entries@
    }

    /// An empty log.
    pub fn new() -> (log: Self)
        ensures
            log.entries() == Seq::<Entry>::empty(),
            log.bounded(),
    {
        Log { entries: Vec::new() }
    }

    /// Appends an entry of the given kind, text and time and returns a copy of it
    /// for those who follow the log. Beyond `LOG_CAPACITY` entries the oldest one
    /// goes.
    pub fn log(&mut self, kind: Kind, msg: &str, time: Timestamp) -> (entry: Entry)
        ensures
            entry.kind == kind,
            entry.msg@ == msg@,
            entry.time == time,
            final(self).entries() == appended(old(self).entries(), entry),
            old(self).bounded() ==> final(self).bounded(),
    {
        let entry = Entry { kind, msg: String::from_str(msg), time };
        self.entries.push(entry.clone());
        if self.entries.len() > LOG_CAPACITY {
            self.entries.remove(0);
        }
        entry
    }

    /// Appends a note: `log` with `Kind::Note`.
    pub fn note(&mut self, val: &str, time: Timestamp) -> (entry: Entry)
        ensures
            entry.kind == Kind::Note,
            entry.msg@ == val@,
            entry.time == time,
            final(self).entries() == appended(old(self).entries(), entry),
            old(self).bounded() ==> final(self).bounded(),
    {
        self.log(Kind::Note, val, time)
    }

    /// How many entries are kept.
    pub fn len(&self) -> (n: usize)
        ensures
            n == self.entries().len(),
    {
        self.entries.len()
    }

    /// A copy of the entries that are kept, oldest first: what a new follower of
    /// the log is sent first.
    pub fn snapshot(&self) -> (copy: Vec<Entry>)
        ensures
            copy@ == self.entries(),
    {
        let mut copy: Vec<Entry> = Vec::new();
        let mut i: usize = 0;
        while i < self.entries.len()
            invariant
                i <= self.entries@.len(),
                copy@ == self.entries@.take(i as int),
            decreases self.entries@.len() - i,
        {
            copy.push(self.entries[i].clone());
            i = i + 1;
        }
        copy
    }
}

/// Logging never lets the log grow past `LOG_CAPACITY`, and the newest entry is
/// always the last one.
pub proof fn lemma_log_bounded(entries: Seq<Entry>, entry: Entry)
    requires
        entries.len() <= LOG_CAPACITY,
    ensures
        appended(entries, entry).len() <= LOG_CAPACITY,
        appended(entries, entry).len() >= 1,
        appended(entries, entry).last() == entry,
{
}

} // verus!
