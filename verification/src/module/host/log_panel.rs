//! A bounded log of what the host operations did.
use std::collections::VecDeque;
use vstd::prelude::*;

verus! {

/// How many entries the log keeps; older ones are dropped first.
pub const MAX_ENTRIES: usize = 200;

/// Severity of a log entry.
#[derive(Debug, Clone, Copy, PartialEq, Eq, Structural)]
pub enum LogLevel {
    Info,
    Success,
    Warning,
    Error,
}

/// The four-character tag shown for a level.
pub open spec fn level_label(l: LogLevel) -> Seq<char> {
    match l {
        LogLevel::Info => "INFO"@,
        LogLevel::Success => " OK "@,
        LogLevel::Warning => "WARN"@,
        LogLevel::Error => "ERR "@,
    }
}

impl LogLevel {
    /// The four-character tag shown for this level.
    pub fn label(self) -> (r: &'static str)
        ensures
            r@ == level_label(self),
    {
        match self {
            LogLevel::Info => "INFO",
            LogLevel::Success => " OK ",
            LogLevel::Warning => "WARN",
            LogLevel::Error => "ERR ",
        }
    }
}

/// One log entry.
#[derive(Debug, PartialEq)]
pub struct LogEntry {
    pub timestamp: String,
    pub level: LogLevel,
    pub message: String,
}

/// The most recent log entries, oldest first, at most `MAX_ENTRIES`.
pub struct LogPanel {
    entries: VecDeque<LogEntry>,
}

impl LogPanel {
    /// The entries, oldest first.
    pub closed spec fn entries_spec(&self) -> Seq<LogEntry> {
        self.entries@
    }

    /// The log never holds more than `MAX_ENTRIES` entries.
    pub open spec fn inv(&self) -> bool {
        self.entries_spec().len() <= MAX_ENTRIES
    }

    /// An empty log.
    pub fn new() -> (r: Self)
        ensures
            r.entries_spec() == Seq::<LogEntry>::empty(),
            r.inv(),
    {
        LogPanel { entries: VecDeque::new() }
    }

    /// Append an entry, dropping the oldest one when the log is full.
    pub fn push(&mut self, timestamp: String, level: LogLevel, message: String)
        requires
            old(self).inv(),
        ensures
            final(self).inv(),
            final(self).entries_spec() == (if old(self).entries_spec().len() >= MAX_ENTRIES {
                old(self).entries_spec().drop_first()
            } else {
                old(self).entries_spec()
            }).push(LogEntry { timestamp, level, message }),
    {
        if self.entries.len() >= MAX_ENTRIES {
            let _ = self.entries.pop_front();
        }
        self.entries.push_back(LogEntry { timestamp, level, message });
    }

    /// The entries, oldest first.
    pub fn entries(&self) -> (r: &VecDeque<LogEntry>)
        ensures
            r@ == self.entries_spec(),
    {
        &self.entries
    }

    /// Number of entries.
    pub fn len(&self) -> (r: usize)
        ensures
            r == self.entries_spec().len(),
    {
        self.entries.len()
    }

    /// Whether the log is empty.
    pub fn is_empty(&self) -> (r: bool)
        ensures
            r == (self.entries_spec().len() == 0),
    {
        self.entries.len() == 0
    }

    /// Remove every entry.
    pub fn clear(&mut self)
        ensures
            final(self).entries_spec() == Seq::<LogEntry>::empty(),
            final(self).inv(),
    {
        self.entries.clear();
    }
}

/// The log keeps the most recent entries: after a push the newest entry is
/// last, and every entry kept before it is still there in order unless the
/// log was full, in which case exactly the oldest one left.
pub proof fn lemma_push_keeps_recent(before: Seq<LogEntry>, e: LogEntry, after: Seq<LogEntry>)
    requires
        before.len() <= MAX_ENTRIES,
        after == (if before.len() >= MAX_ENTRIES { before.drop_first() } else { before }).push(e),
    ensures
        after.len() <= MAX_ENTRIES,
        after.last() == e,
        before.len() < MAX_ENTRIES ==> after.drop_last() == before,
        before.len() == MAX_ENTRIES ==> after.drop_last() == before.subrange(1, before.len() as int),
{
    if before.len() >= MAX_ENTRIES {
        assert(after.drop_last() =~= before.drop_first());
    } else {
        assert(after.drop_last() =~= before);
    }
}

} // verus!
