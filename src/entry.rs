use vstd::prelude::*;

verus! {

#[verifier::external_type_specification]
pub struct ExLevel(log::Level);

#[verifier::external_type_specification]
#[verifier::external_body]
pub struct ExRecord<'a>(log::Record<'a>);

#[verifier::external_type_specification]
#[verifier::external_body]
pub struct ExMetadata<'a>(log::Metadata<'a>);

/// The level that a record of the `log` facade carries.
pub uninterp spec fn level_of(record: &log::Record) -> log::Level;

/// Relies on log::Record::level: it reads the level stored in the record,
/// the one that the log call was made at.
pub assume_specification<'a>[ log::Record::<'a>::level ](record: &log::Record<'a>) -> (r: log::Level)
    ensures
        r == level_of(record),
;

/// Relies on log::Record::args and std::fmt::write: the message of the log
/// call, rendered to text at the time of the call. Where one of the
/// message's arguments fails to format, what was written up to there is
/// kept and the error is dropped, so a log call never fails.
#[verifier::external_body]
fn rendered_message(record: &log::Record) -> String {
    let mut text = String::new();
    let _ = std::fmt::write(&mut text, *record.args());
    text
}

/// A captured log record: its level and its fully rendered message.
pub struct LogEntry {
    pub level: log::Level,
    pub body: String,
}

impl View for LogEntry {
    type V = (log::Level, Seq<char>);

    open spec fn view(&self) -> (log::Level, Seq<char>) {
        (self.level, self.body@)
    }
}

impl LogEntry {
    /// An entry at `level` whose message is `body`.
    pub fn new(level: log::Level, body: String) -> (r: LogEntry)
        ensures
            r@ == (level, body@),
    {
        LogEntry { level, body }
    }

    /// Captures a record of the `log` facade: its level, and its message
    /// rendered once, now.
    pub fn from_record(record: &log::Record) -> (r: LogEntry)
        ensures
            r.level == level_of(record),
    {
        LogEntry::new(record.level(), rendered_message(record))
    }
}

} // verus!
