use vstd::prelude::*;

use crate::entry::LogEntry;

verus! {

/// The ordered buffer of captured entries of one thread.
///
/// Entries stay in the order in which they were captured; nothing reorders
/// them by level or by anything else.
pub struct MockLogger {
    records: Vec<LogEntry>,
}

impl View for MockLogger {
    type V = Seq<(log::Level, Seq<char>)>;

    open spec fn view(&self) -> Seq<(log::Level, Seq<char>)> {
        self.records()@.map_values(|e: LogEntry| e@)
    }
}

impl MockLogger {
    /// The captured entries, in the order of capture.
    pub closed spec fn records(&self) -> Vec<LogEntry> {
        self.records
    }

    /// An empty buffer.
    pub fn new() -> (r: MockLogger)
        ensures
            r@ == Seq::<(log::Level, Seq<char>)>::empty(),
    {
        let r = MockLogger { records: Vec::new() };
        assert(r@ =~= Seq::<(log::Level, Seq<char>)>::empty());
        r
    }

    /// Appends a captured entry at the end of the buffer.
    pub fn capture(&mut self, entry: LogEntry)
        ensures
            final(self)@ == old(self)@.push(entry@),
    {
        let ghost e = entry@;
        self.records.push(entry);
        assert(self@ =~= old(self)@.push(e));
    }

    /// Accepts every record, whatever its level or origin.
    pub fn enabled(_metadata: &log::Metadata) -> (r: bool)
        ensures
            r,
    {
        true
    }

    /// Hands the whole buffer, read-only, to `f` and returns what `f` returns.
    pub fn entries<R, F: FnOnce(&Vec<LogEntry>) -> R>(&self, f: F) -> (r: R)
        requires
            f.requires((&self.records(),)),
        ensures
            f.ensures((&self.records(),), r),
    {
        f(&self.records)
    }

    /// Calls `f` once for each entry, in order, with the entry's zero-based
    /// index, and returns the results in that order.
    pub fn map<R, F: Fn(usize, &LogEntry) -> R>(&self, f: F) -> (r: Vec<R>)
        requires
            forall|i: int| 0 <= i < self@.len() ==> f.requires((i as usize, &self.records()@[i])),
        ensures
            r@.len() == self@.len(),
            forall|i: int| 0 <= i < self@.len() ==> f.ensures((i as usize, &self.records()@[i]), #[trigger] r@[i]),
    {
        let mut out: Vec<R> = Vec::new();
        let n = self.records.len();
        let mut i: usize = 0;
        while i < n
            invariant
                n == self.records@.len(),
                n == self@.len(),
                i <= n,
                out@.len() == i,
                forall|k: int| 0 <= k < self@.len() ==> f.requires((k as usize, &self.records()@[k])),
                forall|k: int| 0 <= k < i ==> f.ensures((k as usize, &self.records()@[k]), #[trigger] out@[k]),
            decreases n - i,
        {
            let x = f(i, &self.records[i]);
            out.push(x);
            i = i + 1;
        }
        out
    }

    /// Removes every captured entry.
    pub fn empty(&mut self)
        ensures
            final(self)@ == Seq::<(log::Level, Seq<char>)>::empty(),
    {
        self.records.truncate(0);
        assert(self@ =~= Seq::<(log::Level, Seq<char>)>::empty());
    }
}

/// The buffer `start` after capturing `calls`, one after the other, each as
/// `MockLogger::capture` appends it.
pub open spec fn after_captures(
    start: Seq<(log::Level, Seq<char>)>,
    calls: Seq<(log::Level, Seq<char>)>,
) -> Seq<(log::Level, Seq<char>)>
    decreases calls.len(),
{
    if calls.len() == 0 {
        start
    } else {
        after_captures(start, calls.drop_last()).push(calls.last())
    }
}

/// Capturing the entries `calls` into a freshly emptied buffer leaves exactly
/// those entries in it, at their levels, with their messages, in the order of
/// the calls.
pub proof fn lemma_captures_in_order(calls: Seq<(log::Level, Seq<char>)>)
    ensures
        after_captures(Seq::empty(), calls) == calls,
    decreases calls.len(),
{
    if calls.len() > 0 {
        lemma_captures_in_order(calls.drop_last());
        assert(calls.drop_last().push(calls.last()) =~= calls);
    }
}

/// The records that `MockLogger::entries` hands over, and that
/// `MockLogger::map` visits index by index, are the buffer's entries one for
/// one and in the order of capture: there are as many as entries, and the
/// record at index `i` is the `i`-th entry.
pub proof fn lemma_map_follows_entries(logger: MockLogger)
    ensures
        logger.records()@.len() == logger@.len(),
        forall|i: int| 0 <= i < logger@.len() ==> (#[trigger] logger.records()@[i])@ == logger@[i],
{
}

} // verus!
