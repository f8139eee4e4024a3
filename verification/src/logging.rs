//! Bounded in-memory log of recent operations.
//!
//! A [`LogCache`] keeps the newest entries up to a fixed capacity and drops
//! the oldest one when a new entry would exceed it. A cache of capacity zero
//! never holds an entry.

use crate::clock::Timestamp;
use crate::text::{escape_text, escaped, lemma_escaped_is_single_line};
use std::collections::VecDeque;
use vstd::prelude::*;
use vstd::string::StringExecFns;

verus! {

/// Severity of a log entry.
#[derive(Clone, Copy, Debug, PartialEq, Eq, Structural)]
pub enum LogLevel {
    Error,
    Warn,
    Info,
    Debug,
    Trace,
}

impl LogLevel {
    /// The upper-case name that stands for this level in rendered text.
    pub open spec fn name(self) -> Seq<char> {
        match self {
            LogLevel::Error => "ERROR"@,
            LogLevel::Warn => "WARN"@,
            LogLevel::Info => "INFO"@,
            LogLevel::Debug => "DEBUG"@,
            LogLevel::Trace => "TRACE"@,
        }
    }

    /// Returns the upper-case name of the level.
    pub fn as_str(&self) -> (text: &'static str)
        ensures
            text@ == self.name(),
    {
        match self {
            LogLevel::Error => "ERROR",
            LogLevel::Warn => "WARN",
            LogLevel::Info => "INFO",
            LogLevel::Debug => "DEBUG",
            LogLevel::Trace => "TRACE",
        }
    }

    /// No level name holds a line break.
    pub proof fn lemma_name_is_single_line(self)
        ensures
            !self.name().contains('\n'),
    {
        reveal_strlit("ERROR");
        reveal_strlit("WARN");
        reveal_strlit("INFO");
        reveal_strlit("DEBUG");
        reveal_strlit("TRACE");
    }
}

/// One logged event. Entries are never changed after they were made.
#[derive(Debug, PartialEq, Eq)]
pub struct LogEntry {
    pub timestamp: Timestamp,
    pub level: LogLevel,
    pub target: String,
    pub message: String,
}

/// What an entry says, apart from when it was made.
pub ghost struct LogRecord {
    pub level: LogLevel,
    pub target: Seq<char>,
    pub message: Seq<char>,
}

/// The mathematical value of a [`LogEntry`].
pub ghost struct LogEntryView {
    pub timestamp: Timestamp,
    pub level: LogLevel,
    pub target: Seq<char>,
    pub message: Seq<char>,
}

impl LogRecord {
    /// The entry that holds this record and was made at `timestamp`.
    pub open spec fn stamped(self, timestamp: Timestamp) -> LogEntryView {
        LogEntryView { timestamp, level: self.level, target: self.target, message: self.message }
    }
}

impl LogEntryView {
    /// The entry without its timestamp.
    pub open spec fn record(self) -> LogRecord {
        LogRecord { level: self.level, target: self.target, message: self.message }
    }

    /// The line that stands for the entry in exported text:
    /// `[<timestamp>] <LEVEL> [<target>] <message>` and a line break. Target
    /// and message are written in their escaped form, so that the line break
    /// at the end is the only one.
    pub open spec fn line(self) -> Seq<char> {
        "["@ + self.timestamp.text() + "] "@ + self.level.name() + " ["@ + escaped(self.target)
            + "] "@ + escaped(self.message) + "\n"@
    }
}

impl View for LogEntry {
    type V = LogEntryView;

    open spec fn view(&self) -> LogEntryView {
        LogEntryView {
            timestamp: self.timestamp,
            level: self.level,
            target: self.target@,
            message: self.message@,
        }
    }
}

impl Clone for LogEntry {
    fn clone(&self) -> (copy: Self)
        ensures
            copy@ == self@,
    {
        LogEntry {
            timestamp: self.timestamp,
            level: self.level,
            target: self.target.clone(),
            message: self.message.clone(),
        }
    }
}

impl LogEntry {
    /// Writes the entry as its line of exported text.
    pub fn to_line(&self) -> (line: String)
        ensures
            line@ == self@.line(),
            !self@.timestamp.text().contains('\n'),
    {
        let stamp = self.timestamp.to_text();
        let target = escape_text(self.target.as_str());
        let message = escape_text(self.message.as_str());
        let mut line = String::from_str("[");
        line.append(stamp.as_str());
        line.append("] ");
        line.append(self.level.as_str());
        line.append(" [");
        line.append(target.as_str());
        line.append("] ");
        line.append(message.as_str());
        line.append("\n");
        line
    }
}

/// The values of a sequence of entries, in the same order.
pub open spec fn entry_views(entries: Seq<LogEntry>) -> Seq<LogEntryView> {
    entries.map_values(|e: LogEntry| e@)
}

/// The records of a sequence of entries, in the same order.
pub open spec fn records_of(entries: Seq<LogEntryView>) -> Seq<LogRecord> {
    entries.map_values(|e: LogEntryView| e.record())
}

/// The last `n` items of `items`, or all of them where there are fewer.
pub open spec fn keep_last<T>(items: Seq<T>, n: nat) -> Seq<T> {
    if items.len() <= n {
        items
    } else {
        items.subrange(items.len() - n, items.len() as int)
    }
}

/// The content of a buffer of capacity `capacity` after `item` was pushed
/// onto the content `held`.
pub open spec fn ring_push<T>(held: Seq<T>, capacity: nat, item: T) -> Seq<T> {
    keep_last(held.push(item), capacity)
}

/// The content of a buffer of capacity `capacity` after each of `items` was
/// pushed in turn, starting from the content `held`.
pub open spec fn ring_push_all<T>(held: Seq<T>, capacity: nat, items: Seq<T>) -> Seq<T>
    decreases items.len(),
{
    if items.len() == 0 {
        held
    } else {
        ring_push(ring_push_all(held, capacity, items.drop_last()), capacity, items.last())
    }
}

/// The number of times `c` occurs in `text`.
pub open spec fn occurrences(text: Seq<char>, c: char) -> nat
    decreases text.len(),
{
    if text.len() == 0 {
        0
    } else {
        occurrences(text.drop_last(), c) + if text.last() == c {
            1nat
        } else {
            0nat
        }
    }
}

/// The exported text of a sequence of entries: one line for each entry, the
/// oldest first.
pub open spec fn render(entries: Seq<LogEntryView>) -> Seq<char>
    decreases entries.len(),
{
    if entries.len() == 0 {
        Seq::empty()
    } else {
        render(entries.drop_last()) + entries.last().line()
    }
}

/// A push never leaves more than `capacity` items, and leaves the new item
/// last wherever the capacity is not zero.
pub proof fn lemma_ring_push_bounded<T>(held: Seq<T>, capacity: nat, item: T)
    ensures
        ring_push(held, capacity, item).len() <= capacity,
        held.len() < capacity ==> ring_push(held, capacity, item) == held.push(item),
        capacity > 0 ==> ring_push(held, capacity, item).last() == item,
{
}

/// After any sequence of pushes onto an empty buffer of capacity `capacity`,
/// the buffer holds at most `capacity` items: the last `capacity` of those
/// pushed, in the order in which they were pushed.
pub proof fn lemma_pushes_keep_the_newest<T>(capacity: nat, items: Seq<T>)
    ensures
        ring_push_all(Seq::<T>::empty(), capacity, items) == keep_last(items, capacity),
        ring_push_all(Seq::<T>::empty(), capacity, items).len() <= capacity,
    decreases items.len(),
{
    if items.len() > 0 {
        let before = items.drop_last();
        lemma_pushes_keep_the_newest(capacity, before);
        assert(before.push(items.last()) == items);
        assert(keep_last(keep_last(before, capacity).push(items.last()), capacity) == keep_last(
            items,
            capacity,
        ));
    }
}

/// Pushing one item after a run of pushes is the run with one more item.
pub proof fn lemma_keep_last_push<T>(held: Seq<T>, capacity: nat, items: Seq<T>, item: T)
    ensures
        ring_push(keep_last(held + items, capacity), capacity, item) == keep_last(
            held + items.push(item),
            capacity,
        ),
{
    assert((held + items).push(item) == held + items.push(item));
    assert(keep_last(keep_last(held + items, capacity).push(item), capacity) == keep_last(
        (held + items).push(item),
        capacity,
    ));
}

/// Pushing a run of items in two parts is pushing all of it.
pub proof fn lemma_keep_last_twice<T>(held: Seq<T>, capacity: nat, first: Seq<T>, second: Seq<T>)
    ensures
        keep_last(keep_last(held + first, capacity) + second, capacity) == keep_last(
            held + (first + second),
            capacity,
        ),
{
    assert((held + first) + second == held + (first + second));
    assert(keep_last(keep_last(held + first, capacity) + second, capacity) == keep_last(
        (held + first) + second,
        capacity,
    ));
}

/// A run of pushes onto a buffer within its capacity leaves the last
/// `capacity` items of what was held and what was pushed.
pub proof fn lemma_pushes_onto<T>(held: Seq<T>, capacity: nat, items: Seq<T>)
    requires
        held.len() <= capacity,
    ensures
        ring_push_all(held, capacity, items) == keep_last(held + items, capacity),
    decreases items.len(),
{
    if items.len() == 0 {
        assert(held + items == held);
    } else {
        let before = items.drop_last();
        lemma_pushes_onto(held, capacity, before);
        lemma_keep_last_push(held, capacity, before, items.last());
        assert(before.push(items.last()) == items);
    }
}

/// The entries that stand for `reports`, each stamped with the instant at
/// the same place in `stamps`.
pub open spec fn stamped_all(reports: Seq<LogRecord>, stamps: Seq<Timestamp>) -> Seq<
    LogEntryView,
> {
    Seq::new(reports.len(), |i: int| reports[i].stamped(stamps[i]))
}

/// Whether a cache of capacity `capacity` that held `before` holds `after`
/// once `reports` were added in turn, each stamped with some instant: the
/// entries held before stay as they were, the oldest leave where room runs
/// out, and the new ones follow in the order of the reports.
pub open spec fn logged(
    before: Seq<LogEntryView>,
    after: Seq<LogEntryView>,
    capacity: nat,
    reports: Seq<LogRecord>,
) -> bool {
    exists|stamps: Seq<Timestamp>|
        stamps.len() == reports.len() && after == keep_last(
            before + #[trigger] stamped_all(reports, stamps),
            capacity,
        )
}

/// Adding nothing to a cache within its capacity leaves it as it is.
pub proof fn lemma_logged_nothing(before: Seq<LogEntryView>, capacity: nat)
    requires
        before.len() <= capacity,
    ensures
        logged(before, before, capacity, Seq::<LogRecord>::empty()),
{
    let stamps = Seq::<Timestamp>::empty();
    assert(stamped_all(Seq::<LogRecord>::empty(), stamps) =~= Seq::<LogEntryView>::empty());
    assert(before + stamped_all(Seq::<LogRecord>::empty(), stamps) =~= before);
}

/// One push is the addition of one report.
pub proof fn lemma_logged_one(
    before: Seq<LogEntryView>,
    after: Seq<LogEntryView>,
    capacity: nat,
    report: LogRecord,
    timestamp: Timestamp,
)
    requires
        after == ring_push(before, capacity, report.stamped(timestamp)),
    ensures
        logged(before, after, capacity, seq![report]),
{
    let stamps = seq![timestamp];
    assert(stamped_all(seq![report], stamps) =~= seq![report.stamped(timestamp)]);
    assert(before + stamped_all(seq![report], stamps) =~= before.push(report.stamped(timestamp)));
}

/// Additions made one after the other are one addition of all the reports.
pub proof fn lemma_logged_more(
    before: Seq<LogEntryView>,
    between: Seq<LogEntryView>,
    after: Seq<LogEntryView>,
    capacity: nat,
    first: Seq<LogRecord>,
    second: Seq<LogRecord>,
)
    requires
        logged(before, between, capacity, first),
        logged(between, after, capacity, second),
    ensures
        logged(before, after, capacity, first + second),
{
    let early = choose|stamps: Seq<Timestamp>|
        stamps.len() == first.len() && between == keep_last(
            before + #[trigger] stamped_all(first, stamps),
            capacity,
        );
    let late = choose|stamps: Seq<Timestamp>|
        stamps.len() == second.len() && after == keep_last(
            between + #[trigger] stamped_all(second, stamps),
            capacity,
        );
    let stamps = early + late;
    assert(stamped_all(first + second, stamps) =~= stamped_all(first, early) + stamped_all(
        second,
        late,
    ));
    lemma_keep_last_twice(before, capacity, stamped_all(first, early), stamped_all(second, late));
}

/// What an addition leaves, told without the timestamps: the records held
/// before and the reports, less the oldest where room ran out.
pub proof fn lemma_logged_records(
    before: Seq<LogEntryView>,
    after: Seq<LogEntryView>,
    capacity: nat,
    reports: Seq<LogRecord>,
)
    requires
        logged(before, after, capacity, reports),
    ensures
        records_of(after) == keep_last(records_of(before) + reports, capacity),
        after.len() <= capacity || after.len() == before.len() + reports.len(),
{
    let stamps = choose|stamps: Seq<Timestamp>|
        stamps.len() == reports.len() && after == keep_last(
            before + #[trigger] stamped_all(reports, stamps),
            capacity,
        );
    let all = before + stamped_all(reports, stamps);
    assert(records_of(all) =~= records_of(before) + reports);
    assert(records_of(keep_last(all, capacity)) =~= keep_last(records_of(all), capacity));
}

/// A snapshot taken of a cache that was just cleared is empty, whatever the
/// cache held before.
pub proof fn lemma_snapshot_after_clear_is_empty(cleared: LogCache, snapshot: Seq<LogEntry>)
    requires
        cleared@ == Seq::<LogEntryView>::empty(),
        entry_views(snapshot) == cleared@,
    ensures
        snapshot.len() == 0,
{
    assert(entry_views(snapshot).len() == snapshot.len());
}

/// Dropping timestamps commutes with a push.
pub proof fn lemma_records_of_push(held: Seq<LogEntryView>, capacity: nat, entry: LogEntryView)
    ensures
        records_of(ring_push(held, capacity, entry)) == ring_push(
            records_of(held),
            capacity,
            entry.record(),
        ),
{
    assert(records_of(held.push(entry)) == records_of(held).push(entry.record()));
    assert(records_of(ring_push(held, capacity, entry)) == ring_push(
        records_of(held),
        capacity,
        entry.record(),
    ));
}

/// Occurrences add up over concatenation.
pub proof fn lemma_occurrences_concat(a: Seq<char>, b: Seq<char>, c: char)
    ensures
        occurrences(a + b, c) == occurrences(a, c) + occurrences(b, c),
    decreases b.len(),
{
    if b.len() == 0 {
        assert(a + b == a);
    } else {
        lemma_occurrences_concat(a, b.drop_last(), c);
        assert((a + b).drop_last() == a + b.drop_last());
    }
}

/// A text that does not hold `c` has no occurrence of it.
pub proof fn lemma_occurrences_absent(text: Seq<char>, c: char)
    requires
        !text.contains(c),
    ensures
        occurrences(text, c) == 0,
    decreases text.len(),
{
    if text.len() > 0 {
        assert(text.last() == text[text.len() - 1]);
        assert forall|i: int| 0 <= i < text.drop_last().len() implies text.drop_last()[i] != c by {
            assert(text.drop_last()[i] == text[i]);
        }
        lemma_occurrences_absent(text.drop_last(), c);
    }
}

/// The line of an entry whose timestamp is written without a line break
/// ends in the only line break it holds, whatever its target and message.
pub proof fn lemma_line_has_one_break(entry: LogEntryView)
    requires
        !entry.timestamp.text().contains('\n'),
    ensures
        occurrences(entry.line(), '\n') == 1,
{
    reveal_strlit("[");
    reveal_strlit("] ");
    reveal_strlit(" [");
    reveal_strlit("\n");
    entry.level.lemma_name_is_single_line();
    lemma_escaped_is_single_line(entry.target);
    lemma_escaped_is_single_line(entry.message);
    let nl = '\n';
    let opened = "["@;
    let with_stamp = opened + entry.timestamp.text();
    let stamp_closed = with_stamp + "] "@;
    let with_level = stamp_closed + entry.level.name();
    let target_opened = with_level + " ["@;
    let with_target = target_opened + escaped(entry.target);
    let target_closed = with_target + "] "@;
    let with_message = target_closed + escaped(entry.message);
    lemma_occurrences_absent("["@, nl);
    lemma_occurrences_absent(entry.timestamp.text(), nl);
    lemma_occurrences_absent("] "@, nl);
    lemma_occurrences_absent(entry.level.name(), nl);
    lemma_occurrences_absent(" ["@, nl);
    lemma_occurrences_absent(escaped(entry.target), nl);
    lemma_occurrences_absent(escaped(entry.message), nl);
    lemma_occurrences_concat(opened, entry.timestamp.text(), nl);
    lemma_occurrences_concat(with_stamp, "] "@, nl);
    lemma_occurrences_concat(stamp_closed, entry.level.name(), nl);
    lemma_occurrences_concat(with_level, " ["@, nl);
    lemma_occurrences_concat(target_opened, escaped(entry.target), nl);
    lemma_occurrences_concat(with_target, "] "@, nl);
    lemma_occurrences_concat(target_closed, escaped(entry.message), nl);
    lemma_occurrences_concat(with_message, "\n"@, nl);
    assert("\n"@ == seq![nl]);
    assert(seq![nl].drop_last() == Seq::<char>::empty());
    assert(occurrences(Seq::<char>::empty(), nl) == 0);
    assert(seq![nl].last() == nl);
    assert(occurrences(seq![nl], nl) == 1);
}

/// The exported text of entries whose timestamps are written without a line
/// break holds as many line breaks as there are entries.
pub proof fn lemma_render_line_count(entries: Seq<LogEntryView>)
    requires
        forall|i: int| 0 <= i < entries.len() ==> !(#[trigger] entries[i]).timestamp.text().contains('\n'),
    ensures
        occurrences(render(entries), '\n') == entries.len(),
    decreases entries.len(),
{
    if entries.len() > 0 {
        let before = entries.drop_last();
        assert forall|i: int| 0 <= i < before.len() implies !(
        #[trigger] before[i]).timestamp.text().contains('\n') by {
            assert(before[i] == entries[i]);
        }
        lemma_render_line_count(before);
        assert(entries.last() == entries[entries.len() - 1]);
        lemma_line_has_one_break(entries.last());
        lemma_occurrences_concat(render(before), entries.last().line(), '\n');
    }
}

/// A fixed-capacity log that keeps the newest entries in the order in which
/// they were added.
pub struct LogCache {
    entries: VecDeque<LogEntry>,
    max_entries: usize,
}

impl View for LogCache {
    type V = Seq<LogEntryView>;

    /// The entries held, the oldest first.
    closed spec fn view(&self) -> Seq<LogEntryView> {
        entry_views(self.entries@)
    }
}

impl LogCache {
    /// The cache never holds more entries than its capacity. This holds of
    /// every cache at every time.
    #[verifier::type_invariant]
    pub closed spec fn within_capacity(self) -> bool {
        self.entries@.len() <= self.max_entries
    }

    /// Spells out what [`Self::within_capacity`] says.
    pub proof fn lemma_within_capacity(self)
        requires
            self.within_capacity(),
        ensures
            self@.len() <= self.capacity(),
            self.records().len() <= self.capacity(),
    {
    }

    /// The greatest number of entries that the cache holds at any time.
    pub closed spec fn capacity(self) -> nat {
        self.max_entries as nat
    }

    /// The records held, the oldest first.
    pub open spec fn records(self) -> Seq<LogRecord> {
        records_of(self@)
    }

    /// Creates an empty cache that holds up to `max_entries` entries.
    pub fn new(max_entries: usize) -> (cache: Self)
        ensures
            cache@ == Seq::<LogEntryView>::empty(),
            cache.capacity() == max_entries,
    {
        let cache = LogCache { entries: VecDeque::new(), max_entries };
        assert(cache@ =~= Seq::<LogEntryView>::empty());
        cache
    }

    /// Returns the capacity that the cache was made with.
    pub fn max_entries(&self) -> (limit: usize)
        ensures
            limit == self.capacity(),
    {
        self.max_entries
    }

    /// Adds an entry made at `timestamp`. Where the cache is full, the oldest
    /// entry leaves first; a cache of capacity zero stays empty.
    pub fn add_entry_at(
        &mut self,
        timestamp: Timestamp,
        level: LogLevel,
        target: &str,
        message: &str,
    )
        ensures
            final(self).capacity() == old(self).capacity(),
            final(self)@ == ring_push(
                old(self)@,
                old(self).capacity(),
                (LogRecord { level, target: target@, message: message@ }).stamped(timestamp),
            ),
            final(self)@.len() <= final(self).capacity(),
    {
        proof {
            use_type_invariant(&*self);
        }
        let ghost before = self.entries@;
        if self.max_entries == 0 {
            assert(self@ =~= Seq::<LogEntryView>::empty());
            return ;
        }
        let entry = LogEntry {
            timestamp,
            level,
            target: target.to_owned(),
            message: message.to_owned(),
        };
        let mut entries: VecDeque<LogEntry> = VecDeque::new();
        std::mem::swap(&mut self.entries, &mut entries);
        if entries.len() >= self.max_entries {
            entries.pop_front();
        }
        entries.push_back(entry);
        self.entries = entries;
        assert(self@ =~= ring_push(entry_views(before), self.max_entries as nat, entry@));
    }

    /// Adds an entry stamped with the current time. Where the cache is full,
    /// the oldest entry leaves first; a cache of capacity zero stays empty.
    pub fn add_entry(&mut self, level: LogLevel, target: &str, message: &str)
        ensures
            final(self).capacity() == old(self).capacity(),
            exists|timestamp: Timestamp|
                final(self)@ == ring_push(
                    old(self)@,
                    old(self).capacity(),
                    #[trigger] (LogRecord { level, target: target@, message: message@ }).stamped(
                        timestamp,
                    ),
                ),
            final(self).records() == ring_push(
                old(self).records(),
                old(self).capacity(),
                (LogRecord { level, target: target@, message: message@ }),
            ),
            final(self)@.len() <= final(self).capacity(),
    {
        let timestamp = Timestamp::now();
        let ghost entry = (LogRecord { level, target: target@, message: message@ }).stamped(
            timestamp,
        );
        proof {
            lemma_records_of_push(self@, self.capacity(), entry);
        }
        self.add_entry_at(timestamp, level, target, message);
    }

    /// Returns a copy of the entries held, the oldest first.
    pub fn get_entries(&self) -> (entries: Vec<LogEntry>)
        ensures
            entry_views(entries@) == self@,
    {
        let mut entries: Vec<LogEntry> = Vec::new();
        let mut i: usize = 0;
        while i < self.entries.len()
            invariant
                i <= self.entries.len(),
                entries@.len() == i,
                forall|j: int| 0 <= j < i ==> (#[trigger] entries@[j])@ == self.entries@[j]@,
            decreases self.entries.len() - i,
        {
            entries.push(self.entries[i].clone());
            i += 1;
        }
        assert(entry_views(entries@) =~= self@);
        entries
    }

    /// Removes every entry. The capacity stays as it is.
    pub fn clear(&mut self)
        ensures
            final(self)@ == Seq::<LogEntryView>::empty(),
            final(self).capacity() == old(self).capacity(),
    {
        self.entries = VecDeque::new();
        assert(self@ =~= Seq::<LogEntryView>::empty());
    }

    /// Returns the number of entries held, which never exceeds the capacity.
    pub fn len(&self) -> (count: usize)
        ensures
            count == self@.len(),
            count <= self.capacity(),
    {
        proof {
            use_type_invariant(self);
        }
        self.entries.len()
    }

    /// Says whether the cache holds no entry.
    pub fn is_empty(&self) -> (empty: bool)
        ensures
            empty <==> self@.len() == 0,
    {
        self.len() == 0
    }

    /// Writes the entries held as text, one line for each entry and the
    /// oldest first. A line feed inside a target or a message is written as
    /// `\n`, a carriage return as `\r` and a backslash doubled, so that the
    /// text has exactly as many lines as the cache has entries.
    pub fn to_formatted_string(&self) -> (text: String)
        ensures
            text@ == render(self@),
            occurrences(text@, '\n') == self@.len(),
    {
        let mut text = String::new();
        let mut i: usize = 0;
        while i < self.entries.len()
            invariant
                i <= self.entries.len(),
                text@ == render(self@.take(i as int)),
                forall|j: int| 0 <= j < i ==> !(#[trigger] self@[j]).timestamp.text().contains('\n'),
            decreases self.entries.len() - i,
        {
            let entry = &self.entries[i];
            let line = entry.to_line();
            text.append(line.as_str());
            proof {
                let shown = self@.take(i + 1);
                assert(shown.drop_last() == self@.take(i as int));
                assert(shown.last() == entry@);
            }
            i += 1;
        }
        proof {
            assert(self@.take(i as int) == self@);
            lemma_render_line_count(self@);
        }
        text
    }
}

/// Adds `message` to the log at level `level`. Where the cache is full, the
/// oldest entry leaves first.
pub fn log_at(log: &mut LogCache, level: LogLevel, target: &str, message: &str)
    ensures
        final(log).capacity() == old(log).capacity(),
        exists|timestamp: Timestamp|
            final(log)@ == ring_push(
                old(log)@,
                old(log).capacity(),
                #[trigger] (LogRecord { level, target: target@, message: message@ }).stamped(
                    timestamp,
                ),
            ),
        logged(
            old(log)@,
            final(log)@,
            old(log).capacity(),
            seq![(LogRecord { level, target: target@, message: message@ })],
        ),
        final(log).records() == ring_push(
            old(log).records(),
            old(log).capacity(),
            (LogRecord { level, target: target@, message: message@ }),
        ),
{
    let ghost before = log@;
    let ghost capacity = log.capacity();
    let ghost report = LogRecord { level, target: target@, message: message@ };
    log.add_entry(level, target, message);
    proof {
        let timestamp = choose|timestamp: Timestamp|
            log@ == ring_push(before, capacity, #[trigger] report.stamped(timestamp));
        lemma_logged_one(before, log@, capacity, report, timestamp);
    }
}

/// Adds an error message to the log.
pub fn log_error(log: &mut LogCache, target: &str, message: &str)
    ensures
        final(log).capacity() == old(log).capacity(),
        exists|timestamp: Timestamp|
            final(log)@ == ring_push(
                old(log)@,
                old(log).capacity(),
                #[trigger] (LogRecord {
                    level: LogLevel::Error,
                    target: target@,
                    message: message@,
                }).stamped(timestamp),
            ),
        logged(
            old(log)@,
            final(log)@,
            old(log).capacity(),
            seq![(LogRecord { level: LogLevel::Error, target: target@, message: message@ })],
        ),
        final(log).records() == ring_push(
            old(log).records(),
            old(log).capacity(),
            (LogRecord { level: LogLevel::Error, target: target@, message: message@ }),
        ),
{
    log_at(log, LogLevel::Error, target, message);
}

/// Adds a warning to the log.
pub fn log_warn(log: &mut LogCache, target: &str, message: &str)
    ensures
        final(log).capacity() == old(log).capacity(),
        exists|timestamp: Timestamp|
            final(log)@ == ring_push(
                old(log)@,
                old(log).capacity(),
                #[trigger] (LogRecord {
                    level: LogLevel::Warn,
                    target: target@,
                    message: message@,
                }).stamped(timestamp),
            ),
        logged(
            old(log)@,
            final(log)@,
            old(log).capacity(),
            seq![(LogRecord { level: LogLevel::Warn, target: target@, message: message@ })],
        ),
        final(log).records() == ring_push(
            old(log).records(),
            old(log).capacity(),
            (LogRecord { level: LogLevel::Warn, target: target@, message: message@ }),
        ),
{
    log_at(log, LogLevel::Warn, target, message);
}

/// Adds an informational message to the log.
pub fn log_info(log: &mut LogCache, target: &str, message: &str)
    ensures
        final(log).capacity() == old(log).capacity(),
        exists|timestamp: Timestamp|
            final(log)@ == ring_push(
                old(log)@,
                old(log).capacity(),
                #[trigger] (LogRecord {
                    level: LogLevel::Info,
                    target: target@,
                    message: message@,
                }).stamped(timestamp),
            ),
        logged(
            old(log)@,
            final(log)@,
            old(log).capacity(),
            seq![(LogRecord { level: LogLevel::Info, target: target@, message: message@ })],
        ),
        final(log).records() == ring_push(
            old(log).records(),
            old(log).capacity(),
            (LogRecord { level: LogLevel::Info, target: target@, message: message@ }),
        ),
{
    log_at(log, LogLevel::Info, target, message);
}

/// Adds a debug message to the log.
pub fn log_debug(log: &mut LogCache, target: &str, message: &str)
    ensures
        final(log).capacity() == old(log).capacity(),
        exists|timestamp: Timestamp|
            final(log)@ == ring_push(
                old(log)@,
                old(log).capacity(),
                #[trigger] (LogRecord {
                    level: LogLevel::Debug,
                    target: target@,
                    message: message@,
                }).stamped(timestamp),
            ),
        logged(
            old(log)@,
            final(log)@,
            old(log).capacity(),
            seq![(LogRecord { level: LogLevel::Debug, target: target@, message: message@ })],
        ),
        final(log).records() == ring_push(
            old(log).records(),
            old(log).capacity(),
            (LogRecord { level: LogLevel::Debug, target: target@, message: message@ }),
        ),
{
    log_at(log, LogLevel::Debug, target, message);
}

/// Adds a trace message to the log.
pub fn log_trace(log: &mut LogCache, target: &str, message: &str)
    ensures
        final(log).capacity() == old(log).capacity(),
        exists|timestamp: Timestamp|
            final(log)@ == ring_push(
                old(log)@,
                old(log).capacity(),
                #[trigger] (LogRecord {
                    level: LogLevel::Trace,
                    target: target@,
                    message: message@,
                }).stamped(timestamp),
            ),
        logged(
            old(log)@,
            final(log)@,
            old(log).capacity(),
            seq![(LogRecord { level: LogLevel::Trace, target: target@, message: message@ })],
        ),
        final(log).records() == ring_push(
            old(log).records(),
            old(log).capacity(),
            (LogRecord { level: LogLevel::Trace, target: target@, message: message@ }),
        ),
{
    log_at(log, LogLevel::Trace, target, message);
}

/// Creates the log cache of an application, empty and with room for
/// `max_entries` entries.
pub fn init_log_cache(max_entries: usize) -> (cache: LogCache)
    ensures
        cache@ == Seq::<LogEntryView>::empty(),
        cache.capacity() == max_entries,
{
    LogCache::new(max_entries)
}

} // verus!
