//! Bookkeeping of the benchmarker's progress: one row per worker count that
//! was tried, updated from the reports the benchmark run sends.
use vstd::prelude::*;

use std::collections::BTreeMap;

use crate::float_text::is_digit;
use crate::text::str_chars;

verus! {

/// What is known of one worker count while it is being benchmarked. Times are
/// readings of a monotonic clock, in nanoseconds.
#[derive(Debug, Clone)]
pub struct WorkerStatus {
    pub started: u64,
    pub finished: Option<u64>,
    pub added: bool,
    pub failed_reason: Option<String>,
    pub current_frame: u64,
    pub total_frames: u64,
}

impl WorkerStatus {
    /// The mark shown in the "Meets Threshold" column: a cross when the
    /// worker count failed, a check mark when it was added, a dash otherwise.
    pub open spec fn status_text(self) -> Seq<char> {
        if self.failed_reason is Some {
            "✕"@
        } else if self.added {
            "✓"@
        } else {
            "-"@
        }
    }

    /// The mark shown in the "Meets Threshold" column.
    pub fn status(&self) -> (r: String)
        ensures
            r@ == self.status_text(),
    {
        if self.failed_reason.is_some() {
            "✕".to_owned()
        } else if self.added {
            "✓".to_owned()
        } else {
            "-".to_owned()
        }
    }
}

/// A benchmark report about one worker count, as printed to the console when
/// the output is not a terminal.
#[derive(Debug, Clone)]
pub enum BenchmarkerConsoleEvent {
    Progress { worker: u8, current_frame: u64, total_frames: u64 },
    WorkerCompleted { worker: u8 },
    WorkerAdded { worker: u8 },
    WorkerFailed { worker: u8, error: String },
}

impl BenchmarkerConsoleEvent {
    /// The worker count the report is about.
    pub open spec fn worker_of(self) -> u8 {
        match self {
            BenchmarkerConsoleEvent::Progress { worker, .. } => worker,
            BenchmarkerConsoleEvent::WorkerCompleted { worker } => worker,
            BenchmarkerConsoleEvent::WorkerAdded { worker } => worker,
            BenchmarkerConsoleEvent::WorkerFailed { worker, .. } => worker,
        }
    }
}

/// The row of a worker count after `event`, received at time `now`, given its
/// row before (`None` when it had none). Progress creates the row when it is
/// missing; the other reports only change an existing row.
pub open spec fn updated_row(
    row: Option<WorkerStatus>,
    event: BenchmarkerConsoleEvent,
    now: u64,
) -> Option<WorkerStatus> {
    match row {
        None => match event {
            BenchmarkerConsoleEvent::Progress { current_frame, total_frames, .. } => Some(
                WorkerStatus {
                    started: now,
                    finished: None,
                    added: false,
                    failed_reason: None,
                    current_frame,
                    total_frames,
                },
            ),
            _ => None,
        },
        Some(ws) => Some(
            match event {
                BenchmarkerConsoleEvent::Progress { current_frame, total_frames, .. } => WorkerStatus {
                    current_frame,
                    total_frames,
                    ..ws
                },
                BenchmarkerConsoleEvent::WorkerCompleted { .. } => WorkerStatus {
                    finished: Some(now),
                    ..ws
                },
                BenchmarkerConsoleEvent::WorkerAdded { .. } => WorkerStatus { added: true, ..ws },
                BenchmarkerConsoleEvent::WorkerFailed { error, .. } => WorkerStatus {
                    failed_reason: Some(error),
                    ..ws
                },
            },
        ),
    }
}

/// The table of rows after `event`, received at time `now`.
pub open spec fn apply_report(
    results: Map<u8, WorkerStatus>,
    event: BenchmarkerConsoleEvent,
    now: u64,
) -> Map<u8, WorkerStatus> {
    let w = event.worker_of();
    let before = if results.contains_key(w) {
        Some(results[w])
    } else {
        None
    };
    match updated_row(before, event, now) {
        Some(ws) => results.insert(w, ws),
        None => results,
    }
}

/// The benchmarker's table: one row per worker count, by worker count.
#[derive(Clone)]
pub struct BenchmarkerState {
    pub results: BTreeMap<u8, WorkerStatus>,
}

impl BenchmarkerState {
    /// An empty table.
    pub fn new() -> (r: BenchmarkerState)
        ensures
            r.results@ == Map::<u8, WorkerStatus>::empty(),
    {
        BenchmarkerState { results: BTreeMap::new() }
    }

    /// Records a report received at time `now`.
    pub fn apply(&mut self, event: BenchmarkerConsoleEvent, now: u64)
        ensures
            final(self).results@ == apply_report(old(self).results@, event, now),
    {
        let w: u8 = match &event {
            BenchmarkerConsoleEvent::Progress { worker, .. } => *worker,
            BenchmarkerConsoleEvent::WorkerCompleted { worker } => *worker,
            BenchmarkerConsoleEvent::WorkerAdded { worker } => *worker,
            BenchmarkerConsoleEvent::WorkerFailed { worker, .. } => *worker,
        };
        let ghost before = self.results@;
        let row = self.results.remove(&w);
        assert(self.results@ == before.remove(w));
        match row {
            None => {
                match event {
                    BenchmarkerConsoleEvent::Progress { current_frame, total_frames, .. } => {
                        self.results.insert(
                            w,
                            WorkerStatus {
                                started: now,
                                finished: None,
                                added: false,
                                failed_reason: None,
                                current_frame,
                                total_frames,
                            },
                        );
                        assert(self.results@ =~= before.insert(
                            w,
                            WorkerStatus {
                                started: now,
                                finished: None,
                                added: false,
                                failed_reason: None,
                                current_frame,
                                total_frames,
                            },
                        ));
                    },
                    _ => {
                        assert(self.results@ =~= before);
                    },
                }
            },
            Some(ws) => {
                let mut ws = ws;
                match event {
                    BenchmarkerConsoleEvent::Progress { current_frame, total_frames, .. } => {
                        ws.current_frame = current_frame;
                        ws.total_frames = total_frames;
                    },
                    BenchmarkerConsoleEvent::WorkerCompleted { .. } => {
                        ws.finished = Some(now);
                    },
                    BenchmarkerConsoleEvent::WorkerAdded { .. } => {
                        ws.added = true;
                    },
                    BenchmarkerConsoleEvent::WorkerFailed { error, .. } => {
                        ws.failed_reason = Some(error);
                    },
                }
                let ghost after_row = ws;
                self.results.insert(w, ws);
                assert(self.results@ =~= before.insert(w, after_row));
            },
        }
    }
}

/// A report never removes a row: every worker count that had a row keeps one.
pub proof fn lemma_rows_are_kept(
    results: Map<u8, WorkerStatus>,
    event: BenchmarkerConsoleEvent,
    now: u64,
)
    ensures
        results.dom().subset_of(apply_report(results, event, now).dom()),
{
}

/// A report changes at most the row of the worker count it names.
pub proof fn lemma_other_rows_unchanged(
    results: Map<u8, WorkerStatus>,
    event: BenchmarkerConsoleEvent,
    now: u64,
    other: u8,
)
    requires
        other != event.worker_of(),
    ensures
        apply_report(results, event, now).contains_key(other) == results.contains_key(other),
        results.contains_key(other) ==> apply_report(results, event, now)[other] == results[other],
{
}

/// Only a progress report creates a row; the first one starts the row's clock
/// at the time it is received, neither added nor failed.
pub proof fn lemma_first_progress_starts_row(
    results: Map<u8, WorkerStatus>,
    event: BenchmarkerConsoleEvent,
    now: u64,
)
    requires
        !results.contains_key(event.worker_of()),
    ensures
        apply_report(results, event, now).contains_key(event.worker_of()) <==> event is Progress,
        event is Progress ==> {
            let row = apply_report(results, event, now)[event.worker_of()];
            &&& row.started == now
            &&& row.finished is None
            &&& !row.added
            &&& row.failed_reason is None
        },
{
}

/// A report about a worker count that has a row changes only the fields it
/// carries: progress the frame counts, completion the finish time, being
/// added the added mark, a failure the failure reason. In particular a
/// completion neither adds the worker count nor fails it.
pub proof fn lemma_report_changes_only_its_fields(
    results: Map<u8, WorkerStatus>,
    event: BenchmarkerConsoleEvent,
    now: u64,
)
    requires
        results.contains_key(event.worker_of()),
    ensures
        apply_report(results, event, now).contains_key(event.worker_of()),
        ({
            let before = results[event.worker_of()];
            let after = apply_report(results, event, now)[event.worker_of()];
            match event {
                BenchmarkerConsoleEvent::Progress { current_frame, total_frames, .. } => after == (
                WorkerStatus { current_frame, total_frames, ..before }),
                BenchmarkerConsoleEvent::WorkerCompleted { .. } => after == (WorkerStatus {
                    finished: Some(now),
                    ..before
                }),
                BenchmarkerConsoleEvent::WorkerAdded { .. } => after == (WorkerStatus {
                    added: true,
                    ..before
                }),
                BenchmarkerConsoleEvent::WorkerFailed { error, .. } => after == (WorkerStatus {
                    failed_reason: Some(error),
                    ..before
                }),
            }
        }),
{
}

/// The "Meets Threshold" mark of a worker count moves only forward: a
/// failure shows a cross, being added shows a check mark unless the count
/// already failed, and progress or completion reports keep the mark as it
/// was.
pub proof fn lemma_mark_changes(results: Map<u8, WorkerStatus>, event: BenchmarkerConsoleEvent, now: u64)
    requires
        results.contains_key(event.worker_of()),
    ensures
        ({
            let before = results[event.worker_of()];
            let after = apply_report(results, event, now)[event.worker_of()];
            match event {
                BenchmarkerConsoleEvent::WorkerFailed { .. } => after.status_text() == "✕"@,
                BenchmarkerConsoleEvent::WorkerAdded { .. } => after.status_text() == (if before.failed_reason is Some {
                    "✕"@
                } else {
                    "✓"@
                }),
                _ => after.status_text() == before.status_text(),
            }
        }),
{
}

/// The value of a non-empty run of decimal digits.
pub open spec fn digits_value(s: Seq<char>) -> nat
    decreases s.len(),
{
    if s.len() == 0 {
        0
    } else {
        digits_value(s.drop_last()) * 10 + ((s.last() as nat) - ('0' as nat)) as nat
    }
}

/// `s` without one leading `+`, if it has one.
pub open spec fn unsigned_digits(s: Seq<char>) -> Seq<char> {
    if s.len() > 0 && s[0] == '+' {
        s.drop_first()
    } else {
        s
    }
}

/// Every character of `d` is a decimal digit.
pub open spec fn all_digits(d: Seq<char>) -> bool {
    forall|i: int| 0 <= i < d.len() ==> is_digit(#[trigger] d[i])
}

/// What `str::parse::<u8>` gives for `s`: an optional `+`, then one or more
/// decimal digits whose value is at most 255.
pub open spec fn u8_text_value(s: Seq<char>) -> Option<u8> {
    let d = unsigned_digits(s);
    if d.len() > 0 && all_digits(d) && digits_value(d) <= 255 {
        Some(digits_value(d) as u8)
    } else {
        None
    }
}

proof fn lemma_digits_value_grows(d: Seq<char>, i: int)
    requires
        0 <= i <= d.len(),
        all_digits(d),
    ensures
        digits_value(d.take(i)) <= digits_value(d),
    decreases d.len() - i,
{
    if i < d.len() {
        lemma_digits_value_grows(d, i + 1);
        assert(d.take(i + 1).drop_last() =~= d.take(i));
    } else {
        assert(d.take(i) =~= d);
    }
}

/// Reads the worker count named by a benchmark report's id, as
/// `str::parse::<u8>` does; `None` when the id is not such a number.
pub fn parse_worker_count(id: &str) -> (r: Option<u8>)
    ensures
        r == u8_text_value(id@),
{
    let chars = str_chars(id);
    let n = chars.len();
    let start: usize = if n > 0 && chars[0] == '+' {
        1
    } else {
        0
    };
    let ghost d = unsigned_digits(id@);
    assert(d =~= chars@.subrange(start as int, n as int));
    if start == n {
        return None;
    }
    let mut value: u64 = 0;
    let mut i: usize = start;
    while i < n
        invariant
            start <= i <= n,
            n == chars@.len(),
            d == chars@.subrange(start as int, n as int),
            d == unsigned_digits(id@),
            chars@ == id@,
            forall|j: int| start <= j < i ==> is_digit(#[trigger] chars@[j]),
            value == digits_value(d.take(i - start)),
            value <= 255,
        decreases n - i,
    {
        let c = chars[i];
        assert(d[i - start] == c);
        if !('0' <= c && c <= '9') {
            assert(!is_digit(d[i - start]));
            assert(!all_digits(d));
            assert(u8_text_value(id@) is None);
            return None;
        }
        let digit: u64 = (c as u64) - ('0' as u64);
        assert(d.take(i - start + 1).drop_last() =~= d.take(i - start));
        value = value * 10 + digit;
        i = i + 1;
        if value > 255 {
            proof {
                if all_digits(d) {
                    lemma_digits_value_grows(d, i - start);
                    assert(digits_value(d) > 255);
                }
            }
            assert(u8_text_value(id@) is None);
            return None;
        }
    }
    assert(d.take(n - start) =~= d);
    assert forall|j: int| 0 <= j < d.len() implies is_digit(#[trigger] d[j]) by {
        assert(d[j] == chars@[j + start]);
    }
    assert(all_digits(d));
    Some(value as u8)
}

/// A worker id of one decimal digit, with or without a leading `+`, names
/// that digit's worker count (`"4"` and `"+4"` name 4).
pub proof fn lemma_worker_id_one_digit(c: char)
    requires
        '0' <= c <= '9',
    ensures
        u8_text_value(seq![c]) == Some((c as int - '0' as int) as u8),
        u8_text_value(seq!['+', c]) == Some((c as int - '0' as int) as u8),
{
    let d = seq![c];
    assert(d.drop_last() =~= Seq::<char>::empty());
    assert(d.last() == c);
    assert(digits_value(d.drop_last()) == 0);
    assert(digits_value(d) == (c as nat) - ('0' as nat));
    assert(is_digit(d[0]));
    assert(all_digits(d));
    assert(d[0] != '+');
    assert(unsigned_digits(d) =~= d);
    assert(seq!['+', c][0] == '+');
    assert(unsigned_digits(seq!['+', c]) =~= d);
}

/// Appending a decimal digit to a worker id that names `x` names
/// `10 * x + digit` when that fits in a `u8`, and no worker count otherwise
/// (`"25"` names 25, `"255"` names 255, `"256"` names none).
pub proof fn lemma_worker_id_next_digit(id: Seq<char>, x: u8, c: char)
    requires
        u8_text_value(id) == Some(x),
        '0' <= c <= '9',
    ensures
        10 * x + (c as int - '0' as int) <= 255 ==> u8_text_value(id.push(c)) == Some(
            (10 * x + (c as int - '0' as int)) as u8,
        ),
        10 * x + (c as int - '0' as int) > 255 ==> u8_text_value(id.push(c)) is None,
{
    let d = unsigned_digits(id);
    assert(id.len() > 0);
    assert(unsigned_digits(id.push(c)) =~= d.push(c)) by {
        if id[0] == '+' {
            assert(id.push(c)[0] == '+');
            assert(id.push(c).drop_first() =~= id.drop_first().push(c));
        } else {
            assert(id.push(c)[0] == id[0]);
        }
    }
    assert(d.push(c).drop_last() =~= d);
    assert(all_digits(d.push(c))) by {
        assert forall|i: int| 0 <= i < d.push(c).len() implies is_digit(#[trigger] d.push(c)[i]) by {
            if i < d.len() {
                assert(d.push(c)[i] == d[i]);
            }
        }
    }
}

/// A worker id holding a character other than a decimal digit (besides one
/// leading `+`) names no worker count; so does the empty id and a lone `+`.
pub proof fn lemma_worker_id_other_characters(id: Seq<char>)
    requires
        id.len() == 0 || id =~= seq!['+'] || exists|k: int|
            0 <= k < id.len() && !('0' <= #[trigger] id[k] <= '9') && !(k == 0 && id[k] == '+'),
    ensures
        u8_text_value(id) is None,
{
    let d = unsigned_digits(id);
    if id.len() > 0 && !(id =~= seq!['+']) {
        let k = choose|k: int|
            0 <= k < id.len() && !('0' <= #[trigger] id[k] <= '9') && !(k == 0 && id[k] == '+');
        if id[0] == '+' {
            assert(d[k - 1] == id[k]);
            assert(!is_digit(d[k - 1]));
        } else {
            assert(d[k] == id[k]);
            assert(!is_digit(d[k]));
        }
    } else if id.len() > 0 {
        assert(d.len() == 0);
    }
}

} // verus!
