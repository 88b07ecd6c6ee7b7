//! Rendering of durations as clock-style text.
use vstd::prelude::*;

use crate::benchmarker::digits_value;
use crate::text::{lemma_pad2_reads_back, pad2, push_char, push_pad2};

verus! {

/// The text `seconds_to_hms` gives for `seconds`: `HH:MM:SS` when there is at
/// least one full hour or when hours are requested, `MM:SS` otherwise. Every
/// field has at least two digits; the hours field grows as needed.
pub open spec fn hms_text(seconds: nat, always_include_hours: bool) -> Seq<char> {
    let hours = seconds / 3600;
    let minutes = (seconds % 3600) / 60;
    let secs = seconds % 60;
    if hours > 0 || always_include_hours {
        pad2(hours) + seq![':'] + pad2(minutes) + seq![':'] + pad2(secs)
    } else {
        pad2(minutes) + seq![':'] + pad2(secs)
    }
}

/// Formats a number of seconds as `HH:MM:SS` (or `MM:SS` when below an hour
/// and hours are not requested).
pub fn seconds_to_hms(seconds: u64, always_include_hours: bool) -> (text: String)
    ensures
        text@ == hms_text(seconds as nat, always_include_hours),
{
    let hours = seconds / 3600;
    let minutes = (seconds % 3600) / 60;
    let secs = seconds % 60;
    let mut text = String::new();
    if hours > 0 || always_include_hours {
        push_pad2(&mut text, hours);
        push_char(&mut text, ':');
    }
    push_pad2(&mut text, minutes);
    push_char(&mut text, ':');
    push_pad2(&mut text, secs);
    assert(text@ =~= hms_text(seconds as nat, always_include_hours));
    text
}

/// Reading a clock text back gives the duration: it ends in two-digit
/// minutes and seconds fields below 60, separated by `:`; before them comes
/// an hours field of at least two digits and a `:` exactly when there is a
/// full hour or hours are requested, and the fields add up to `seconds`.
pub proof fn lemma_hms_reads_back(seconds: nat, always_include_hours: bool)
    ensures
        ({
            let t = hms_text(seconds, always_include_hours);
            let n = t.len() as int;
            let minutes = t.subrange(n - 5, n - 3);
            let secs = t.subrange(n - 2, n);
            &&& n >= 5
            &&& t[n - 3] == ':'
            &&& forall|k: int| 0 <= k < n && k != n - 3 && k != n - 6 ==> '0' <= #[trigger] t[k] <= '9'
            &&& digits_value(minutes) < 60
            &&& digits_value(secs) < 60
            &&& if seconds >= 3600 || always_include_hours {
                let hours = t.subrange(0, n - 6);
                &&& n >= 8
                &&& t[n - 6] == ':'
                &&& digits_value(hours) * 3600 + digits_value(minutes) * 60 + digits_value(secs)
                    == seconds
            } else {
                &&& n == 5
                &&& digits_value(minutes) * 60 + digits_value(secs) == seconds
            }
        }),
{
    let hours = seconds / 3600;
    let minutes = (seconds % 3600) / 60;
    let secs = seconds % 60;
    lemma_pad2_reads_back(hours);
    lemma_pad2_reads_back(minutes);
    lemma_pad2_reads_back(secs);
    let ph = pad2(hours);
    let pm = pad2(minutes);
    let ps = pad2(secs);
    let t = hms_text(seconds, always_include_hours);
    let n = t.len() as int;
    assert(seconds == hours * 3600 + minutes * 60 + secs) by (nonlinear_arith)
        requires
            hours == seconds / 3600,
            minutes == (seconds % 3600) / 60,
            secs == seconds % 60,
    ;
    if seconds >= 3600 || always_include_hours {
        let h = ph.len() as int;
        assert(t =~= ph + seq![':'] + pm + seq![':'] + ps);
        assert(t.subrange(0, n - 6) =~= ph);
        assert(t.subrange(n - 5, n - 3) =~= pm);
        assert(t.subrange(n - 2, n) =~= ps);
        assert forall|k: int| 0 <= k < n && k != n - 3 && k != n - 6 implies '0' <= #[trigger] t[k]
            <= '9' by {
            if k < h {
                assert(t[k] == ph[k]);
            } else if k < h + 3 {
                assert(t[k] == pm[k - h - 1]);
            } else {
                assert(t[k] == ps[k - h - 4]);
            }
        }
    } else {
        assert(hours == 0);
        assert(t =~= pm + seq![':'] + ps);
        assert(t.subrange(n - 5, n - 3) =~= pm);
        assert(t.subrange(n - 2, n) =~= ps);
        assert forall|k: int| 0 <= k < n && k != n - 3 && k != n - 6 implies '0' <= #[trigger] t[k]
            <= '9' by {
            if k < 2 {
                assert(t[k] == pm[k]);
            } else {
                assert(t[k] == ps[k - 3]);
            }
        }
    }
}

} // verus!
