//! Help texts of the command line: the short form of a long help text.
use vstd::prelude::*;

use crate::text::str_chars;

verus! {

/// The position of the first line feed in `s` at or after `i`, or `s.len()`.
pub open spec fn line_end(s: Seq<char>, i: int) -> int
    decreases s.len() - i,
{
    if i >= s.len() {
        s.len() as int
    } else if s[i] == '\n' {
        i
    } else {
        line_end(s, i + 1)
    }
}

/// The first line of `s`: everything before its first line feed, or all of
/// `s` when it has none.
pub open spec fn first_line(s: Seq<char>) -> Seq<char> {
    s.take(line_end(s, 0))
}

proof fn lemma_line_end(s: Seq<char>, i: int)
    requires
        0 <= i <= s.len(),
    ensures
        i <= line_end(s, i) <= s.len(),
        forall|j: int| i <= j < line_end(s, i) ==> s[j] != '\n',
        line_end(s, i) < s.len() ==> s[line_end(s, i)] == '\n',
    decreases s.len() - i,
{
    if i < s.len() && s[i] != '\n' {
        lemma_line_end(s, i + 1);
    }
}

/// The short help of a long help text: its first line.
pub fn short_help(s: &str) -> (r: &str)
    ensures
        r@ == first_line(s@),
{
    let chars = str_chars(s);
    let n = chars.len();
    let mut i: usize = 0;
    while i < n && chars[i] != '\n'
        invariant
            i <= n,
            n == s@.len(),
            chars@ == s@,
            line_end(s@, 0) == line_end(s@, i as int),
        decreases n - i,
    {
        i = i + 1;
    }
    s.substring_char(0, i)
}

/// The first line of a text is a prefix of it and holds no line feed; it is
/// the whole text exactly when the text holds none.
pub proof fn lemma_first_line(s: Seq<char>)
    ensures
        first_line(s).is_prefix_of(s),
        !first_line(s).contains('\n'),
        (first_line(s) == s) <==> !s.contains('\n'),
{
    lemma_line_end(s, 0);
    let e = line_end(s, 0);
    assert(first_line(s).len() == e);
    if s.contains('\n') {
        let k = choose|k: int| 0 <= k < s.len() && s[k] == '\n';
        assert(e <= k);
        assert(e < s.len());
        assert(first_line(s).len() < s.len());
    } else {
        assert(e == s.len());
        assert(first_line(s) =~= s);
    }
}

} // verus!
