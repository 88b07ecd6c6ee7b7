//! Recognition of the decimal floating-point text accepted by `f64`'s
//! `FromStr`, whose documentation gives it as this grammar (applied to the
//! lowercased text):
//!
//! ```text
//! Float  ::= Sign? ( 'inf' | 'infinity' | 'nan' | Number )
//! Number ::= ( Digit+ | Digit+ '.' Digit* | Digit* '.' Digit+ ) Exp?
//! Exp    ::= 'e' Sign? Digit+
//! Sign   ::= [+-]
//! Digit  ::= [0-9]
//! ```
use vstd::prelude::*;

verus! {

pub open spec fn is_digit(c: char) -> bool {
    '0' <= c <= '9'
}

pub open spec fn is_sign(c: char) -> bool {
    c == '+' || c == '-'
}

/// `c` equals the lowercase ASCII letter `lower`, ignoring case.
pub open spec fn letter_matches(c: char, lower: char) -> bool {
    c == lower || (c as int) + 32 == (lower as int)
}

/// `t` spells the lowercase word `word`, ignoring ASCII case.
pub open spec fn word_matches(t: Seq<char>, word: Seq<char>) -> bool {
    &&& t.len() == word.len()
    &&& forall|k: int| 0 <= k < t.len() ==> letter_matches(#[trigger] t[k], word[k])
}

/// The first index at or after `i` that does not hold a digit.
pub open spec fn digits_end(t: Seq<char>, i: int) -> int
    decreases t.len() - i,
{
    if 0 <= i < t.len() && is_digit(t[i]) {
        digits_end(t, i + 1)
    } else {
        i
    }
}

/// `Exp ::= 'e' Sign? Digit+`
pub open spec fn is_exponent(t: Seq<char>) -> bool {
    &&& t.len() >= 2
    &&& letter_matches(t[0], 'e')
    &&& {
        let start = if is_sign(t[1]) {
            2int
        } else {
            1int
        };
        start < t.len() && digits_end(t, start) == t.len()
    }
}

/// `Number ::= ( Digit+ | Digit+ '.' Digit* | Digit* '.' Digit+ ) Exp?`,
/// read left to right: leading digits, an optional fraction, an optional
/// exponent.
pub open spec fn is_number(t: Seq<char>) -> bool {
    let a = digits_end(t, 0);
    let has_dot = a < t.len() && t[a] == '.';
    let b = if has_dot {
        digits_end(t, a + 1)
    } else {
        a
    };
    let has_digits = a > 0 || (has_dot && b > a + 1);
    has_digits && (b == t.len() || is_exponent(t.subrange(b, t.len() as int)))
}

/// Whether `f64::from_str` accepts the text `t`.
pub open spec fn is_float_text(t: Seq<char>) -> bool {
    let u = if t.len() > 0 && is_sign(t[0]) {
        t.drop_first()
    } else {
        t
    };
    ||| word_matches(u, seq!['i', 'n', 'f'])
    ||| word_matches(u, seq!['i', 'n', 'f', 'i', 'n', 'i', 't', 'y'])
    ||| word_matches(u, seq!['n', 'a', 'n'])
    ||| is_number(u)
}

fn letter_matches_exec(c: char, lower: char) -> (r: bool)
    requires
        'a' <= lower <= 'z',
    ensures
        r == letter_matches(c, lower),
{
    c == lower || (c as u32) + 32 == (lower as u32)
}

/// Whether `v[from..to]` spells `word` (lowercase letters), ignoring case.
fn word_matches_exec(v: &Vec<char>, from: usize, to: usize, word: &Vec<char>) -> (r: bool)
    requires
        from <= to <= v@.len(),
        forall|k: int| 0 <= k < word@.len() ==> 'a' <= #[trigger] word@[k] <= 'z',
    ensures
        r == word_matches(v@.subrange(from as int, to as int), word@),
{
    if to - from != word.len() {
        return false;
    }
    let mut k: usize = 0;
    while k < word.len()
        invariant
            from <= to <= v@.len(),
            to - from == word@.len(),
            k <= word@.len(),
            forall|j: int| 0 <= j < word@.len() ==> 'a' <= #[trigger] word@[j] <= 'z',
            forall|j: int|
                0 <= j < k ==> letter_matches(
                    #[trigger] v@.subrange(from as int, to as int)[j],
                    word@[j],
                ),
        decreases word@.len() - k,
    {
        if !letter_matches_exec(v[from + k], word[k]) {
            assert(v@.subrange(from as int, to as int)[k as int] == v@[from + k]);
            return false;
        }
        assert(v@.subrange(from as int, to as int)[k as int] == v@[from + k]);
        k = k + 1;
    }
    true
}

proof fn lemma_digits_end_bounds(t: Seq<char>, i: int)
    requires
        0 <= i <= t.len(),
    ensures
        i <= digits_end(t, i) <= t.len(),
        forall|k: int| i <= k < digits_end(t, i) ==> is_digit(#[trigger] t[k]),
        digits_end(t, i) < t.len() ==> !is_digit(t[digits_end(t, i)]),
    decreases t.len() - i,
{
    if i < t.len() && is_digit(t[i]) {
        lemma_digits_end_bounds(t, i + 1);
    }
}

/// The first index at or after `i` (and before `to`) of `v` that is not a
/// digit, measured in the text `v[from..to]`.
fn digits_end_exec(v: &Vec<char>, from: usize, to: usize, i: usize) -> (e: usize)
    requires
        from <= i <= to <= v@.len(),
    ensures
        e as int == digits_end(v@.subrange(from as int, to as int), i - from) + from,
        i <= e <= to,
{
    let ghost t = v@.subrange(from as int, to as int);
    let mut e = i;
    proof {
        lemma_digits_end_bounds(t, i - from);
    }
    while e < to && '0' <= v[e] && v[e] <= '9'
        invariant
            from <= i <= e <= to <= v@.len(),
            t == v@.subrange(from as int, to as int),
            digits_end(t, e - from) == digits_end(t, i - from),
        decreases to - e,
    {
        assert(t[e - from] == v@[e as int]);
        e = e + 1;
    }
    proof {
        if e < to {
            assert(t[e - from] == v@[e as int]);
        }
        lemma_digits_end_bounds(t, e - from);
    }
    e
}

/// Whether `v[from..to]` is an exponent part.
fn is_exponent_exec(v: &Vec<char>, from: usize, to: usize) -> (r: bool)
    requires
        from <= to <= v@.len(),
    ensures
        r == is_exponent(v@.subrange(from as int, to as int)),
{
    let ghost t = v@.subrange(from as int, to as int);
    if to - from < 2 {
        return false;
    }
    assert(t[0] == v@[from as int]);
    assert(t[1] == v@[from + 1]);
    if !letter_matches_exec(v[from], 'e') {
        return false;
    }
    let start = if v[from + 1] == '+' || v[from + 1] == '-' {
        from + 2
    } else {
        from + 1
    };
    if start >= to {
        return false;
    }
    let e = digits_end_exec(v, from, to, start);
    e == to
}

/// Whether `v[from..to]` is a `Number`.
fn is_number_exec(v: &Vec<char>, from: usize, to: usize) -> (r: bool)
    requires
        from <= to <= v@.len(),
    ensures
        r == is_number(v@.subrange(from as int, to as int)),
{
    let ghost t = v@.subrange(from as int, to as int);
    let a = digits_end_exec(v, from, to, from);
    let has_dot = a < to && v[a] == '.';
    proof {
        if a < to {
            assert(t[a - from] == v@[a as int]);
        }
    }
    let b = if has_dot {
        digits_end_exec(v, from, to, a + 1)
    } else {
        a
    };
    let has_digits = a > from || (has_dot && b > a + 1);
    if !has_digits {
        return false;
    }
    if b == to {
        return true;
    }
    let r = is_exponent_exec(v, b, to);
    assert(v@.subrange(b as int, to as int) =~= t.subrange(b - from, t.len() as int));
    r
}

/// Whether `f64::from_str` accepts the text `v[from..to]`.
pub fn is_float_text_exec(v: &Vec<char>, from: usize, to: usize) -> (r: bool)
    requires
        from <= to <= v@.len(),
    ensures
        r == is_float_text(v@.subrange(from as int, to as int)),
{
    let ghost t = v@.subrange(from as int, to as int);
    let start = if from < to && (v[from] == '+' || v[from] == '-') {
        from + 1
    } else {
        from
    };
    proof {
        if from < to {
            assert(t[0] == v@[from as int]);
        }
    }
    let ghost u = if t.len() > 0 && is_sign(t[0]) {
        t.drop_first()
    } else {
        t
    };
    assert(u =~= v@.subrange(start as int, to as int));
    let inf = vec!['i', 'n', 'f'];
    let infinity = vec!['i', 'n', 'f', 'i', 'n', 'i', 't', 'y'];
    let nan = vec!['n', 'a', 'n'];
    assert(inf@ =~= seq!['i', 'n', 'f']);
    assert(infinity@ =~= seq!['i', 'n', 'f', 'i', 'n', 'i', 't', 'y']);
    assert(nan@ =~= seq!['n', 'a', 'n']);
    word_matches_exec(v, start, to, &inf) || word_matches_exec(v, start, to, &infinity)
        || word_matches_exec(v, start, to, &nan) || is_number_exec(v, start, to)
}

/// The characters that can occur in float text: decimal digits, `.`, signs,
/// and the letters of `e`, `inf`, `infinity` and `nan` in either case.
pub open spec fn float_char(c: char) -> bool {
    ||| '0' <= c <= '9'
    ||| c == '.' || c == '+' || c == '-'
    ||| c == 'e' || c == 'E' || c == 'i' || c == 'I' || c == 'n' || c == 'N'
    ||| c == 'f' || c == 'F' || c == 't' || c == 'T' || c == 'y' || c == 'Y'
    ||| c == 'a' || c == 'A'
}

proof fn lemma_word_chars(u: Seq<char>, w: Seq<char>)
    requires
        word_matches(u, w),
        forall|j: int|
            0 <= j < w.len() ==> {
                let l = #[trigger] w[j];
                l == 'i' || l == 'n' || l == 'f' || l == 't' || l == 'y' || l == 'a'
            },
    ensures
        forall|k: int| 0 <= k < u.len() ==> float_char(#[trigger] u[k]),
{
    assert forall|k: int| 0 <= k < u.len() implies float_char(#[trigger] u[k]) by {
        assert(letter_matches(u[k], w[k]));
    }
}

/// Text that `f64::from_str` accepts holds only digits, `.`, signs and the
/// letters of `e`, `inf`, `infinity` and `nan`: a space, a comma, a `/` or
/// any other character makes it text rather than a number.
pub proof fn lemma_float_text_characters(t: Seq<char>)
    requires
        is_float_text(t),
    ensures
        forall|k: int| 0 <= k < t.len() ==> float_char(#[trigger] t[k]),
{
    let signed = t.len() > 0 && is_sign(t[0]);
    let u = if signed {
        t.drop_first()
    } else {
        t
    };
    let w1 = seq!['i', 'n', 'f'];
    let w2 = seq!['i', 'n', 'f', 'i', 'n', 'i', 't', 'y'];
    let w3 = seq!['n', 'a', 'n'];
    if word_matches(u, w1) {
        lemma_word_chars(u, w1);
    } else if word_matches(u, w2) {
        lemma_word_chars(u, w2);
    } else if word_matches(u, w3) {
        lemma_word_chars(u, w3);
    } else {
        let a = digits_end(u, 0);
        lemma_digits_end_bounds(u, 0);
        let has_dot = a < u.len() && u[a] == '.';
        let b = if has_dot {
            digits_end(u, a + 1)
        } else {
            a
        };
        if has_dot {
            lemma_digits_end_bounds(u, a + 1);
        }
        assert forall|k: int| 0 <= k < b implies float_char(#[trigger] u[k]) by {
            if k < a {
                assert(is_digit(u[k]));
            } else if k > a {
                assert(is_digit(u[k]));
            }
        }
        if b < u.len() {
            let x = u.subrange(b, u.len() as int);
            assert(is_exponent(x));
            let start = if is_sign(x[1]) {
                2int
            } else {
                1int
            };
            lemma_digits_end_bounds(x, start);
            assert forall|k: int| b <= k < u.len() implies float_char(#[trigger] u[k]) by {
                assert(u[k] == x[k - b]);
                if k - b == 0 {
                    assert(letter_matches(x[0], 'e'));
                } else if k - b >= start {
                    assert(is_digit(x[k - b]));
                }
            }
        }
    }
    assert forall|k: int| 0 <= k < t.len() implies float_char(#[trigger] t[k]) by {
        if signed {
            if k > 0 {
                assert(t[k] == u[k - 1]);
            }
        } else {
            assert(t[k] == u[k]);
        }
    }
}

/// A run of decimal digits `t[i..j]` that stops at `j` (at the end of `t` or
/// before a character that is not a decimal digit) is read whole.
proof fn lemma_digit_run_is_read_whole(t: Seq<char>, i: int, j: int)
    requires
        0 <= i <= j <= t.len(),
        forall|k: int| i <= k < j ==> '0' <= #[trigger] t[k] <= '9',
        j == t.len() || !('0' <= t[j] <= '9'),
    ensures
        digits_end(t, i) == j,
    decreases j - i,
{
    if i < j {
        lemma_digit_run_is_read_whole(t, i + 1, j);
    }
}

/// Plain decimal text is accepted as a float: an optional `+` or `-`, then
/// decimal digits, then optionally a `.` and more decimal digits, with at
/// least one digit in all (so `8`, `28`, `-3`, `0.8`, `5.` and `.5` are
/// floats).
pub proof fn lemma_decimal_text_is_float(sign: Seq<char>, whole: Seq<char>, dot: bool, fraction: Seq<char>)
    requires
        sign.len() <= 1,
        sign.len() == 1 ==> sign[0] == '+' || sign[0] == '-',
        forall|k: int| 0 <= k < whole.len() ==> '0' <= #[trigger] whole[k] <= '9',
        forall|k: int| 0 <= k < fraction.len() ==> '0' <= #[trigger] fraction[k] <= '9',
        whole.len() > 0 || (dot && fraction.len() > 0),
        !dot ==> fraction.len() == 0,
    ensures
        is_float_text(sign + whole + (if dot { seq!['.'] + fraction } else { Seq::empty() })),
{
    let tail = if dot {
        seq!['.'] + fraction
    } else {
        Seq::<char>::empty()
    };
    let t = sign + whole + tail;
    let u = whole + tail;
    if sign.len() == 1 {
        assert(t[0] == sign[0]);
        assert(t.drop_first() =~= u);
    } else {
        assert(t =~= u);
        if u.len() > 0 {
            if whole.len() > 0 {
                assert(u[0] == whole[0]);
            } else {
                assert(u[0] == '.');
            }
        }
    }
    let a = whole.len() as int;
    assert forall|k: int| 0 <= k < a implies '0' <= #[trigger] u[k] <= '9' by {
        assert(u[k] == whole[k]);
    }
    if dot {
        assert(u[a] == '.');
        lemma_digit_run_is_read_whole(u, 0, a);
        assert forall|k: int| a + 1 <= k < u.len() implies '0' <= #[trigger] u[k] <= '9' by {
            assert(u[k] == fraction[k - a - 1]);
        }
        lemma_digit_run_is_read_whole(u, a + 1, u.len() as int);
    } else {
        assert(u =~= whole);
        lemma_digit_run_is_read_whole(u, 0, a);
    }
    assert(is_number(u));
}

} // verus!
