//! Short names derived from a path's hash, used for per-input temporary
//! directories.
use vstd::prelude::*;

use std::hash::Hasher;
use vstd::std_specs::hash::DefaultHasherAdditionalSpecFns;

use crate::text::string_from_chars;

verus! {

/// The character of a hexadecimal digit `d` (`0 <= d < 16`), lower case.
pub open spec fn hex_digit_char(d: nat) -> char {
    if d < 10 {
        crate::text::digit_char(d)
    } else if d == 10 {
        'a'
    } else if d == 11 {
        'b'
    } else if d == 12 {
        'c'
    } else if d == 13 {
        'd'
    } else if d == 14 {
        'e'
    } else {
        'f'
    }
}

/// The lower-case hexadecimal rendering of `n`, without leading zeros, as
/// `format!("{:x}", n)` writes it.
pub open spec fn hex_text(n: nat) -> Seq<char>
    decreases n,
{
    if n < 16 {
        seq![hex_digit_char(n)]
    } else {
        hex_text(n / 16).push(hex_digit_char(n % 16))
    }
}

/// The value of one lower-case hexadecimal digit character.
pub open spec fn hex_char_value(c: char) -> int {
    if '0' <= c <= '9' {
        c as int - '0' as int
    } else {
        c as int - 'a' as int + 10
    }
}

/// The value of a run of lower-case hexadecimal digits, most significant
/// first.
pub open spec fn hex_value(s: Seq<char>) -> int
    decreases s.len(),
{
    if s.len() == 0 {
        0
    } else {
        hex_value(s.drop_last()) * 16 + hex_char_value(s.last())
    }
}

proof fn lemma_hex_digit_char_code(d: nat)
    requires
        d < 16,
    ensures
        ('0' <= hex_digit_char(d) <= '9') || ('a' <= hex_digit_char(d) <= 'f'),
        hex_char_value(hex_digit_char(d)) == d,
{
    if d < 10 {
        crate::text::lemma_digit_char_code(d);
    }
}

spec fn pow16(k: nat) -> nat
    decreases k,
{
    if k == 0 {
        1
    } else {
        16 * pow16((k - 1) as nat)
    }
}

proof fn lemma_hex_text_len(n: nat, k: nat)
    requires
        k >= 1,
    ensures
        hex_text(n).len() > k <==> n >= pow16(k),
    decreases n,
{
    let m = pow16((k - 1) as nat);
    assert(pow16(k) == 16 * m);
    lemma_pow16_at_least_one((k - 1) as nat);
    if n >= 16 {
        assert(hex_text(n).len() == hex_text(n / 16).len() + 1);
        assert(n / 16 >= m <==> n >= 16 * m) by (nonlinear_arith)
            requires
                n >= 16,
        ;
        if k > 1 {
            lemma_hex_text_len(n / 16, (k - 1) as nat);
        } else {
            assert(m == 1);
            assert(hex_text(n / 16).len() > 0) by {
                if n / 16 >= 16 {
                    assert(hex_text(n / 16).len() == hex_text(n / 16 / 16).len() + 1);
                }
            }
        }
    }
}

proof fn lemma_pow16_at_least_one(k: nat)
    ensures
        pow16(k) >= 1,
    decreases k,
{
    if k > 0 {
        lemma_pow16_at_least_one((k - 1) as nat);
    }
}

/// A hexadecimal rendering is a non-empty run of `0`-`9` and `a`-`f` that
/// reads back as the number rendered, with no leading zero (only zero
/// itself starts with `0`), and it has at least seven digits exactly from
/// `16^6` on: so a short hash exists exactly for hash values of at least
/// `0x1000000`.
pub proof fn lemma_hex_text_reads_back(n: nat)
    ensures
        hex_text(n).len() > 0,
        forall|k: int|
            0 <= k < hex_text(n).len() ==> ('0' <= #[trigger] hex_text(n)[k] <= '9') || ('a'
                <= hex_text(n)[k] <= 'f'),
        hex_value(hex_text(n)) == n,
        hex_text(n)[0] == '0' ==> n == 0,
        hex_text(n).len() >= 7 <==> n >= 0x1000000,
    decreases n,
{
    lemma_hex_digit_char_code(n % 16);
    lemma_hex_text_len(n, 6);
    assert(pow16(6) == 0x1000000) by {
        reveal_with_fuel(pow16, 7);
    }
    if n < 16 {
        let t = seq![hex_digit_char(n)];
        assert(t.drop_last() =~= Seq::<char>::empty());
        assert(hex_value(t.drop_last()) == 0);
    } else {
        lemma_hex_text_reads_back(n / 16);
        let t = hex_text(n);
        assert(t.drop_last() =~= hex_text(n / 16));
        assert(t.last() == hex_digit_char(n % 16));
        assert(t[0] == hex_text(n / 16)[0]);
        assert forall|k: int| 0 <= k < t.len() implies ('0' <= #[trigger] t[k] <= '9') || ('a'
            <= t[k] <= 'f') by {
            if k < t.len() - 1 {
                assert(t[k] == hex_text(n / 16)[k]);
            }
        }
        assert(n / 16 * 16 + n % 16 == n);
    }
}

/// The number of characters of a short hash.
pub const SHORT_HASH_LEN: usize = 7;

/// The short name of a hash value: the first seven characters of its
/// hexadecimal rendering, when that rendering has at least seven.
pub open spec fn short_hash_text(hash: u64) -> Option<Seq<char>> {
    if hex_text(hash as nat).len() >= SHORT_HASH_LEN {
        Some(hex_text(hash as nat).take(SHORT_HASH_LEN as int))
    } else {
        None
    }
}

fn hex_digit(d: u64) -> (c: char)
    requires
        d < 16,
    ensures
        c == hex_digit_char(d as nat),
{
    if d < 10 {
        crate::text::digit_to_char(d)
    } else if d == 10 {
        'a'
    } else if d == 11 {
        'b'
    } else if d == 12 {
        'c'
    } else if d == 13 {
        'd'
    } else if d == 14 {
        'e'
    } else {
        'f'
    }
}

fn push_hex(v: &mut Vec<char>, n: u64)
    ensures
        final(v)@ == old(v)@ + hex_text(n as nat),
    decreases n,
{
    if n >= 16 {
        push_hex(v, n / 16);
    }
    v.push(hex_digit(n % 16));
    proof {
        if n < 16 {
            assert(hex_text(n as nat) =~= seq![hex_digit_char(n as nat)]);
        }
    }
    assert(v@ =~= old(v)@ + hex_text(n as nat));
}

/// The first seven hexadecimal digits of `hash`, or `None` when it has fewer
/// than seven (below `0x1000000`).
pub fn short_hash(hash: u64) -> (r: Option<String>)
    ensures
        match short_hash_text(hash) {
            Some(t) => r matches Some(s) && s@ == t,
            None => r is None,
        },
{
    let mut digits: Vec<char> = Vec::new();
    push_hex(&mut digits, hash);
    assert(digits@ =~= hex_text(hash as nat));
    if digits.len() >= SHORT_HASH_LEN {
        let s = string_from_chars(&digits, 0, SHORT_HASH_LEN);
        assert(s@ =~= hex_text(hash as nat).take(SHORT_HASH_LEN as int));
        Some(s)
    } else {
        None
    }
}

/// The writes that hashing the path `path` makes into a hasher: the bytes
/// of its components and their count, as `Path`'s `Hash` implementation
/// feeds them for the platform the program is built for.
pub uninterp spec fn path_hash_writes(path: Seq<char>) -> Seq<Seq<u8>>;

/// The hash of the path `path` under a fresh `DefaultHasher`.
pub open spec fn path_hash(path: Seq<char>) -> u64 {
    std::hash::DefaultHasher::spec_finish(path_hash_writes(path))
}

/// Feeds the path `path` to `hasher`.
///
/// Trusted: calls `Hash::hash` on `std::path::Path::new(path)`. What is
/// claimed: the hasher records the writes `path_hash_writes(path)` after
/// those it had; `Path`'s `Hash` implementation feeds a hasher only through
/// `write` (directly or through the `write_usize` default, which calls
/// `write`), with bytes that depend on the path alone for a given target
/// platform. Which bytes, is not stated.
#[verifier::external_body]
fn hash_path_into(path: &str, hasher: &mut std::hash::DefaultHasher)
    ensures
        final(hasher)@ == old(hasher)@ + path_hash_writes(path@),
{
    std::hash::Hash::hash(std::path::Path::new(path), hasher)
}

/// A seven-character name for `path`: the start of the hexadecimal rendering
/// of its hash under a fresh `DefaultHasher`. `None` when that rendering is
/// shorter than seven characters.
pub fn hash_path(path: &str) -> (r: Option<String>)
    ensures
        match short_hash_text(path_hash(path@)) {
            Some(t) => r matches Some(s) && s@ == t,
            None => r is None,
        },
{
    let mut hasher = std::hash::DefaultHasher::new();
    hash_path_into(path, &mut hasher);
    assert(hasher@ =~= path_hash_writes(path@));
    let hash = hasher.finish();
    short_hash(hash)
}

} // verus!
