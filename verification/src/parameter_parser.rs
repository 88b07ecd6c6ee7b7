//! Parsing of encoder parameter strings such as `--crf 23 --preset=8 -f`.
use vstd::prelude::*;

use crate::float_text::{float_char, is_float_text, is_float_text_exec, lemma_decimal_text_is_float, lemma_float_text_characters};
use crate::text::{push_char, str_chars, string_from_chars};

verus! {

/// One encoder command-line parameter: a flag, or a name with a numeric or
/// textual value. `prefix` is `-` or `--`; `delimiter` is `=` or a space.
/// A numeric value is kept as the text that was given, which `f64` parses.
#[derive(Debug)]
#[allow(inconsistent_fields)]
pub enum CLIParameter {
    Bool { prefix: String, value: bool },
    Number { prefix: String, delimiter: String, value: String },
    String { prefix: String, delimiter: String, value: String },
}

impl Clone for CLIParameter {
    fn clone(&self) -> (r: Self)
        ensures
            r@ == self@,
    {
        match self {
            CLIParameter::Bool { prefix, value } => CLIParameter::Bool {
                prefix: prefix.clone(),
                value: *value,
            },
            CLIParameter::Number { prefix, delimiter, value } => CLIParameter::Number {
                prefix: prefix.clone(),
                delimiter: delimiter.clone(),
                value: value.clone(),
            },
            CLIParameter::String { prefix, delimiter, value } => CLIParameter::String {
                prefix: prefix.clone(),
                delimiter: delimiter.clone(),
                value: value.clone(),
            },
        }
    }
}

/// The mathematical content of a [`CLIParameter`].
#[allow(inconsistent_fields)]
pub enum ParamView {
    Bool { prefix: Seq<char>, value: bool },
    Number { prefix: Seq<char>, delimiter: Seq<char>, value: Seq<char> },
    Text { prefix: Seq<char>, delimiter: Seq<char>, value: Seq<char> },
}

impl View for CLIParameter {
    type V = ParamView;

    open spec fn view(&self) -> ParamView {
        match self {
            CLIParameter::Bool { prefix, value } => ParamView::Bool { prefix: prefix@, value: *value },
            CLIParameter::Number { prefix, delimiter, value } => ParamView::Number {
                prefix: prefix@,
                delimiter: delimiter@,
                value: value@,
            },
            CLIParameter::String { prefix, delimiter, value } => ParamView::Text {
                prefix: prefix@,
                delimiter: delimiter@,
                value: value@,
            },
        }
    }
}

/// Whitespace as the parser understands it: space, tab, carriage return and
/// line feed.
pub open spec fn is_space_char(c: char) -> bool {
    c == ' ' || c == '\t' || c == '\n' || c == '\r'
}

/// The first index at or after `p` that is not whitespace.
pub open spec fn skip_spaces(s: Seq<char>, p: int) -> int
    decreases s.len() - p,
{
    if 0 <= p < s.len() && is_space_char(s[p]) {
        skip_spaces(s, p + 1)
    } else {
        p
    }
}

/// The first index at or after `p` that holds a space (or the end).
pub open spec fn till_space(s: Seq<char>, p: int) -> int
    decreases s.len() - p,
{
    if 0 <= p < s.len() && s[p] != ' ' {
        till_space(s, p + 1)
    } else {
        p
    }
}

/// The first index at or after `p` that holds a space or `=` (or the end).
pub open spec fn till_space_or_equals(s: Seq<char>, p: int) -> int
    decreases s.len() - p,
{
    if 0 <= p < s.len() && s[p] != ' ' && s[p] != '=' {
        till_space_or_equals(s, p + 1)
    } else {
        p
    }
}

/// The end of a `--` or `-` prefix starting at `q`; `q` itself when there is
/// none (`--` is preferred over `-`).
pub open spec fn prefix_end(s: Seq<char>, q: int) -> int {
    if 0 <= q && q + 1 < s.len() && s[q] == '-' && s[q + 1] == '-' {
        q + 2
    } else if 0 <= q < s.len() && s[q] == '-' {
        q + 1
    } else {
        q
    }
}

/// A value with a name: a number when `f64` accepts its text, text otherwise.
pub open spec fn classify(prefix: Seq<char>, delimiter: Seq<char>, value: Seq<char>) -> ParamView {
    if is_float_text(value) {
        ParamView::Number { prefix, delimiter, value }
    } else {
        ParamView::Text { prefix, delimiter, value }
    }
}

/// One parameter read at `p` after optional whitespace: the position after
/// it, its name and its value. Alternatives are tried in order:
/// `[-|--]name=value`, `[-|--]name value`, `[-|--]flag`; a flag whose name
/// would start with a space takes the rest of the input as its name.
pub open spec fn parse_item(s: Seq<char>, p: int) -> Option<(int, Seq<char>, ParamView)> {
    let q = skip_spaces(s, p);
    let a = prefix_end(s, q);
    if a == q {
        None
    } else {
        let prefix = s.subrange(q, a);
        let e1 = till_space_or_equals(s, a);
        let f1 = till_space(s, a);
        if e1 > a && e1 < s.len() && s[e1] == '=' && till_space(s, e1 + 1) > e1 + 1 {
            let e2 = till_space(s, e1 + 1);
            Some((e2, s.subrange(a, e1), classify(prefix, seq!['='], s.subrange(e1 + 1, e2))))
        } else if f1 > a && f1 < s.len() && till_space(s, skip_spaces(s, f1)) > skip_spaces(
            s,
            f1,
        ) {
            let w = skip_spaces(s, f1);
            let e2 = till_space(s, w);
            Some((e2, s.subrange(a, f1), classify(prefix, seq![' '], s.subrange(w, e2))))
        } else if f1 > a {
            Some((f1, s.subrange(a, f1), ParamView::Bool { prefix, value: true }))
        } else {
            Some((s.len() as int, s.subrange(a, s.len() as int), ParamView::Bool { prefix, value: true }))
        }
    }
}

/// All parameters read from position `p` on, in order, until no parameter
/// starts (the rest of the input is then ignored).
pub open spec fn parse_items(s: Seq<char>, p: int) -> Seq<(Seq<char>, ParamView)>
    decreases s.len() - p,
{
    match parse_item(s, p) {
        Some((e, name, value)) => if 0 <= p < e <= s.len() {
            seq![(name, value)] + parse_items(s, e)
        } else {
            Seq::empty()
        },
        None => Seq::empty(),
    }
}

/// The value given last to `name` among `items`, if any.
pub open spec fn last_value(items: Seq<(Seq<char>, ParamView)>, name: Seq<char>) -> Option<ParamView>
    decreases items.len(),
{
    if items.len() == 0 {
        None
    } else if items.last().0 == name {
        Some(items.last().1)
    } else {
        last_value(items.drop_last(), name)
    }
}

/// The map that inserting `items` one after the other builds: each name maps
/// to the value given to it last.
pub open spec fn items_map(items: Seq<(Seq<char>, ParamView)>) -> Map<Seq<char>, ParamView> {
    Map::new(|k: Seq<char>| last_value(items, k) is Some, |k: Seq<char>| last_value(items, k)->0)
}

/// The map an encoder parameter string stands for.
pub open spec fn params_of(s: Seq<char>) -> Map<Seq<char>, ParamView> {
    items_map(parse_items(s, 0))
}

/// The content of an entry list as a map.
pub open spec fn entries_map(e: Seq<(Seq<char>, ParamView)>) -> Map<Seq<char>, ParamView> {
    Map::new(
        |k: Seq<char>| exists|i: int| 0 <= i < e.len() && e[i].0 == k,
        |k: Seq<char>| e[choose|i: int| 0 <= i < e.len() && e[i].0 == k].1,
    )
}

pub open spec fn names_unique(e: Seq<(Seq<char>, ParamView)>) -> bool {
    forall|i: int, j: int| 0 <= i < e.len() && 0 <= j < e.len() && i != j ==> e[i].0 != e[j].0
}

pub open spec fn entry_views(e: Seq<(String, CLIParameter)>) -> Seq<(Seq<char>, ParamView)> {
    e.map_values(|x: (String, CLIParameter)| (x.0@, x.1@))
}

/// A set of named encoder parameters; a name occurs at most once.
pub struct EncoderParams {
    entries: Vec<(String, CLIParameter)>,
}

impl View for EncoderParams {
    type V = Map<Seq<char>, ParamView>;

    closed spec fn view(&self) -> Map<Seq<char>, ParamView> {
        entries_map(entry_views(self.entries@))
    }
}

proof fn lemma_entries_map_push(e: Seq<(Seq<char>, ParamView)>, x: (Seq<char>, ParamView))
    requires
        names_unique(e),
        forall|i: int| 0 <= i < e.len() ==> e[i].0 != x.0,
    ensures
        names_unique(e.push(x)),
        entries_map(e.push(x)) =~= entries_map(e).insert(x.0, x.1),
{
    let f = e.push(x);
    assert forall|k: Seq<char>| #[trigger] entries_map(f).contains_key(k) implies entries_map(
        e,
    ).insert(x.0, x.1).contains_key(k) by {
        let i = choose|i: int| 0 <= i < f.len() && f[i].0 == k;
        if i < e.len() {
            assert(e[i].0 == k);
        }
    }
    assert forall|k: Seq<char>| #[trigger] entries_map(e).insert(x.0, x.1).contains_key(
        k,
    ) implies entries_map(f).contains_key(k) by {
        if k == x.0 {
            assert(f[e.len() as int].0 == k);
        } else {
            let i = choose|i: int| 0 <= i < e.len() && e[i].0 == k;
            assert(f[i].0 == k);
        }
    }
    assert forall|k: Seq<char>| #[trigger] entries_map(f).contains_key(k) implies entries_map(
        f,
    )[k] == entries_map(e).insert(x.0, x.1)[k] by {
        let i = choose|i: int| 0 <= i < f.len() && f[i].0 == k;
        if k == x.0 {
            assert(f[e.len() as int].0 == k);
        } else {
            let j = choose|j: int| 0 <= j < e.len() && e[j].0 == k;
            assert(f[j].0 == k);
        }
    }
}

proof fn lemma_entries_map_update(e: Seq<(Seq<char>, ParamView)>, i: int, x: (Seq<char>, ParamView))
    requires
        names_unique(e),
        0 <= i < e.len(),
        e[i].0 == x.0,
    ensures
        names_unique(e.update(i, x)),
        entries_map(e.update(i, x)) =~= entries_map(e).insert(x.0, x.1),
{
    let f = e.update(i, x);
    assert forall|k: Seq<char>| #[trigger] entries_map(f).contains_key(k) implies entries_map(
        e,
    ).insert(x.0, x.1).contains_key(k) by {
        let j = choose|j: int| 0 <= j < f.len() && f[j].0 == k;
        if j != i {
            assert(e[j].0 == k);
        }
    }
    assert forall|k: Seq<char>| #[trigger] entries_map(e).insert(x.0, x.1).contains_key(
        k,
    ) implies entries_map(f).contains_key(k) by {
        if k == x.0 {
            assert(f[i].0 == k);
        } else {
            let j = choose|j: int| 0 <= j < e.len() && e[j].0 == k;
            assert(f[j].0 == k);
        }
    }
    assert forall|k: Seq<char>| #[trigger] entries_map(f).contains_key(k) implies entries_map(
        f,
    )[k] == entries_map(e).insert(x.0, x.1)[k] by {
        if k == x.0 {
            assert(f[i].0 == k);
        } else {
            let j = choose|j: int| 0 <= j < e.len() && e[j].0 == k;
            assert(f[j].0 == k);
        }
    }
}

proof fn lemma_items_map_push(items: Seq<(Seq<char>, ParamView)>, x: (Seq<char>, ParamView))
    ensures
        items_map(items.push(x)) =~= items_map(items).insert(x.0, x.1),
{
    assert(items.push(x).drop_last() =~= items);
}

impl EncoderParams {
    #[verifier::type_invariant]
    spec fn wf(self) -> bool {
        names_unique(entry_views(self.entries@))
    }

    /// A set with no parameters.
    pub fn new() -> (r: EncoderParams)
        ensures
            r@ == Map::<Seq<char>, ParamView>::empty(),
    {
        let r = EncoderParams { entries: Vec::new() };
        assert(r@ =~= Map::<Seq<char>, ParamView>::empty());
        r
    }

    /// Sets `name` to `param`, replacing an earlier value of the same name.
    pub fn insert(&mut self, name: String, param: CLIParameter)
        ensures
            final(self)@ == old(self)@.insert(name@, param@),
    {
        proof {
            use_type_invariant(&*self);
        }
        let ghost ev = entry_views(self.entries@);
        let n = self.entries.len();
        let mut i: usize = 0;
        while i < n
            invariant
                n == self.entries@.len(),
                ev == entry_views(self.entries@),
                self.entries@ == old(self).entries@,
                names_unique(ev),
                i <= n,
                forall|j: int| 0 <= j < i ==> ev[j].0 != name@,
            decreases n - i,
        {
            if self.entries[i].0 == name {
                assert(ev[i as int].0 == name@);
                let ghost x = (name@, param@);
                proof {
                    lemma_entries_map_update(ev, i as int, x);
                }
                let mut entries: Vec<(String, CLIParameter)> = Vec::new();
                std::mem::swap(&mut entries, &mut self.entries);
                entries.set(i, (name, param));
                assert(entry_views(entries@) =~= ev.update(i as int, x));
                self.entries = entries;
                assert(self@ == entries_map(ev.update(i as int, x)));
                assert(self@ == old(self)@.insert(x.0, x.1));
                return;
            }
            i = i + 1;
        }
        let ghost x = (name@, param@);
        proof {
            lemma_entries_map_push(ev, x);
        }
        let mut entries: Vec<(String, CLIParameter)> = Vec::new();
        std::mem::swap(&mut entries, &mut self.entries);
        entries.push((name, param));
        assert(entry_views(entries@) =~= ev.push(x));
        self.entries = entries;
    }

    /// The parameters, one name/value pair per name, in insertion order.
    pub fn entries(&self) -> (r: Vec<(String, CLIParameter)>)
        ensures
            names_unique(entry_views(r@)),
            entries_map(entry_views(r@)) == self@,
    {
        proof {
            use_type_invariant(self);
        }
        let mut r: Vec<(String, CLIParameter)> = Vec::new();
        let n = self.entries.len();
        let mut i: usize = 0;
        while i < n
            invariant
                n == self.entries@.len(),
                i <= n,
                entry_views(r@) == entry_views(self.entries@).take(i as int),
            decreases n - i,
        {
            let name = self.entries[i].0.clone();
            let param = self.entries[i].1.clone();
            let ghost old_r = r@;
            r.push((name, param));
            assert(entry_views(r@) =~= entry_views(old_r).push(entry_views(self.entries@)[i as int]));
            i = i + 1;
            assert(entry_views(r@) =~= entry_views(self.entries@).take(i as int));
        }
        assert(entry_views(self.entries@).take(n as int) =~= entry_views(self.entries@));
        r
    }

    /// The number of distinct parameter names.
    pub fn len(&self) -> (r: usize)
        ensures
            r == self@.dom().len(),
    {
        proof {
            use_type_invariant(self);
            let ev = entry_views(self.entries@);
            let names = ev.map_values(|x: (Seq<char>, ParamView)| x.0);
            assert(names.no_duplicates());
            names.unique_seq_to_set();
            assert forall|k: Seq<char>| #[trigger] names.to_set().contains(k) == self@.dom().contains(
                k,
            ) by {
                if names.to_set().contains(k) {
                    let i = choose|i: int| 0 <= i < names.len() && names[i] == k;
                    assert(ev[i].0 == k);
                }
                if self@.dom().contains(k) {
                    let i = choose|i: int| 0 <= i < ev.len() && ev[i].0 == k;
                    assert(names[i] == k);
                }
            }
            assert(names.to_set() =~= self@.dom());
        }
        self.entries.len()
    }

    /// Whether no parameter is set.
    pub fn is_empty(&self) -> (r: bool)
        ensures
            r == (self@.dom().len() == 0),
    {
        self.len() == 0
    }

    /// The parameter set under `name`, if any.
    pub fn get(&self, name: &str) -> (r: Option<&CLIParameter>)
        ensures
            r is Some == self@.contains_key(name@),
            r matches Some(p) ==> p@ == self@[name@],
    {
        proof {
            use_type_invariant(self);
        }
        let ghost ev = entry_views(self.entries@);
        let key = name.to_owned();
        let n = self.entries.len();
        let mut i: usize = 0;
        while i < n
            invariant
                n == self.entries@.len(),
                ev == entry_views(self.entries@),
                key@ == name@,
                names_unique(ev),
                i <= n,
                forall|j: int| 0 <= j < i ==> ev[j].0 != name@,
            decreases n - i,
        {
            if self.entries[i].0 == key {
                assert(ev[i as int].0 == name@);
                assert(self@.contains_key(name@));
                let ghost c = choose|j: int| 0 <= j < ev.len() && ev[j].0 == name@;
                assert(c == i);
                return Some(&self.entries[i].1);
            }
            i = i + 1;
        }
        None
    }

    /// Whether a parameter is set under `name`.
    pub fn contains_key(&self, name: &str) -> (r: bool)
        ensures
            r == self@.contains_key(name@),
    {
        self.get(name).is_some()
    }

    /// Adds every parameter of `other`, overriding values of equal names.
    pub fn extend(&mut self, other: &EncoderParams)
        ensures
            final(self)@ == old(self)@.union_prefer_right(other@),
    {
        proof {
            use_type_invariant(other);
        }
        let ghost ov = entry_views(other.entries@);
        let n = other.entries.len();
        let mut i: usize = 0;
        while i < n
            invariant
                n == other.entries@.len(),
                ov == entry_views(other.entries@),
                names_unique(ov),
                i <= n,
                self@ == old(self)@.union_prefer_right(entries_map(ov.subrange(0, i as int))),
            decreases n - i,
        {
            let name = other.entries[i].0.clone();
            let param = other.entries[i].1.clone();
            proof {
                let pre = ov.subrange(0, i as int);
                assert forall|j: int| 0 <= j < pre.len() implies pre[j].0 != ov[i as int].0 by {
                    assert(pre[j] == ov[j]);
                }
                assert forall|a: int, b: int|
                    0 <= a < pre.len() && 0 <= b < pre.len() && a != b implies pre[a].0
                    != pre[b].0 by {
                    assert(pre[a] == ov[a] && pre[b] == ov[b]);
                }
                lemma_entries_map_push(pre, ov[i as int]);
                assert(ov.subrange(0, i + 1) =~= pre.push(ov[i as int]));
            }
            self.insert(name, param);
            i = i + 1;
            assert(self@ =~= old(self)@.union_prefer_right(entries_map(ov.subrange(0, i as int))));
        }
        assert(ov.subrange(0, n as int) =~= ov);
    }
}

/// Whitespace-skipping: the first non-whitespace index at or after `p`.
fn skip_spaces_exec(v: &Vec<char>, p: usize) -> (e: usize)
    requires
        p <= v@.len(),
    ensures
        e as int == skip_spaces(v@, p as int),
        p <= e <= v@.len(),
{
    let mut e = p;
    while e < v.len() && (v[e] == ' ' || v[e] == '\t' || v[e] == '\n' || v[e] == '\r')
        invariant
            p <= e <= v@.len(),
            skip_spaces(v@, e as int) == skip_spaces(v@, p as int),
        decreases v@.len() - e,
    {
        e = e + 1;
    }
    e
}

fn till_space_exec(v: &Vec<char>, p: usize) -> (e: usize)
    requires
        p <= v@.len(),
    ensures
        e as int == till_space(v@, p as int),
        p <= e <= v@.len(),
{
    let mut e = p;
    while e < v.len() && v[e] != ' '
        invariant
            p <= e <= v@.len(),
            till_space(v@, e as int) == till_space(v@, p as int),
        decreases v@.len() - e,
    {
        e = e + 1;
    }
    e
}

fn till_space_or_equals_exec(v: &Vec<char>, p: usize) -> (e: usize)
    requires
        p <= v@.len(),
    ensures
        e as int == till_space_or_equals(v@, p as int),
        p <= e <= v@.len(),
{
    let mut e = p;
    while e < v.len() && v[e] != ' ' && v[e] != '='
        invariant
            p <= e <= v@.len(),
            till_space_or_equals(v@, e as int) == till_space_or_equals(v@, p as int),
        decreases v@.len() - e,
    {
        e = e + 1;
    }
    e
}

/// A one-character string.
fn single_char_string(c: char) -> (s: String)
    ensures
        s@ == seq![c],
{
    let mut s = String::new();
    push_char(&mut s, c);
    assert(s@ =~= seq![c]);
    s
}

/// Parses encoder parameter strings into named [`CLIParameter`]s.
pub struct EncoderParamsParser;

impl EncoderParamsParser {
    /// Parses a parameter string such as `--crf 23 --preset=8 -f` into a map
    /// from names to parameters; a later parameter of the same name replaces
    /// an earlier one. Reading stops at the first place where no parameter
    /// starts; the rest is ignored, so every input is accepted.
    pub fn parse_string(input: &str) -> (r: Result<EncoderParams, EncoderParamsParserError>)
        ensures
            r matches Ok(params) && params@ == params_of(input@),
    {
        let v = str_chars(input);
        let mut params = EncoderParams::new();
        let mut p: usize = 0;
        let ghost mut done: Seq<(Seq<char>, ParamView)> = Seq::empty();
        loop
            invariant
                v@ == input@,
                p <= v@.len(),
                parse_items(v@, 0) == done + parse_items(v@, p as int),
                params@ == items_map(done),
            decreases v@.len() - p,
        {
            match Self::parse_parameter(&v, p) {
                Some((e, name, param)) => {
                    proof {
                        lemma_items_map_push(done, (name@, param@));
                        assert(parse_items(v@, p as int) =~= seq![(name@, param@)] + parse_items(
                            v@,
                            e as int,
                        ));
                        assert(done + parse_items(v@, p as int) =~= done.push((name@, param@))
                            + parse_items(v@, e as int));
                        done = done.push((name@, param@));
                    }
                    params.insert(name, param);
                    p = e;
                },
                None => {
                    assert(done + parse_items(v@, p as int) =~= done);
                    return Ok(params);
                },
            }
        }
    }

    /// One parameter at `p`, after optional whitespace.
    fn parse_parameter(v: &Vec<char>, p: usize) -> (r: Option<(usize, String, CLIParameter)>)
        requires
            p <= v@.len(),
        ensures
            match r {
                Some((e, name, param)) => {
                    &&& parse_item(v@, p as int) == Some((e as int, name@, param@))
                    &&& p < e
                    &&& e <= v@.len()
                },
                None => parse_item(v@, p as int) is None,
            },
    {
        let q = skip_spaces_exec(v, p);
        let a = Self::parse_prefix(v, q);
        if a == q {
            return None;
        }
        let prefix = string_from_chars(v, q, a);
        assert(q < a);
        match Self::parse_equals_pair(v, a, &prefix) {
            Some(found) => {
                return Some(found);
            },
            None => {},
        }
        match Self::parse_space_pair(v, a, &prefix) {
            Some(found) => {
                return Some(found);
            },
            None => {},
        }
        Some(Self::parse_flag(v, a, prefix))
    }

    /// `name=value` at `a` (after the prefix).
    fn parse_equals_pair(v: &Vec<char>, a: usize, prefix: &String) -> (r: Option<
        (usize, String, CLIParameter),
    >)
        requires
            a <= v@.len(),
        ensures
            match r {
                Some((e, name, param)) => {
                    let e1 = till_space_or_equals(v@, a as int);
                    &&& e1 > a && e1 < v@.len() && v@[e1] == '=' && till_space(v@, e1 + 1) > e1 + 1
                    &&& e == till_space(v@, e1 + 1)
                    &&& name@ == v@.subrange(a as int, e1)
                    &&& param@ == classify(prefix@, seq!['='], v@.subrange(e1 + 1, e as int))
                    &&& e <= v@.len()
                },
                None => {
                    let e1 = till_space_or_equals(v@, a as int);
                    !(e1 > a && e1 < v@.len() && v@[e1] == '=' && till_space(v@, e1 + 1) > e1 + 1)
                },
            },
    {
        let e1 = till_space_or_equals_exec(v, a);
        if !(e1 > a && e1 < v.len() && v[e1] == '=') {
            return None;
        }
        let e2 = till_space_exec(v, e1 + 1);
        if e2 <= e1 + 1 {
            return None;
        }
        let name = string_from_chars(v, a, e1);
        let delimiter = single_char_string('=');
        let param = Self::to_cli_parameter(prefix, delimiter, v, e1 + 1, e2);
        Some((e2, name, param))
    }

    /// `name value` at `a` (after the prefix).
    fn parse_space_pair(v: &Vec<char>, a: usize, prefix: &String) -> (r: Option<
        (usize, String, CLIParameter),
    >)
        requires
            a <= v@.len(),
        ensures
            match r {
                Some((e, name, param)) => {
                    let f1 = till_space(v@, a as int);
                    let w = skip_spaces(v@, f1);
                    &&& f1 > a && f1 < v@.len() && till_space(v@, w) > w
                    &&& e == till_space(v@, w)
                    &&& name@ == v@.subrange(a as int, f1)
                    &&& param@ == classify(prefix@, seq![' '], v@.subrange(w, e as int))
                    &&& a < e <= v@.len()
                },
                None => {
                    let f1 = till_space(v@, a as int);
                    !(f1 > a && f1 < v@.len() && till_space(v@, skip_spaces(v@, f1)) > skip_spaces(
                        v@,
                        f1,
                    ))
                },
            },
    {
        let f1 = till_space_exec(v, a);
        if !(f1 > a && f1 < v.len()) {
            return None;
        }
        let w = skip_spaces_exec(v, f1);
        let e2 = till_space_exec(v, w);
        if e2 <= w {
            return None;
        }
        let name = string_from_chars(v, a, f1);
        let delimiter = single_char_string(' ');
        let param = Self::to_cli_parameter(prefix, delimiter, v, w, e2);
        Some((e2, name, param))
    }

    /// A flag at `a` (after the prefix): up to the next space, or the whole
    /// rest of the input when a space follows the prefix directly.
    fn parse_flag(v: &Vec<char>, a: usize, prefix: String) -> (r: (usize, String, CLIParameter))
        requires
            a <= v@.len(),
        ensures
            ({
                let f1 = till_space(v@, a as int);
                let end = if f1 > a {
                    f1
                } else {
                    v@.len() as int
                };
                &&& r.0 == end
                &&& r.0 <= v@.len()
                &&& r.1@ == v@.subrange(a as int, end)
                &&& r.2@ == ParamView::Bool { prefix: prefix@, value: true }
            }),
    {
        let f1 = till_space_exec(v, a);
        let end = if f1 > a {
            f1
        } else {
            v.len()
        };
        let name = string_from_chars(v, a, end);
        (end, name, CLIParameter::Bool { prefix, value: true })
    }

    /// The end of a `--` or `-` prefix at `q` (`q` when there is none).
    fn parse_prefix(v: &Vec<char>, q: usize) -> (a: usize)
        requires
            q <= v@.len(),
        ensures
            a as int == prefix_end(v@, q as int),
            q <= a <= v@.len(),
    {
        if v.len() - q >= 2 && v[q] == '-' && v[q + 1] == '-' {
            q + 2
        } else if q < v.len() && v[q] == '-' {
            q + 1
        } else {
            q
        }
    }

    /// A parameter with value `v[from..to]`: numeric when `f64` accepts it.
    fn to_cli_parameter(
        prefix: &String,
        delimiter: String,
        v: &Vec<char>,
        from: usize,
        to: usize,
    ) -> (r: CLIParameter)
        requires
            from <= to <= v@.len(),
        ensures
            r@ == classify(prefix@, delimiter@, v@.subrange(from as int, to as int)),
    {
        let value = string_from_chars(v, from, to);
        if is_float_text_exec(v, from, to) {
            CLIParameter::Number { prefix: prefix.clone(), delimiter, value }
        } else {
            CLIParameter::String { prefix: prefix.clone(), delimiter, value }
        }
    }
}

/// Errors of encoder parameter parsing.
#[derive(Debug)]
pub enum EncoderParamsParserError {
    InvalidParams(String),
}

impl EncoderParamsParserError {
    /// The error's message.
    pub fn message(&self) -> (r: String)
        ensures
            match self {
                EncoderParamsParserError::InvalidParams(p) => r@ == "Invalid parameter: "@ + p@,
            },
    {
        match self {
            EncoderParamsParserError::InvalidParams(p) => {
                let mut r = "Invalid parameter: ".to_owned();
                r.append(p.as_str());
                proof {
                    reveal_strlit("Invalid parameter: ");
                }
                r
            },
        }
    }
}

/// Reads the parameters written in `text` and lays them over `params`: a
/// parameter of `text` replaces one of the same name, the others are kept.
pub fn merge_params_text(params: &mut EncoderParams, text: &str)
    ensures
        final(params)@ == old(params)@.union_prefer_right(params_of(text@)),
{
    match EncoderParamsParser::parse_string(text) {
        Ok(parsed) => params.extend(&parsed),
        Err(_) => {},
    }
}

proof fn lemma_till_space_run(s: Seq<char>, i: int, j: int)
    requires
        0 <= i <= j <= s.len(),
        forall|k: int| i <= k < j ==> #[trigger] s[k] != ' ',
        j == s.len() || s[j] == ' ',
    ensures
        till_space(s, i) == j,
    decreases j - i,
{
    if i < j {
        lemma_till_space_run(s, i + 1, j);
    }
}

proof fn lemma_till_space_or_equals_run(s: Seq<char>, i: int, j: int)
    requires
        0 <= i <= j <= s.len(),
        forall|k: int| i <= k < j ==> #[trigger] s[k] != ' ' && s[k] != '=',
        j == s.len() || s[j] == ' ' || s[j] == '=',
    ensures
        till_space_or_equals(s, i) == j,
    decreases j - i,
{
    if i < j {
        lemma_till_space_or_equals_run(s, i + 1, j);
    }
}

/// `--name value` (a name without spaces or `=`, one space, a value without
/// spaces that does not start with whitespace) reads as the one parameter
/// `name`, whose value is a number when `f64` accepts it and text
/// otherwise. So a value of decimal digits, as in `--preset 8`, is the
/// number `8`, and a value holding a character that cannot occur in float
/// text, as in `--output a/b`, is text.
pub proof fn lemma_named_value(name: Seq<char>, value: Seq<char>)
    requires
        name.len() > 0,
        forall|k: int| 0 <= k < name.len() ==> #[trigger] name[k] != ' ' && name[k] != '=',
        value.len() > 0,
        forall|k: int| 0 <= k < value.len() ==> #[trigger] value[k] != ' ',
        !is_space_char(value[0]),
    ensures
        params_of(seq!['-', '-'] + name + seq![' '] + value) == map![
            name => classify(seq!['-', '-'], seq![' '], value),
        ],
        (forall|k: int| 0 <= k < value.len() ==> '0' <= #[trigger] value[k] <= '9') ==> params_of(
            seq!['-', '-'] + name + seq![' '] + value,
        )[name] == (ParamView::Number {
            prefix: seq!['-', '-'],
            delimiter: seq![' '],
            value,
        }),
        (exists|k: int| 0 <= k < value.len() && !float_char(#[trigger] value[k])) ==> params_of(
            seq!['-', '-'] + name + seq![' '] + value,
        )[name] == (ParamView::Text {
            prefix: seq!['-', '-'],
            delimiter: seq![' '],
            value,
        }),
{
    let s = seq!['-', '-'] + name + seq![' '] + value;
    let f1: int = name.len() as int + 2;
    assert(s[0] == '-' && s[1] == '-');
    assert(skip_spaces(s, 0) == 0);
    assert(prefix_end(s, 0) == 2);
    assert(s.subrange(0, 2) =~= seq!['-', '-']);
    assert forall|k: int| 2 <= k < f1 implies #[trigger] s[k] != ' ' && s[k] != '=' by {
        assert(s[k] == name[k - 2]);
    }
    assert(s[f1] == ' ');
    lemma_till_space_or_equals_run(s, 2, f1);
    lemma_till_space_run(s, 2, f1);
    assert(s[f1 + 1] == value[0]);
    assert(skip_spaces(s, f1 + 1) == f1 + 1);
    assert(skip_spaces(s, f1) == f1 + 1);
    assert forall|k: int| f1 + 1 <= k < s.len() implies #[trigger] s[k] != ' ' by {
        assert(s[k] == value[k - f1 - 1]);
    }
    lemma_till_space_run(s, f1 + 1, s.len() as int);
    assert(s.subrange(2, f1) =~= name);
    assert(s.subrange(f1 + 1, s.len() as int) =~= value);
    let item = (name, classify(seq!['-', '-'], seq![' '], value));
    assert(parse_item(s, 0) == Some((s.len() as int, item.0, item.1)));
    assert(parse_item(s, s.len() as int) is None);
    assert(parse_items(s, s.len() as int) =~= Seq::<(Seq<char>, ParamView)>::empty());
    assert(parse_items(s, 0) =~= seq![item]);
    let items = seq![item];
    assert(items.drop_last() =~= Seq::<(Seq<char>, ParamView)>::empty());
    assert forall|k: Seq<char>| #[trigger] last_value(items, k) == (if k == name {
        Some(item.1)
    } else {
        None
    }) by {
        assert(items.last() == item);
        assert(last_value(items.drop_last(), k) is None);
    }
    assert(items_map(items) =~= map![name => item.1]);
    if forall|k: int| 0 <= k < value.len() ==> '0' <= #[trigger] value[k] <= '9' {
        lemma_decimal_text_is_float(Seq::empty(), value, false, Seq::empty());
        assert(Seq::<char>::empty() + value + Seq::<char>::empty() =~= value);
    }
    if exists|k: int| 0 <= k < value.len() && !float_char(#[trigger] value[k]) {
        if is_float_text(value) {
            lemma_float_text_characters(value);
        }
    }
}

/// `--name=value` (a name without spaces or `=`, a value without spaces)
/// reads as the one parameter `name`, whose value is a number when `f64`
/// accepts it and text otherwise, delimited by `=`.
pub proof fn lemma_named_equals_value(name: Seq<char>, value: Seq<char>)
    requires
        name.len() > 0,
        forall|k: int| 0 <= k < name.len() ==> #[trigger] name[k] != ' ' && name[k] != '=',
        value.len() > 0,
        forall|k: int| 0 <= k < value.len() ==> #[trigger] value[k] != ' ',
    ensures
        params_of(seq!['-', '-'] + name + seq!['='] + value) == map![
            name => classify(seq!['-', '-'], seq!['='], value),
        ],
{
    let s = seq!['-', '-'] + name + seq!['='] + value;
    let e1: int = name.len() as int + 2;
    assert(s[0] == '-' && s[1] == '-');
    assert(skip_spaces(s, 0) == 0);
    assert(prefix_end(s, 0) == 2);
    assert(s.subrange(0, 2) =~= seq!['-', '-']);
    assert forall|k: int| 2 <= k < e1 implies #[trigger] s[k] != ' ' && s[k] != '=' by {
        assert(s[k] == name[k - 2]);
    }
    assert(s[e1] == '=');
    lemma_till_space_or_equals_run(s, 2, e1);
    assert forall|k: int| e1 + 1 <= k < s.len() implies #[trigger] s[k] != ' ' by {
        assert(s[k] == value[k - e1 - 1]);
    }
    lemma_till_space_run(s, e1 + 1, s.len() as int);
    assert(s.subrange(2, e1) =~= name);
    assert(s.subrange(e1 + 1, s.len() as int) =~= value);
    let item = (name, classify(seq!['-', '-'], seq!['='], value));
    assert(parse_item(s, 0) == Some((s.len() as int, item.0, item.1)));
    assert(parse_item(s, s.len() as int) is None);
    assert(parse_items(s, s.len() as int) =~= Seq::<(Seq<char>, ParamView)>::empty());
    assert(parse_items(s, 0) =~= seq![item]);
    let items = seq![item];
    assert forall|k: Seq<char>| #[trigger] last_value(items, k) == (if k == name {
        Some(item.1)
    } else {
        None
    }) by {
        assert(items.last() == item);
        assert(items.drop_last() =~= Seq::<(Seq<char>, ParamView)>::empty());
        assert(last_value(items.drop_last(), k) is None);
    }
    assert(items_map(items) =~= map![name => item.1]);
}

/// `-name` alone (a name without spaces or `=` that does not start with
/// `-`) reads as the flag `name`, set, with prefix `-`.
pub proof fn lemma_single_flag(name: Seq<char>)
    requires
        name.len() > 0,
        name[0] != '-',
        forall|k: int| 0 <= k < name.len() ==> #[trigger] name[k] != ' ' && name[k] != '=',
    ensures
        params_of(seq!['-'] + name) == map![
            name => ParamView::Bool { prefix: seq!['-'], value: true },
        ],
{
    let s = seq!['-'] + name;
    assert(s[0] == '-' && s[1] == name[0]);
    assert(skip_spaces(s, 0) == 0);
    assert(prefix_end(s, 0) == 1);
    assert(s.subrange(0, 1) =~= seq!['-']);
    assert forall|k: int| 1 <= k < s.len() implies #[trigger] s[k] != ' ' && s[k] != '=' by {
        assert(s[k] == name[k - 1]);
    }
    lemma_till_space_or_equals_run(s, 1, s.len() as int);
    lemma_till_space_run(s, 1, s.len() as int);
    assert(s.subrange(1, s.len() as int) =~= name);
    let item = (name, ParamView::Bool { prefix: seq!['-'], value: true });
    assert(parse_item(s, 0) == Some((s.len() as int, item.0, item.1)));
    assert(parse_item(s, s.len() as int) is None);
    assert(parse_items(s, s.len() as int) =~= Seq::<(Seq<char>, ParamView)>::empty());
    assert(parse_items(s, 0) =~= seq![item]);
    let items = seq![item];
    assert forall|k: Seq<char>| #[trigger] last_value(items, k) == (if k == name {
        Some(item.1)
    } else {
        None
    }) by {
        assert(items.last() == item);
        assert(items.drop_last() =~= Seq::<(Seq<char>, ParamView)>::empty());
        assert(last_value(items.drop_last(), k) is None);
    }
    assert(items_map(items) =~= map![name => item.1]);
}

proof fn lemma_last_value_join(a: Seq<(Seq<char>, ParamView)>, b: Seq<(Seq<char>, ParamView)>, k: Seq<char>)
    ensures
        last_value(a + b, k) == (match last_value(b, k) {
            Some(v) => Some(v),
            None => last_value(a, k),
        }),
    decreases b.len(),
{
    if b.len() == 0 {
        assert(a + b =~= a);
    } else {
        lemma_last_value_join(a, b.drop_last(), k);
        assert((a + b).drop_last() =~= a + b.drop_last());
        assert((a + b).last() == b.last());
    }
}

/// Later parameters override earlier ones: the parameters read from one
/// list after another are those of the first, replaced and extended by
/// those of the second.
pub proof fn lemma_later_parameters_override(a: Seq<(Seq<char>, ParamView)>, b: Seq<(Seq<char>, ParamView)>)
    ensures
        items_map(a + b) == items_map(a).union_prefer_right(items_map(b)),
{
    assert forall|k: Seq<char>| #[trigger] last_value(a + b, k) == (match last_value(b, k) {
        Some(v) => Some(v),
        None => last_value(a, k),
    }) by {
        lemma_last_value_join(a, b, k);
    }
    assert(items_map(a + b) =~= items_map(a).union_prefer_right(items_map(b)));
}

} // verus!
