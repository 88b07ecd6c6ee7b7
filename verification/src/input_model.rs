//! How the command line describes an input clip: a video decoded directly, a
//! video opened through a VapourSynth source plugin, or a VapourSynth script
//! with its variables.
use vstd::prelude::*;

use crate::commands::DecoderMethod;
use crate::text::{str_chars, str_equal, string_from_chars};

verus! {

/// How a video input is decoded without VapourSynth.
#[derive(Debug, Clone, Copy, PartialEq, Eq, Structural)]
pub enum VideoImportMethod {
    FFMS2 { index: Option<u8> },
}

/// The VapourSynth source plugin that opens a video input.
pub enum VapourSynthImportMethod {
    LSMASHWorks { index: Option<u8> },
    DGDecNV { dgindexnv_executable: Option<String> },
    FFMS2 { index: Option<u8> },
    BestSource { index: Option<u8> },
}

/// Where a VapourSynth script comes from.
pub enum ScriptSource {
    Path(String),
    Text(String),
}

/// An input clip. The variables of a script are name/value pairs; when a name
/// occurs twice, the later pair counts.
#[allow(inconsistent_fields)]
pub enum InputModel {
    Video { path: String, import_method: VideoImportMethod },
    VapourSynth {
        path: String,
        import_method: VapourSynthImportMethod,
        cache_path: Option<String>,
    },
    VapourSynthScript { source: ScriptSource, variables: Vec<(String, String)>, index: u8 },
}

/// The model of a VapourSynth source plugin choice.
pub enum ImportView {
    LSMASHWorks { index: Option<u8> },
    DGDecNV { executable: Option<Seq<char>> },
    FFMS2 { index: Option<u8> },
    BestSource { index: Option<u8> },
}

/// The model of a script's origin.
pub enum SourceView {
    Path(Seq<char>),
    Text(Seq<char>),
}

/// The model of an input: texts as character sequences, script variables as
/// a map from name to value.
#[allow(inconsistent_fields)]
pub enum InputView {
    Video { path: Seq<char>, import_method: VideoImportMethod },
    VapourSynth {
        path: Seq<char>,
        import_method: ImportView,
        cache_path: Option<Seq<char>>,
    },
    VapourSynthScript {
        source: SourceView,
        variables: Map<Seq<char>, Seq<char>>,
        index: u8,
    },
}

pub open spec fn opt_text(s: Option<String>) -> Option<Seq<char>> {
    match s {
        Some(s) => Some(s@),
        None => None,
    }
}

/// The texts of a list of strings.
pub open spec fn texts(a: Seq<String>) -> Seq<Seq<char>> {
    a.map_values(|s: String| s@)
}

/// The texts of the arguments given, if any.
pub open spec fn args_view(a: Option<&[String]>) -> Option<Seq<Seq<char>>> {
    match a {
        Some(a) => Some(texts(a@)),
        None => None,
    }
}

/// The character sequences of name/value pairs.
pub open spec fn pair_views(v: Seq<(String, String)>) -> Seq<(Seq<char>, Seq<char>)> {
    v.map_values(|p: (String, String)| (p.0@, p.1@))
}

/// The map built from name/value pairs in order: a later pair replaces an
/// earlier one with the same name.
pub open spec fn pairs_map(p: Seq<(Seq<char>, Seq<char>)>) -> Map<Seq<char>, Seq<char>>
    decreases p.len(),
{
    if p.len() == 0 {
        Map::empty()
    } else {
        pairs_map(p.drop_last()).insert(p.last().0, p.last().1)
    }
}

impl View for VapourSynthImportMethod {
    type V = ImportView;

    open spec fn view(&self) -> ImportView {
        match self {
            VapourSynthImportMethod::LSMASHWorks { index } => ImportView::LSMASHWorks {
                index: *index,
            },
            VapourSynthImportMethod::DGDecNV { dgindexnv_executable } => ImportView::DGDecNV {
                executable: opt_text(*dgindexnv_executable),
            },
            VapourSynthImportMethod::FFMS2 { index } => ImportView::FFMS2 { index: *index },
            VapourSynthImportMethod::BestSource { index } => ImportView::BestSource {
                index: *index,
            },
        }
    }
}

impl View for ScriptSource {
    type V = SourceView;

    open spec fn view(&self) -> SourceView {
        match self {
            ScriptSource::Path(p) => SourceView::Path(p@),
            ScriptSource::Text(t) => SourceView::Text(t@),
        }
    }
}

impl View for InputModel {
    type V = InputView;

    open spec fn view(&self) -> InputView {
        match self {
            InputModel::Video { path, import_method } => InputView::Video {
                path: path@,
                import_method: *import_method,
            },
            InputModel::VapourSynth { path, import_method, cache_path } => InputView::VapourSynth {
                path: path@,
                import_method: import_method@,
                cache_path: opt_text(*cache_path),
            },
            InputModel::VapourSynthScript { source, variables, index } => InputView::VapourSynthScript {
                source: source@,
                variables: pairs_map(pair_views(variables@)),
                index: *index,
            },
        }
    }
}

/// The position of the first `=` in `s` at or after `i`, or `s.len()`.
pub open spec fn equals_from(s: Seq<char>, i: int) -> int
    decreases s.len() - i,
{
    if i >= s.len() {
        s.len() as int
    } else if s[i] == '=' {
        i
    } else {
        equals_from(s, i + 1)
    }
}

/// A `name=value` argument split at its first `=`; an argument without `=`
/// is a name with an empty value.
pub open spec fn arg_pair(a: Seq<char>) -> (Seq<char>, Seq<char>) {
    let p = equals_from(a, 0);
    if p < a.len() {
        (a.subrange(0, p), a.subrange(p + 1, a.len() as int))
    } else {
        (a, Seq::empty())
    }
}

/// The name/value pairs of a list of `name=value` arguments, in order.
pub open spec fn arg_pairs(args: Seq<Seq<char>>) -> Seq<(Seq<char>, Seq<char>)> {
    args.map_values(|a: Seq<char>| arg_pair(a))
}

/// The argument `name=value` for a pair.
pub open spec fn pair_arg(p: (Seq<char>, Seq<char>)) -> Seq<char> {
    p.0 + seq!['='] + p.1
}

/// The extensions that mark a VapourSynth script.
pub open spec fn is_script_extension(extension: Option<Seq<char>>) -> bool {
    extension == Some("vpy"@) || extension == Some("py"@)
}

/// The source plugin chosen for `decoder` when the input is opened through
/// VapourSynth, with the given clip index.
pub open spec fn vs_import_for(decoder: Option<DecoderMethod>, index: Option<u8>) -> ImportView {
    match decoder {
        Some(DecoderMethod::LSMASHWorks) => ImportView::LSMASHWorks { index },
        Some(DecoderMethod::DGDecodeNV) => ImportView::DGDecNV { executable: None },
        Some(DecoderMethod::VSFFMS2) => ImportView::FFMS2 { index },
        _ => ImportView::BestSource { index },
    }
}

/// The input described by a path, the extension of that path, a decoder
/// choice, script arguments and a clip index. The integrated FFMS2 decoder
/// opens a video directly; otherwise a path with a `vpy` or `py` extension is
/// a script whose variables are the arguments, and any other path is opened
/// through a VapourSynth source plugin (BestSource unless chosen otherwise).
pub open spec fn input_for(
    path: Seq<char>,
    extension: Option<Seq<char>>,
    decoder: Option<DecoderMethod>,
    vs_args: Option<Seq<Seq<char>>>,
    index: Option<u8>,
) -> InputView {
    if decoder == Some(DecoderMethod::FFMS2) {
        InputView::Video { path, import_method: VideoImportMethod::FFMS2 { index } }
    } else if is_script_extension(extension) {
        InputView::VapourSynthScript {
            source: SourceView::Path(path),
            variables: match vs_args {
                Some(a) => pairs_map(arg_pairs(a)),
                None => Map::empty(),
            },
            index: match index {
                Some(i) => i,
                None => 0,
            },
        }
    } else {
        InputView::VapourSynth {
            path,
            import_method: vs_import_for(decoder, index),
            cache_path: None,
        }
    }
}

fn split_arg(arg: &String) -> (r: (String, String))
    ensures
        (r.0@, r.1@) == arg_pair(arg@),
{
    let chars = str_chars(arg.as_str());
    let n = chars.len();
    let mut i: usize = 0;
    while i < n && chars[i] != '='
        invariant
            i <= n,
            n == chars@.len(),
            chars@ == arg@,
            equals_from(arg@, 0) == equals_from(arg@, i as int),
        decreases n - i,
    {
        i = i + 1;
    }
    if i < n {
        let key = string_from_chars(&chars, 0, i);
        let value = string_from_chars(&chars, i + 1, n);
        (key, value)
    } else {
        assert(chars@.subrange(0, n as int) =~= arg@);
        (string_from_chars(&chars, 0, n), String::new())
    }
}

/// Splits each `name=value` argument at its first `=`.
pub fn parse_vs_args(args: &[String]) -> (r: Vec<(String, String)>)
    ensures
        pair_views(r@) == arg_pairs(texts(args@)),
{
    let mut r: Vec<(String, String)> = Vec::new();
    let mut i: usize = 0;
    while i < args.len()
        invariant
            i <= args@.len(),
            pair_views(r@) == arg_pairs(texts(args@)).take(i as int),
        decreases args@.len() - i,
    {
        let p = split_arg(&args[i]);
        let ghost old_r = r@;
        let ghost pv = (p.0@, p.1@);
        r.push(p);
        assert(pair_views(r@) =~= pair_views(old_r).push(pv));
        i = i + 1;
        assert(pair_views(r@) =~= arg_pairs(texts(args@)).take(i as int));
    }
    assert(arg_pairs(texts(args@)).take(i as int) =~= arg_pairs(texts(args@)));
    r
}

/// The `name=value` arguments that write out name/value pairs, in order.
pub open spec fn pair_args(p: Seq<(Seq<char>, Seq<char>)>) -> Seq<Seq<char>> {
    p.map_values(|x: (Seq<char>, Seq<char>)| pair_arg(x))
}

/// Writes each name/value pair as a `name=value` argument.
pub fn format_vs_args(variables: &[(String, String)]) -> (r: Vec<String>)
    ensures
        texts(r@) == pair_args(pair_views(variables@)),
{
    let mut r: Vec<String> = Vec::new();
    let mut i: usize = 0;
    while i < variables.len()
        invariant
            i <= variables@.len(),
            r@.len() == i,
            forall|j: int|
                0 <= j < i ==> #[trigger] r@[j]@ == pair_arg(
                    (variables@[j].0@, variables@[j].1@),
                ),
        decreases variables@.len() - i,
    {
        let mut s = variables[i].0.clone();
        s.append("=");
        s.append(variables[i].1.as_str());
        proof {
            reveal_strlit("=");
        }
        assert(s@ == pair_arg((variables@[i as int].0@, variables@[i as int].1@)));
        r.push(s);
        i = i + 1;
    }
    assert(texts(r@) =~= pair_args(pair_views(variables@)));
    r
}

proof fn lemma_equals_after_name(name: Seq<char>, value: Seq<char>, i: int)
    requires
        0 <= i <= name.len(),
        !name.contains('='),
    ensures
        equals_from(name + seq!['='] + value, i) == name.len(),
    decreases name.len() - i,
{
    let s = name + seq!['='] + value;
    if i < name.len() {
        assert(s[i] == name[i]);
        lemma_equals_after_name(name, value, i + 1);
    } else {
        assert(s[i] == '=');
    }
}

/// Writing a pair as `name=value` and splitting it again gives the pair back,
/// provided the name holds no `=`.
pub proof fn lemma_pair_round_trip(name: Seq<char>, value: Seq<char>)
    requires
        !name.contains('='),
    ensures
        arg_pair(pair_arg((name, value))) == (name, value),
{
    let s = pair_arg((name, value));
    lemma_equals_after_name(name, value, 0);
    assert(s.subrange(0, name.len() as int) =~= name);
    assert(s.subrange((name.len() + 1) as int, s.len() as int) =~= value);
}

/// Script variables written as arguments and read back give the same
/// variables, provided no name holds `=`.
pub proof fn lemma_variables_round_trip(variables: Seq<(Seq<char>, Seq<char>)>)
    requires
        forall|i: int| 0 <= i < variables.len() ==> !(#[trigger] variables[i]).0.contains('='),
    ensures
        arg_pairs(pair_args(variables)) == variables,
        pairs_map(arg_pairs(pair_args(variables))) == pairs_map(variables),
{
    let args = pair_args(variables);
    assert forall|i: int| 0 <= i < variables.len() implies #[trigger] arg_pairs(args)[i]
        == variables[i] by {
        lemma_pair_round_trip(variables[i].0, variables[i].1);
    }
    assert(arg_pairs(args) =~= variables);
}

/// The extension of the last component of `path`, as `Path::extension`
/// reads it on the platform the program is built for, when it is valid
/// UTF-8.
pub uninterp spec fn path_extension_of(path: Seq<char>) -> Option<Seq<char>>;

/// `path` is `name.ext` or ends in `/name.ext`, where `ext` is `extension`:
/// both `name` and `ext` are non-empty and hold no `/`, and `ext` holds no
/// `.`. The path holds no `\\` and does not start with `//`, and a bare
/// `name.ext` holds no `:`, so that no platform reads a prefix (a drive, a
/// network share or a verbatim path) into it.
pub open spec fn plain_extension(path: Seq<char>, extension: Seq<char>) -> bool {
    let dot = path.len() - extension.len() - 1;
    &&& extension.len() > 0
    &&& forall|i: int|
        0 <= i < extension.len() ==> {
            let c = #[trigger] extension[i];
            c != '.' && c != '/'
        }
    &&& !path.contains('\\')
    &&& !(path.len() >= 2 && path[0] == '/' && path[1] == '/')
    &&& path.len() >= extension.len() + 2
    &&& path.subrange(dot + 1, path.len() as int) == extension
    &&& path[dot] == '.'
    &&& ({
        ||| forall|j: int| 0 <= j < dot ==> #[trigger] path[j] != '/' && path[j] != ':'
        ||| exists|k: int|
            #![trigger path[k]]
            0 <= k < dot - 1 && path[k] == '/' && forall|j: int| k < j < dot ==> path[j] != '/'
    })
}

/// The extension of the last component of `path`.
///
/// Trusted: calls `std::path::Path::new(path).extension()` and converts the
/// result to a string; `None` when there is none or it is not valid UTF-8.
/// What is claimed: the result depends on the path alone
/// (`path_extension_of`), since `Path::extension` reads only the path's
/// text, split at the target platform's separators; an extension holds no
/// `.`, since `Path::extension` documents it as the part of the file name
/// after its final `.`; and a path `name.ext` or ending in `/name.ext` (see
/// [`plain_extension`]) has the extension `ext`, since `/` separates
/// components on every platform, no prefix can be read into such a path, and
/// its final component is then a file name holding that final `.`.
#[verifier::external_body]
fn path_extension(path: &str) -> (r: Option<String>)
    ensures
        opt_text(r) == path_extension_of(path@),
        r matches Some(e) ==> !e@.contains('.'),
        forall|e: Seq<char>|
            #[trigger] plain_extension(path@, e) ==> opt_text(r) == Some(e),
{
    std::path::Path::new(path).extension().and_then(|e| e.to_str()).map(|e| e.to_owned())
}

fn is_script(extension: &Option<String>) -> (r: bool)
    ensures
        r == is_script_extension(opt_text(*extension)),
{
    match extension {
        Some(e) => {
            let a = str_equal(e.as_str(), "vpy");
            let b = str_equal(e.as_str(), "py");
            proof {
                reveal_strlit("vpy");
                reveal_strlit("py");
            }
            a || b
        },
        None => false,
    }
}

fn vs_import(decoder: Option<DecoderMethod>, index: Option<u8>) -> (r: VapourSynthImportMethod)
    ensures
        r@ == vs_import_for(decoder, index),
{
    match decoder {
        Some(DecoderMethod::LSMASHWorks) => VapourSynthImportMethod::LSMASHWorks { index },
        Some(DecoderMethod::DGDecodeNV) => VapourSynthImportMethod::DGDecNV {
            dgindexnv_executable: None,
        },
        Some(DecoderMethod::VSFFMS2) => VapourSynthImportMethod::FFMS2 { index },
        _ => VapourSynthImportMethod::BestSource { index },
    }
}

/// The input described by `path`, whose extension is `extension`, with the
/// given decoder choice, script arguments and clip index.
pub fn input_for_extension(
    path: &str,
    extension: Option<String>,
    decoder: Option<DecoderMethod>,
    vs_args: Option<&[String]>,
    index: Option<u8>,
) -> (r: InputModel)
    ensures
        r@ == input_for(
            path@,
            opt_text(extension),
            decoder,
            args_view(vs_args),
            index,
        ),
{
    if decoder == Some(DecoderMethod::FFMS2) {
        return InputModel::Video {
            path: path.to_owned(),
            import_method: VideoImportMethod::FFMS2 { index },
        };
    }
    if is_script(&extension) {
        let variables = match vs_args {
            Some(a) => parse_vs_args(a),
            None => {
                let v: Vec<(String, String)> = Vec::new();
                assert(pairs_map(pair_views(v@)) =~= Map::empty());
                v
            },
        };
        let index = match index {
            Some(i) => i,
            None => 0,
        };
        InputModel::VapourSynthScript {
            source: ScriptSource::Path(path.to_owned()),
            variables,
            index,
        }
    } else {
        InputModel::VapourSynth {
            path: path.to_owned(),
            import_method: vs_import(decoder, index),
            cache_path: None,
        }
    }
}

/// A chosen source plugin, by its model.
pub open spec fn import_view(import_method: Option<VapourSynthImportMethod>) -> Option<ImportView> {
    match import_method {
        Some(m) => Some(m@),
        None => None,
    }
}

/// The input a path describes when it is opened through VapourSynth: a path
/// with a `vpy` or `py` extension is a script whose variables are the
/// arguments, read with clip index 0; any other path is opened through the
/// given source plugin, BestSource (with no clip index) when none is given.
pub open spec fn vs_input_for(
    path: Seq<char>,
    extension: Option<Seq<char>>,
    import_method: Option<ImportView>,
    vs_args: Option<Seq<Seq<char>>>,
) -> InputView {
    if is_script_extension(extension) {
        InputView::VapourSynthScript {
            source: SourceView::Path(path),
            variables: match vs_args {
                Some(a) => pairs_map(arg_pairs(a)),
                None => Map::empty(),
            },
            index: 0,
        }
    } else {
        InputView::VapourSynth {
            path,
            import_method: match import_method {
                Some(m) => m,
                None => ImportView::BestSource { index: None },
            },
            cache_path: None,
        }
    }
}

/// The input `path` describes when opened through VapourSynth with the
/// given source plugin and script arguments; whether the path is a script
/// is read from its extension.
pub fn new_vs_input_model(
    path: &str,
    import_method: Option<VapourSynthImportMethod>,
    vs_args: Option<&[String]>,
) -> (r: InputModel)
    ensures
        r@ == vs_input_for(path@, path_extension_of(path@), import_view(import_method), args_view(vs_args)),
        forall|e: Seq<char>|
            #[trigger] plain_extension(path@, e) ==> path_extension_of(path@) == Some(e),
{
    let extension = path_extension(path);
    if is_script(&extension) {
        let variables = match vs_args {
            Some(a) => parse_vs_args(a),
            None => {
                let v: Vec<(String, String)> = Vec::new();
                assert(pairs_map(pair_views(v@)) =~= Map::empty());
                v
            },
        };
        InputModel::VapourSynthScript {
            source: ScriptSource::Path(path.to_owned()),
            variables,
            index: 0,
        }
    } else {
        let import_method = match import_method {
            Some(m) => m,
            None => VapourSynthImportMethod::BestSource { index: None },
        };
        InputModel::VapourSynth { path: path.to_owned(), import_method, cache_path: None }
    }
}

/// A decoder choice other than the integrated FFMS2 decoder, with no clip
/// index, describes the same input as the VapourSynth route given the source
/// plugin chosen for it (and no plugin when there is no choice).
pub proof fn lemma_decoder_choice_is_vs_route(
    path: Seq<char>,
    extension: Option<Seq<char>>,
    decoder: Option<DecoderMethod>,
    vs_args: Option<Seq<Seq<char>>>,
)
    requires
        decoder != Some(DecoderMethod::FFMS2),
    ensures
        input_for(path, extension, decoder, vs_args, None) == vs_input_for(
            path,
            extension,
            match decoder {
                Some(_) => Some(vs_import_for(decoder, None)),
                None => None,
            },
            vs_args,
        ),
{
}

/// The input described by `path` with the given decoder choice, script
/// arguments and clip index; whether the path is a script is read from its
/// extension.
pub fn new_input_model(
    path: &str,
    decoder: Option<DecoderMethod>,
    vs_args: Option<&[String]>,
    index: Option<u8>,
) -> (r: InputModel)
    ensures
        r@ == input_for(path@, path_extension_of(path@), decoder, args_view(vs_args), index),
        forall|e: Seq<char>|
            #[trigger] plain_extension(path@, e) ==> path_extension_of(path@) == Some(e),
{
    let extension = path_extension(path);
    input_for_extension(path, extension, decoder, vs_args, index)
}

/// The decoder choice an input was made with; none for a script.
pub open spec fn decoder_of(existing: InputView) -> Option<DecoderMethod> {
    match existing {
        InputView::Video { .. } => Some(DecoderMethod::FFMS2),
        InputView::VapourSynth { import_method, .. } => match import_method {
            ImportView::LSMASHWorks { .. } => Some(DecoderMethod::LSMASHWorks),
            ImportView::DGDecNV { .. } => Some(DecoderMethod::DGDecodeNV),
            ImportView::FFMS2 { .. } => Some(DecoderMethod::VSFFMS2),
            ImportView::BestSource { .. } => Some(DecoderMethod::BestSource),
        },
        InputView::VapourSynthScript { .. } => None,
    }
}

/// The clip index an input was made with, where it has one.
pub open spec fn index_of(existing: InputView) -> Option<u8> {
    match existing {
        InputView::Video { import_method, .. } => match import_method {
            VideoImportMethod::FFMS2 { index } => index,
        },
        InputView::VapourSynth { import_method, .. } => match import_method {
            ImportView::LSMASHWorks { index } => index,
            ImportView::DGDecNV { .. } => None,
            ImportView::FFMS2 { index } => index,
            ImportView::BestSource { index } => index,
        },
        InputView::VapourSynthScript { index, .. } => Some(index),
    }
}

/// The path an input was made from. A script given as text has none; the
/// configured input path `configured` stands for it.
pub open spec fn path_of(existing: InputView, configured: Seq<char>) -> Seq<char> {
    match existing {
        InputView::Video { path, .. } => path,
        InputView::VapourSynth { path, .. } => path,
        InputView::VapourSynthScript { source, .. } => match source {
            SourceView::Path(p) => p,
            SourceView::Text(_) => configured,
        },
    }
}

/// The script variables of an input, written back as `name=value`
/// arguments; none for an input that is not a script.
pub open spec fn args_of(existing: InputModel) -> Option<Seq<Seq<char>>> {
    match existing {
        InputModel::VapourSynthScript { variables, .. } => Some(
            pair_args(pair_views(variables@)),
        ),
        _ => None,
    }
}

/// The requested value when there is one, else the current one.
pub open spec fn or_current<T>(requested: Option<T>, current: Option<T>) -> Option<T> {
    match requested {
        Some(v) => Some(v),
        None => current,
    }
}

/// The settings an existing input was made with: its path (the configured
/// input path for a script given as text), its decoder choice, its script
/// variables as arguments and its clip index.
pub fn existing_settings(existing: &InputModel, configured: &str) -> (r: (
    String,
    Option<DecoderMethod>,
    Option<Vec<String>>,
    Option<u8>,
))
    ensures
        r.0@ == path_of(existing@, configured@),
        r.1 == decoder_of(existing@),
        match r.2 {
            Some(a) => args_of(*existing) == Some(texts(a@)),
            None => args_of(*existing) is None,
        },
        r.3 == index_of(existing@),
{
    match existing {
        InputModel::Video { path, import_method } => {
            let index = match import_method {
                VideoImportMethod::FFMS2 { index } => *index,
            };
            (path.clone(), Some(DecoderMethod::FFMS2), None, index)
        },
        InputModel::VapourSynth { path, import_method, .. } => {
            let (decoder, index) = match import_method {
                VapourSynthImportMethod::LSMASHWorks { index } => (DecoderMethod::LSMASHWorks, *index),
                VapourSynthImportMethod::DGDecNV { .. } => (DecoderMethod::DGDecodeNV, None),
                VapourSynthImportMethod::FFMS2 { index } => (DecoderMethod::VSFFMS2, *index),
                VapourSynthImportMethod::BestSource { index } => (DecoderMethod::BestSource, *index),
            };
            (path.clone(), Some(decoder), None, index)
        },
        InputModel::VapourSynthScript { source, variables, index } => {
            let path = match source {
                ScriptSource::Path(p) => p.clone(),
                ScriptSource::Text(_) => configured.to_owned(),
            };
            let args = format_vs_args(variables.as_slice());
            (path, None, Some(args), Some(*index))
        },
    }
}


/// The requested path when there is one, else the path of `existing` (the
/// configured input path `configured` for a script given as text).
pub open spec fn requested_text(
    configured: Seq<char>,
    existing: InputView,
    input_path: Option<&str>,
) -> Seq<char> {
    match input_path {
        Some(p) => p@,
        None => path_of(existing, configured),
    }
}

/// The path an update of an existing input is read from, before it is made
/// absolute: the requested path, else the path of `existing` (the
/// configured input path for a script given as text).
pub fn requested_path(configured: &str, existing: &InputModel, input_path: Option<&str>) -> (r:
    String)
    ensures
        r@ == requested_text(configured@, existing@, input_path),
{
    match input_path {
        Some(p) => p.to_owned(),
        None => {
            let (path, _, _, _) = existing_settings(existing, configured);
            path
        },
    }
}

/// The input an update of `existing` describes once its path is the
/// absolute path `absolute`: every setting that is not requested is taken
/// from `existing` (see [`existing_settings`]), and whether it is a script
/// is read from the extension of `absolute`.
pub fn input_at(
    absolute: &str,
    existing: &InputModel,
    decoder: Option<DecoderMethod>,
    vs_args: Option<&[String]>,
    index: Option<u8>,
) -> (r: InputModel)
    ensures
        r@ == input_for(
            absolute@,
            path_extension_of(absolute@),
            or_current(decoder, decoder_of(existing@)),
            or_current(args_view(vs_args), args_of(*existing)),
            or_current(index, index_of(existing@)),
        ),
        forall|e: Seq<char>|
            #[trigger] plain_extension(absolute@, e) ==> path_extension_of(absolute@) == Some(e),
{
    let (_, existing_decoder, existing_args, existing_index) = existing_settings(
        existing,
        absolute,
    );
    let decoder = match decoder {
        Some(d) => Some(d),
        None => existing_decoder,
    };
    let args: Option<&[String]> = match vs_args {
        Some(a) => Some(a),
        None => match &existing_args {
            Some(v) => Some(v.as_slice()),
            None => None,
        },
    };
    let index = match index {
        Some(i) => Some(i),
        None => existing_index,
    };
    new_input_model(absolute, decoder, args, index)
}

/// Makes `path` absolute against the current directory, as
/// `path_abs::PathAbs::new` does, and renders it as text.
///
/// Trusted: calls `path_abs::PathAbs::new(path)`; on success renders the
/// resulting path with `to_string_lossy`, on failure gives the error's
/// message. What is claimed holds of every outcome: `PathAbs::new` walks the
/// path's components in order and pushes a normal component onto the result
/// as it meets it (path_abs 0.5.1, `abs.rs`, the `Component::Normal` arm),
/// so when the path ends in a plain `name.ext` (see [`plain_extension`]),
/// that file name is the last component of the result and the result has
/// the extension `ext`. Nothing else is stated: the result depends on the
/// current directory and, for some paths, on the file system.
#[verifier::external_body]
fn absolute_path(path: &str) -> (r: Result<String, String>)
    ensures
        forall|e: Seq<char>|
            #[trigger] plain_extension(path@, e) ==> (r matches Ok(a) ==> path_extension_of(a@)
                == Some(e)),
{
    match path_abs::PathAbs::new(path) {
        Ok(p) => Ok(p.as_path().to_string_lossy().into_owned()),
        Err(e) => Err(e.to_string()),
    }
}

/// The input an update of an existing input describes: the path is the
/// requested one (see [`requested_path`]) made absolute, and the input is
/// then [`input_at`] that absolute path. Fails, with the message of the
/// failure, when the path cannot be made absolute.
pub fn configure_input(
    configured: &str,
    existing: &InputModel,
    input_path: Option<&str>,
    decoder: Option<DecoderMethod>,
    vs_args: Option<&[String]>,
    index: Option<u8>,
) -> (r: Result<InputModel, String>)
    ensures
        r matches Ok(m) ==> exists|absolute: Seq<char>|
            {
                &&& m@ == #[trigger] input_for(
                    absolute,
                    path_extension_of(absolute),
                    or_current(decoder, decoder_of(existing@)),
                    or_current(args_view(vs_args), args_of(*existing)),
                    or_current(index, index_of(existing@)),
                )
                &&& forall|e: Seq<char>|
                    #[trigger] plain_extension(requested_text(configured@, existing@, input_path), e)
                        ==> path_extension_of(absolute) == Some(e)
            },
{
    let requested = requested_path(configured, existing, input_path);
    let absolute = match absolute_path(requested.as_str()) {
        Ok(a) => a,
        Err(e) => {
            return Err(e);
        },
    };
    Ok(input_at(absolute.as_str(), existing, decoder, vs_args, index))
}

/// Re-describing an input from its own settings, with nothing requested,
/// gives the same input back: a video opened directly; a video opened
/// through a source plugin, when its path does not read as a script, it has
/// no cache path and no DGIndexNV executable is set; a script read from a
/// path, when its path reads as a script and no variable name holds `=`.
/// (A script given as text becomes a script read from the configured input
/// path, so it is not covered.)
pub proof fn lemma_unchanged_input(existing: InputModel, configured: Seq<char>, extension: Option<Seq<char>>)
    requires
        match existing {
            InputModel::Video { .. } => true,
            InputModel::VapourSynth { import_method, cache_path, .. } => {
                &&& !is_script_extension(extension)
                &&& cache_path is None
                &&& !(import_method matches VapourSynthImportMethod::DGDecNV {
                    dgindexnv_executable: Some(_),
                })
            },
            InputModel::VapourSynthScript { source, variables, .. } => {
                &&& source is Path
                &&& is_script_extension(extension)
                &&& forall|i: int|
                    0 <= i < variables@.len() ==> !(#[trigger] variables@[i]).0@.contains('=')
            },
        },
    ensures
        input_for(
            path_of(existing@, configured),
            extension,
            decoder_of(existing@),
            args_of(existing),
            index_of(existing@),
        ) == existing@,
{
    match existing {
        InputModel::VapourSynthScript { source, variables, index } => {
            let p = pair_views(variables@);
            assert forall|i: int| 0 <= i < p.len() implies !(#[trigger] p[i]).0.contains('=') by {
                assert(p[i].0 == variables@[i].0@);
            }
            lemma_variables_round_trip(p);
        },
        _ => {},
    }
}

} // verus!
