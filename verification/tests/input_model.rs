use condor::commands::DecoderMethod;
use condor::input_model::{
    configure_input, input_at, requested_path, existing_settings, format_vs_args, input_for_extension, new_input_model,
    new_vs_input_model,
    parse_vs_args, InputModel, ScriptSource, VapourSynthImportMethod, VideoImportMethod,
};

fn args(a: &[&str]) -> Vec<String> {
    a.iter().map(|s| s.to_string()).collect()
}

fn sorted_vars(v: &[(String, String)]) -> Vec<(String, String)> {
    let m: std::collections::BTreeMap<String, String> = v.iter().cloned().collect();
    m.into_iter().collect()
}

#[test]
fn vs_args_split_at_first_equals() {
    let parsed = parse_vs_args(&args(&["a=1", "b", "c=x=y", "=v", "d="]));
    assert_eq!(
        parsed,
        vec![
            ("a".to_owned(), "1".to_owned()),
            ("b".to_owned(), "".to_owned()),
            ("c".to_owned(), "x=y".to_owned()),
            ("".to_owned(), "v".to_owned()),
            ("d".to_owned(), "".to_owned()),
        ]
    );
}

#[test]
fn vs_args_round_trip() {
    let vars = vec![("width".to_owned(), "1920".to_owned()), ("mode".to_owned(), "a=b".to_owned())];
    let written = format_vs_args(&vars);
    assert_eq!(written, args(&["width=1920", "mode=a=b"]));
    assert_eq!(parse_vs_args(&written), vars);
}

#[test]
fn integrated_decoder_opens_a_video() {
    let m = input_for_extension("/v/in.vpy", Some("vpy".to_owned()), Some(DecoderMethod::FFMS2), None, Some(2));
    assert!(matches!(m, InputModel::Video { ref path, import_method: VideoImportMethod::FFMS2 { index: Some(2) } } if path == "/v/in.vpy"));
}

#[test]
fn script_extension_makes_a_script() {
    let a = args(&["x=1", "y=2", "x=3"]);
    let m = input_for_extension("/v/in.py", Some("py".to_owned()), Some(DecoderMethod::LSMASHWorks), Some(&a), None);
    match m {
        InputModel::VapourSynthScript { source: ScriptSource::Path(p), variables, index } => {
            assert_eq!(p, "/v/in.py");
            assert_eq!(index, 0);
            let map: std::collections::HashMap<String, String> = variables.into_iter().collect();
            assert_eq!(map.len(), 2);
            assert_eq!(map["x"], "3");
            assert_eq!(map["y"], "2");
        },
        _ => panic!("expected a script"),
    }
}

#[test]
fn other_inputs_go_through_a_source_plugin() {
    let m = input_for_extension("/v/in.mkv", Some("mkv".to_owned()), None, None, None);
    assert!(matches!(m, InputModel::VapourSynth { import_method: VapourSynthImportMethod::BestSource { index: None }, cache_path: None, .. }));
    let m = input_for_extension("/v/in", None, Some(DecoderMethod::DGDecodeNV), None, Some(1));
    assert!(matches!(m, InputModel::VapourSynth { import_method: VapourSynthImportMethod::DGDecNV { dgindexnv_executable: None }, .. }));
    let m = input_for_extension("/v/in", None, Some(DecoderMethod::VSFFMS2), None, Some(1));
    assert!(matches!(m, InputModel::VapourSynth { import_method: VapourSynthImportMethod::FFMS2 { index: Some(1) }, .. }));
    let m = input_for_extension("/v/in.VPY", Some("VPY".to_owned()), None, None, None);
    assert!(matches!(m, InputModel::VapourSynth { .. }), "extension match is case-sensitive");
}

#[test]
fn new_input_model_reads_the_extension() {
    assert!(matches!(new_input_model("/v/clip.vpy", None, None, None), InputModel::VapourSynthScript { .. }));
    assert!(matches!(new_input_model("/v/clip.py", None, None, None), InputModel::VapourSynthScript { .. }));
    assert!(matches!(new_input_model("/v/clip.mp4", None, None, None), InputModel::VapourSynth { .. }));
    assert!(matches!(new_input_model("/v/.vpy", None, None, None), InputModel::VapourSynth { .. }));
}

#[test]
fn existing_settings_of_each_kind() {
    let video = InputModel::Video { path: "/a.mkv".to_owned(), import_method: VideoImportMethod::FFMS2 { index: Some(3) } };
    let (p, d, a, i) = existing_settings(&video, "/cfg");
    assert_eq!((p.as_str(), d, a, i), ("/a.mkv", Some(DecoderMethod::FFMS2), None, Some(3)));

    let dg = InputModel::VapourSynth {
        path: "/b.mkv".to_owned(),
        import_method: VapourSynthImportMethod::DGDecNV { dgindexnv_executable: Some("dg".to_owned()) },
        cache_path: None,
    };
    let (p, d, a, i) = existing_settings(&dg, "/cfg");
    assert_eq!((p.as_str(), d, a, i), ("/b.mkv", Some(DecoderMethod::DGDecodeNV), None, None));

    let text = InputModel::VapourSynthScript {
        source: ScriptSource::Text("clip = ...".to_owned()),
        variables: vec![("k".to_owned(), "v".to_owned())],
        index: 4,
    };
    let (p, d, a, i) = existing_settings(&text, "/cfg/in.mkv");
    assert_eq!((p.as_str(), d, a, i), ("/cfg/in.mkv", None, Some(args(&["k=v"])), Some(4)));
}

#[test]
fn configure_input_keeps_what_is_not_requested() {
    let existing = InputModel::VapourSynthScript {
        source: ScriptSource::Path("/scripts/in.vpy".to_owned()),
        variables: vec![("a".to_owned(), "1".to_owned()), ("b".to_owned(), "2".to_owned())],
        index: 1,
    };
    let m = configure_input("/cfg", &existing, None, None, None, None).unwrap();
    match m {
        InputModel::VapourSynthScript { source: ScriptSource::Path(p), variables, index } => {
            assert_eq!(p, "/scripts/in.vpy");
            assert_eq!(index, 1);
            assert_eq!(sorted_vars(&variables), vec![("a".to_owned(), "1".to_owned()), ("b".to_owned(), "2".to_owned())]);
        },
        _ => panic!("expected a script"),
    }
}

#[test]
fn configure_input_applies_requests() {
    let existing = InputModel::VapourSynth {
        path: "/v/in.mkv".to_owned(),
        import_method: VapourSynthImportMethod::LSMASHWorks { index: Some(2) },
        cache_path: None,
    };
    let m = configure_input("/cfg", &existing, Some("/w/./out/../other.mkv"), None, None, None).unwrap();
    match m {
        InputModel::VapourSynth { path, import_method: VapourSynthImportMethod::LSMASHWorks { index }, .. } => {
            assert_eq!(path, "/w/other.mkv");
            assert_eq!(index, Some(2));
        },
        _ => panic!("expected a VapourSynth input"),
    }
    let m = configure_input("/cfg", &existing, None, Some(DecoderMethod::FFMS2), None, Some(5)).unwrap();
    assert!(matches!(m, InputModel::Video { ref path, import_method: VideoImportMethod::FFMS2 { index: Some(5) } } if path == "/v/in.mkv"));
}

#[test]
fn text_script_becomes_a_script_at_the_configured_path() {
    let existing = InputModel::VapourSynthScript {
        source: ScriptSource::Text("clip = core.std.BlankClip()".to_owned()),
        variables: vec![("k".to_owned(), "v".to_owned())],
        index: 0,
    };
    let m = configure_input("/cfg/input.vpy", &existing, None, None, None, None).unwrap();
    match m {
        InputModel::VapourSynthScript { source: ScriptSource::Path(p), variables, .. } => {
            assert_eq!(p, "/cfg/input.vpy");
            assert_eq!(variables, vec![("k".to_owned(), "v".to_owned())]);
        },
        _ => panic!("expected a script read from a path"),
    }
}

#[test]
fn variable_names_with_equals_do_not_survive() {
    let existing = InputModel::VapourSynthScript {
        source: ScriptSource::Path("/s/in.vpy".to_owned()),
        variables: vec![("a=b".to_owned(), "c".to_owned())],
        index: 0,
    };
    let m = configure_input("/cfg", &existing, None, None, None, None).unwrap();
    match m {
        InputModel::VapourSynthScript { variables, .. } => {
            assert_eq!(variables, vec![("a".to_owned(), "b=c".to_owned())]);
        },
        _ => panic!("expected a script"),
    }
}

#[test]
fn requested_path_prefers_the_request() {
    let existing = InputModel::Video { path: "/a.mkv".to_owned(), import_method: VideoImportMethod::FFMS2 { index: None } };
    assert_eq!(requested_path("/cfg", &existing, Some("b.mkv")), "b.mkv");
    assert_eq!(requested_path("/cfg", &existing, None), "/a.mkv");
    let text = InputModel::VapourSynthScript {
        source: ScriptSource::Text("x".to_owned()),
        variables: vec![],
        index: 0,
    };
    assert_eq!(requested_path("/cfg/in.vpy", &text, None), "/cfg/in.vpy");
}

#[test]
fn second_start_with_a_script_input() {
    let existing = InputModel::VapourSynth {
        path: "/v/in.mkv".to_owned(),
        import_method: VapourSynthImportMethod::BestSource { index: None },
        cache_path: None,
    };
    let a = args(&["key=value"]);
    let m = input_at("/scripts/in.vpy", &existing, None, Some(&a), None);
    match m {
        InputModel::VapourSynthScript { source: ScriptSource::Path(p), variables, index } => {
            assert_eq!(p, "/scripts/in.vpy");
            assert_eq!(variables, vec![("key".to_owned(), "value".to_owned())]);
            assert_eq!(index, 0);
        },
        _ => panic!("expected a script read from its path"),
    }
}

#[test]
fn a_bare_file_name_reads_by_its_extension() {
    assert!(matches!(new_input_model("in.vpy", None, None, None), InputModel::VapourSynthScript { .. }));
    assert!(matches!(new_input_model("in.mkv", None, None, None), InputModel::VapourSynth { .. }));
}

#[test]
fn a_relative_script_request_becomes_an_absolute_script() {
    let existing = InputModel::VapourSynth {
        path: "/v/in.mkv".to_owned(),
        import_method: VapourSynthImportMethod::BestSource { index: None },
        cache_path: None,
    };
    let m = configure_input("/cfg", &existing, Some("clip.vpy"), None, None, None).unwrap();
    match m {
        InputModel::VapourSynthScript { source: ScriptSource::Path(p), .. } => {
            assert!(p.starts_with('/'), "path {p} is not absolute");
            assert!(p.ends_with("/clip.vpy"), "path {p} lost its file name");
        },
        _ => panic!("expected a script input"),
    }
}

#[test]
fn vs_route_reads_scripts_and_videos() {
    let a = args(&["width=1920", "flag"]);
    match new_vs_input_model("/s/clip.py", Some(VapourSynthImportMethod::FFMS2 { index: Some(3) }), Some(&a)) {
        InputModel::VapourSynthScript { source: ScriptSource::Path(p), variables, index } => {
            assert_eq!(p, "/s/clip.py");
            assert_eq!(index, 0);
            assert_eq!(
                sorted_vars(&variables),
                vec![("flag".to_owned(), String::new()), ("width".to_owned(), "1920".to_owned())]
            );
        },
        _ => panic!("expected a script input"),
    }
    assert!(matches!(
        new_vs_input_model("/v/in.mkv", None, None),
        InputModel::VapourSynth { ref path, import_method: VapourSynthImportMethod::BestSource { index: None }, cache_path: None }
            if path == "/v/in.mkv"
    ));
    assert!(matches!(
        new_vs_input_model(
            "/v/in.mkv",
            Some(VapourSynthImportMethod::DGDecNV { dgindexnv_executable: Some("/bin/dgi".to_owned()) }),
            None
        ),
        InputModel::VapourSynth { import_method: VapourSynthImportMethod::DGDecNV { dgindexnv_executable: Some(ref e) }, .. }
            if e == "/bin/dgi"
    ));
}
