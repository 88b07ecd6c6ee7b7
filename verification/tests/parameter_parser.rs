use condor::parameter_parser::{merge_params_text, CLIParameter, EncoderParams, EncoderParamsParser};

fn number_value(p: &CLIParameter) -> Option<f64> {
    match p {
        CLIParameter::Number { value, .. } => value.parse::<f64>().ok(),
        _ => None,
    }
}

#[test]
fn parse_empty_string() {
    let result = EncoderParamsParser::parse_string("");
    assert!(result.is_ok_and(|result| result.is_empty()), "input contains no parameters");
}

#[test]
fn parse_single_dash_flag() {
    let result = EncoderParamsParser::parse_string("--flag");
    assert!(matches!(result, Ok(_)), "input should parse");
    let result = result.expect("input should parse");
    assert_eq!(result.len(), 1, "input contains 1 parameter");
    assert!(
        matches!(
            result.get("flag").unwrap(),
            CLIParameter::Bool { prefix, value } if prefix == "--" && *value
        ),
        "input contains true flag preceded by \"--\""
    );
}

#[test]
fn parse_single_short_flag() {
    let result = EncoderParamsParser::parse_string("-f");
    assert!(result.is_ok(), "input should parse");
    let result = result.expect("input should parse");
    assert_eq!(result.len(), 1, "input contains 1 parameter");
    assert!(
        matches!(
            result.get("f").unwrap(),
            CLIParameter::Bool { prefix, value } if prefix == "-" && *value
        ),
        "input contains true short flag preceded by \"-\""
    );
}

#[test]
fn parse_equals_pair_string() {
    let result = EncoderParamsParser::parse_string("--key=value");
    assert!(result.is_ok(), "input should parse");
    let result = result.expect("input should parse");
    assert_eq!(result.len(), 1, "input contains 1 parameter");
    assert!(
        matches!(
            result.get("key").unwrap(),
            CLIParameter::String { prefix, delimiter, value }
                if prefix == "--" && delimiter == "=" && value == "value"
        ),
        "input contains key value preceded by \"--\" separated by \"=\""
    );
}

#[test]
fn parse_equals_pair_number() {
    let result = EncoderParamsParser::parse_string("--crf=23");
    assert!(result.is_ok(), "input should parse");
    let result = result.expect("input should parse");
    assert_eq!(result.len(), 1, "input contains 1 parameter");
    let p = result.get("crf").unwrap();
    assert!(
        matches!(p, CLIParameter::Number { prefix, delimiter, .. } if prefix == "--" && delimiter == "="),
        "input contains crf 23 preceded by \"--\" separated by \"=\""
    );
    assert_eq!(number_value(p), Some(23.0));
}

#[test]
fn parse_space_pair_string() {
    let result = EncoderParamsParser::parse_string("--key value");
    assert!(result.is_ok(), "input should parse");
    let result = result.expect("input should parse");
    assert_eq!(result.len(), 1, "input contains 1 parameter");
    assert!(
        matches!(
            result.get("key").unwrap(),
            CLIParameter::String { prefix, delimiter, value }
                if prefix == "--" && delimiter == " " && value == "value"
        ),
        "input contains key value preceded by \"--\" separated by \" \""
    );
}

#[test]
fn parse_space_pair_number() {
    let result = EncoderParamsParser::parse_string("--crf 30");
    assert!(result.is_ok(), "input should parse");
    let result = result.expect("input should parse");
    assert_eq!(result.len(), 1, "input contains 1 parameter");
    let p = result.get("crf").unwrap();
    assert!(
        matches!(p, CLIParameter::Number { prefix, delimiter, .. } if prefix == "--" && delimiter == " "),
        "input contains crf 30 preceded by \"--\" separated by \" \""
    );
    assert_eq!(number_value(p), Some(30.0));
}

#[test]
fn parse_multiple_params() {
    let result = EncoderParamsParser::parse_string("--key1 val1 --key2=val2 -f");
    assert!(result.is_ok(), "input should parse");
    let result = result.expect("input should parse");
    assert_eq!(result.len(), 3, "input contains 3 parameters");
    assert!(result.contains_key("key1"), "input contains key1");
    assert!(result.contains_key("key2"), "input contains key2");
    assert!(result.contains_key("f"), "input contains f");
}

#[test]
fn later_parameter_of_same_name_wins() {
    let result = EncoderParamsParser::parse_string("--crf 30 --preset 4 --crf=20").unwrap();
    assert_eq!(result.len(), 2);
    let p = result.get("crf").unwrap();
    assert!(matches!(p, CLIParameter::Number { delimiter, .. } if delimiter == "="));
    assert_eq!(number_value(p), Some(20.0));
}

#[test]
fn numbers_in_float_syntax() {
    let result = EncoderParamsParser::parse_string("--a 1e3 --b -2.5 --c inf --d .5 --e 1.2.3").unwrap();
    assert_eq!(number_value(result.get("a").unwrap()), Some(1000.0));
    assert_eq!(number_value(result.get("b").unwrap()), Some(-2.5));
    assert_eq!(number_value(result.get("c").unwrap()), Some(f64::INFINITY));
    assert_eq!(number_value(result.get("d").unwrap()), Some(0.5));
    assert!(matches!(result.get("e").unwrap(), CLIParameter::String { value, .. } if value == "1.2.3"));
}

#[test]
fn reading_stops_where_no_parameter_starts() {
    let result = EncoderParamsParser::parse_string("lorem ipsum dolor sit amet").unwrap();
    assert!(result.is_empty());
    let result = EncoderParamsParser::parse_string("  --tune 0 stray --crf 4").unwrap();
    assert_eq!(result.len(), 1);
    assert!(result.contains_key("tune"));
    assert!(!result.contains_key("crf"));
}

#[test]
fn merge_overrides_and_keeps() {
    let mut params = EncoderParamsParser::parse_string("--crf 30 --preset 4").unwrap();
    merge_params_text(&mut params, "--crf 25 --tune=0");
    assert_eq!(params.len(), 3);
    assert_eq!(number_value(params.get("crf").unwrap()), Some(25.0));
    assert_eq!(number_value(params.get("preset").unwrap()), Some(4.0));
    assert!(params.contains_key("tune"));
}

#[test]
fn insert_and_extend() {
    let mut a = EncoderParams::new();
    assert!(a.is_empty());
    a.insert(
        "crf".to_owned(),
        CLIParameter::Number { prefix: "--".to_owned(), delimiter: " ".to_owned(), value: "30".to_owned() },
    );
    a.insert("f".to_owned(), CLIParameter::Bool { prefix: "-".to_owned(), value: true });
    let b = EncoderParamsParser::parse_string("--crf 10 --x y").unwrap();
    a.extend(&b);
    assert_eq!(a.len(), 3);
    assert_eq!(number_value(a.get("crf").unwrap()), Some(10.0));
    assert!(a.contains_key("f"));
    assert!(a.get("missing").is_none());
}

#[test]
fn error_message() {
    let e = condor::parameter_parser::EncoderParamsParserError::InvalidParams("--x,4".to_owned());
    assert_eq!(e.message(), "Invalid parameter: --x,4");
}

#[test]
fn entries_list_each_name_once() {
    let params = EncoderParamsParser::parse_string("--a 1 --c x --a=2 -b").unwrap();
    let entries = params.entries();
    assert_eq!(entries.len(), 3);
    let mut names: Vec<&str> = entries.iter().map(|(n, _)| n.as_str()).collect();
    names.sort();
    assert_eq!(names, vec!["a", "b", "c"]);
    let a = entries.iter().find(|(n, _)| n == "a").unwrap();
    assert_eq!(number_value(&a.1), Some(2.0));
}

#[test]
fn space_pair_takes_a_dashed_value() {
    let params = EncoderParamsParser::parse_string("-b --a=2").unwrap();
    assert_eq!(params.len(), 1);
    assert!(matches!(params.get("b").unwrap(), CLIParameter::String { value, .. } if value == "--a=2"));
}

#[test]
fn numbers_are_exactly_what_f64_accepts() {
    let samples = [
        "0", "1", "-1", "+1", "1.", ".5", ".", "-.", "+.5", "1e5", "1E5", "1e", "1e+", "1e-3", "1e+3",
        "e5", "-e5", "1.5e", "1.5e-2", "inf", "+inf", "-inf", "Inf", "INF", "infinity", "Infinity",
        "-infinity", "infinit", "in", "nan", "NaN", "+nan", "-NaN", "nana", "1_000", "0x10", "1.2.3",
        "--", "-", "+", "00.00", "9999999999999999999999999", "1e400", "-0", "12a", "a12", "1e5.0",
    ];
    for value in samples {
        let text = format!("--x {value}");
        let params = EncoderParamsParser::parse_string(&text).unwrap();
        let p = params.get("x").unwrap();
        let is_number = matches!(p, CLIParameter::Number { .. });
        assert_eq!(is_number, value.parse::<f64>().is_ok(), "value {value:?}");
    }
}
