use condor::help_text::short_help;

#[test]
fn short_help_is_first_line() {
    assert_eq!(short_help("Path to the configuration file.\n\nDefaults to `./condor.json`.\n"), "Path to the configuration file.");
    assert_eq!(short_help("single line"), "single line");
    assert_eq!(short_help(""), "");
    assert_eq!(short_help("\nrest"), "");
    assert_eq!(short_help("ünïcödé first\nsecond"), "ünïcödé first");
}
