use envsetup::inspect::{inspect_listing, line_capture, line_matches};
use envsetup::stages::provision_prompt;
use envsetup::text::split_lines;

#[test]
fn listing_with_environment_is_found() {
    let listing = "# conda environments:\n#\nbase                  /opt/conda\nthz   /opt/conda/envs/thz\n";
    let status = inspect_listing(listing);
    assert!(status.exists);
    assert_eq!(status.path.as_deref(), Some("/opt/conda/envs/thz"));
    // the follow-up prompt then asks "again"
    assert_eq!(provision_prompt(status.exists), "Do you create environment again? (y/N):");
}

#[test]
fn listing_without_environment_is_missing() {
    let listing = "# conda environments:\n#\nbase                  /opt/conda\nother   /opt/conda/envs/other\n";
    let status = inspect_listing(listing);
    assert!(!status.exists);
    assert!(status.path.is_none());
    assert_eq!(provision_prompt(status.exists), "Do you create environment? (y/N):");
}

#[test]
fn first_matching_line_wins() {
    let listing = "thz   /first/path\nthz   /second/path\n";
    let status = inspect_listing(listing);
    assert!(status.exists);
    assert_eq!(status.path.as_deref(), Some("/first/path"));
}

#[test]
fn inspector_is_idempotent_on_identical_text() {
    let listing = "base  /opt/conda\nthz\t/opt/conda/envs/thz";
    let first = inspect_listing(listing);
    let second = inspect_listing(listing);
    assert_eq!(first.exists, second.exists);
    assert_eq!(first.path, second.path);

    let missing = "nothing here";
    let third = inspect_listing(missing);
    let fourth = inspect_listing(missing);
    assert_eq!(third.exists, fourth.exists);
    assert_eq!(third.path, fourth.path);
}

#[test]
fn empty_listing_is_missing() {
    let status = inspect_listing("");
    assert!(!status.exists);
    assert!(status.path.is_none());
}

#[test]
fn name_must_start_the_line() {
    let status = inspect_listing("  thz   /opt/conda/envs/thz\n");
    assert!(!status.exists);
    assert!(status.path.is_none());
}

#[test]
fn name_must_be_followed_by_whitespace() {
    assert!(!line_matches("thz"));
    assert!(!line_matches("thzx   /path"));
    assert!(!line_matches("thz "));
    assert!(line_matches("thz  "));
    assert!(line_matches("thz\t/path"));
}

#[test]
fn capture_backtracks_into_trailing_whitespace() {
    // with nothing but whitespace after the name, the pattern gives one
    // whitespace character back and captures it
    assert_eq!(line_capture("thz  ").as_deref(), Some(" "));
    assert_eq!(line_capture("thz \t ").as_deref(), Some(" "));
    assert_eq!(line_capture("thz "), None);
    assert_eq!(line_capture("thz   /opt/x").as_deref(), Some("/opt/x"));
}

#[test]
fn carriage_returns_are_stripped_before_matching() {
    let status = inspect_listing("base  /opt/conda\r\nthz   /opt/conda/envs/thz\r\n");
    assert!(status.exists);
    assert_eq!(status.path.as_deref(), Some("/opt/conda/envs/thz"));
}

#[test]
fn line_matcher_agrees_with_listing_pattern() {
    let pattern = regex::Regex::new(r"^thz\s+(.+)").expect("pattern");
    let samples = [
        "thz   /opt/conda/envs/thz",
        "thz\t/path with spaces",
        "thz",
        "thz ",
        "thz  ",
        "thz \t ",
        "thzx /path",
        "thz/path",
        " thz   /path",
        "base   /opt/conda",
        "",
        "thz\u{a0}/nbsp/separated",
        "thz\u{3000}wide",
        "thz  x",
        "thz  \u{2028}",
        "tthz  /x",
        "thz\r /x",
    ];
    for line in samples {
        let expected = pattern.captures(line).map(|c| c[1].to_string());
        assert_eq!(line_matches(line), expected.is_some(), "match of {line:?}");
        assert_eq!(line_capture(line), expected, "capture of {line:?}");
    }
}

#[test]
fn split_lines_agrees_with_std_lines() {
    let samples = [
        "",
        "\n",
        "a",
        "a\n",
        "a\nb",
        "a\r\nb\r\n",
        "a\r",
        "a\r\r\n",
        "\r\n",
        "one\n\nthree\n",
        "mixed\r\nendings\nhere\r",
    ];
    for text in samples {
        let ours = split_lines(text);
        let std_lines: Vec<String> = text.lines().map(|l| l.to_string()).collect();
        assert_eq!(ours, std_lines, "lines of {text:?}");
    }
}
