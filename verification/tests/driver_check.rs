use envsetup::driver::{driver_outcome, verify_driver, visa_match};

#[test]
fn driver_found_with_64_bit_library() {
    assert!(verify_driver("", "Found visa64.dll in system path\n"));
}

#[test]
fn driver_found_with_32_bit_library() {
    assert!(verify_driver("", "visa32.dll"));
}

#[test]
fn any_separator_character_is_accepted() {
    // the pattern's wildcard between the width and `dll` matches any
    // character but a line feed
    assert!(visa_match("visa64_dll"));
    assert!(visa_match("visa32xdll"));
    assert!(!visa_match("visa64\ndll"));
}

#[test]
fn driver_fails_on_error_text() {
    assert!(!verify_driver("Traceback (most recent call last):", "visa64.dll"));
}

#[test]
fn driver_fails_without_pattern_match() {
    assert!(!verify_driver("", "no driver library found"));
    assert!(!verify_driver("", "visa99.dll"));
    assert!(!verify_driver("", "visa64dll"));
    assert!(!verify_driver("", ""));
}

#[test]
fn driver_outcome_reports_the_fixed_error() {
    assert!(driver_outcome("", "visa64.dll").is_ok());
    assert_eq!(driver_outcome("boom", "visa64.dll"), Err("NI-VISA is not found".to_string()));
    assert_eq!(driver_outcome("", "nothing"), Err("NI-VISA is not found".to_string()));
}

#[test]
fn visa_matcher_agrees_with_driver_pattern() {
    let pattern = regex::Regex::new(r"visa(32|64).dll").expect("pattern");
    let samples = [
        "visa64.dll",
        "visa32.dll",
        "prefix visa64.dll suffix",
        "visa64_dll",
        "visa64\ndll",
        "visa6.dll",
        "visa3264.dll",
        "VISA64.DLL",
        "visa64.dl",
        "avisa32.dllb",
        "visa64.dllvisa32.dll",
        "",
        "visa",
        "visa64.\u{3000}dll",
        "visa32\u{a0}dll",
    ];
    for text in samples {
        assert_eq!(visa_match(text), pattern.is_match(text), "match of {text:?}");
    }
}
