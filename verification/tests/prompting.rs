use envsetup::prompt::{classify_answer, resolve_prompt, Answer};

#[test]
fn accepted_tokens_settle_the_prompt() {
    assert_eq!(classify_answer("y"), Answer::Confirmed);
    assert_eq!(classify_answer("n"), Answer::Declined);
    assert_eq!(classify_answer("N"), Answer::Declined);
}

#[test]
fn upper_case_y_is_not_accepted() {
    // the prompt's deliberate asymmetry: y, n and N settle it, Y does not
    assert_eq!(classify_answer("Y"), Answer::Reprompt);
}

#[test]
fn replies_are_trimmed_before_matching() {
    assert_eq!(classify_answer("y\n"), Answer::Confirmed);
    assert_eq!(classify_answer("  y  "), Answer::Confirmed);
    assert_eq!(classify_answer("\tN\r\n"), Answer::Declined);
    assert_eq!(classify_answer("\u{a0}n\u{3000}"), Answer::Declined);
}

#[test]
fn other_replies_reprompt() {
    assert_eq!(classify_answer(""), Answer::Reprompt);
    assert_eq!(classify_answer("   "), Answer::Reprompt);
    assert_eq!(classify_answer("yes"), Answer::Reprompt);
    assert_eq!(classify_answer("no"), Answer::Reprompt);
    assert_eq!(classify_answer("yy"), Answer::Reprompt);
    assert_eq!(classify_answer("n n"), Answer::Reprompt);
    assert_eq!(classify_answer("q"), Answer::Reprompt);
}

#[test]
fn prompt_settles_on_first_decisive_reply() {
    let inputs: Vec<String> =
        ["maybe", "", "Y", "n", "y"].iter().map(|s| s.to_string()).collect();
    assert_eq!(resolve_prompt(&inputs), Some((3, Answer::Declined)));

    let confirms: Vec<String> = ["y", "n"].iter().map(|s| s.to_string()).collect();
    assert_eq!(resolve_prompt(&confirms), Some((0, Answer::Confirmed)));
}

#[test]
fn prompt_never_settles_without_a_decisive_reply() {
    let inputs: Vec<String> = ["", "Y", "yes", "nope"].iter().map(|s| s.to_string()).collect();
    assert_eq!(resolve_prompt(&inputs), None);
}

#[test]
fn classification_agrees_with_std_trim() {
    let samples = [
        "y", " y", "y ", "\ty\n", "n", "N", "Y", "", "  ", "yes", "Nn", " N ",
        "\u{2028}y\u{2029}", "\ry\r",
    ];
    for s in samples {
        let expected = match s.trim() {
            "y" => Answer::Confirmed,
            "n" | "N" => Answer::Declined,
            _ => Answer::Reprompt,
        };
        assert_eq!(classify_answer(s), expected, "classification of {s:?}");
    }
}
