use wisper::keywords::detect_keyword;

#[test]
fn detects_rephrase_at_end() {
    let m = detect_keyword("I want to follow up on our meeting. Rephrase").unwrap();
    assert_eq!(m.action, "rephrase");
    assert_eq!(m.clean_text, "I want to follow up on our meeting.");
}

#[test]
fn detects_rephrase_it_at_end() {
    let m = detect_keyword("Hello world, rephrase it").unwrap();
    assert_eq!(m.action, "rephrase");
    assert_eq!(m.clean_text, "Hello world");
}

#[test]
fn detects_rewrite_at_end() {
    let m = detect_keyword("Fix the bug in the login flow. Rewrite").unwrap();
    assert_eq!(m.action, "rephrase");
    assert_eq!(m.clean_text, "Fix the bug in the login flow.");
}

#[test]
fn detects_rewrite_it_at_end() {
    let m = detect_keyword("Send the report to the team, rewrite it").unwrap();
    assert_eq!(m.action, "rephrase");
    assert_eq!(m.clean_text, "Send the report to the team");
}

#[test]
fn case_insensitive() {
    let m = detect_keyword("Some text REPHRASE IT").unwrap();
    assert_eq!(m.action, "rephrase");
    assert_eq!(m.clean_text, "Some text");
}

#[test]
fn strips_trailing_punctuation() {
    let m = detect_keyword("Some text. Rephrase it.").unwrap();
    assert_eq!(m.action, "rephrase");
    assert_eq!(m.clean_text, "Some text.");
}

#[test]
fn no_match_without_keyword() {
    assert!(detect_keyword("Hello world").is_none());
}

#[test]
fn no_match_keyword_only() {
    assert!(detect_keyword("rephrase").is_none());
    assert!(detect_keyword("Rephrase it").is_none());
    assert!(detect_keyword("rewrite").is_none());
}

#[test]
fn no_match_empty() {
    assert!(detect_keyword("").is_none());
    assert!(detect_keyword("   ").is_none());
}

#[test]
fn prefers_longest_match() {
    // "rephrase it" should match, not just "rephrase" leaving "it" in clean_text
    let m = detect_keyword("My text rephrase it").unwrap();
    assert_eq!(m.clean_text, "My text");
}

#[test]
fn keyword_inside_text_is_not_a_trigger() {
    assert!(detect_keyword("rephrase this for me please").is_none());
}

#[test]
fn surrounding_white_space_and_commas_are_dropped() {
    let m = detect_keyword("  \tNote to self,,, rewrite!!  \n").unwrap();
    assert_eq!(m.clean_text, "Note to self");
}

#[test]
fn punctuation_only_before_keyword_is_no_match() {
    assert!(detect_keyword(", rephrase it?").is_none());
}

#[test]
fn non_ascii_text_before_keyword_is_kept() {
    let m = detect_keyword("Grüße an Zoë — rewrite it").unwrap();
    assert_eq!(m.clean_text, "Grüße an Zoë —");
}

#[test]
fn clean_text_is_a_piece_of_the_input() {
    let inputs = [
        "Hello world, rephrase it",
        "  a, rewrite",
        "x rephrase",
        "Über alles REWRITE IT...",
    ];
    for input in inputs {
        let m = detect_keyword(input).unwrap();
        assert!(input.contains(m.clean_text.as_str()));
        assert!(!m.clean_text.is_empty());
        assert_eq!(m.clean_text.trim(), m.clean_text);
    }
}

#[test]
fn match_trigger_cuts_by_phrase() {
    let m = wisper::keywords::match_trigger("Ship it, Rewrite", "ship it, rewrite").unwrap();
    assert_eq!(m.clean_text, "Ship it");
    assert!(wisper::keywords::match_trigger("Ship it", "ship it").is_none());
    assert!(wisper::keywords::check_trigger_fits("Ship it, Rewrite", "ship it, rewrite"));
}

#[test]
fn plain_phrases_name_no_format() {
    for input in ["Hello world, rephrase it", "x rewrite", "Ship it. REPHRASE"] {
        assert_eq!(detect_keyword(input).unwrap().format, None);
    }
}

#[test]
fn rephrase_as_email() {
    let m = detect_keyword("Hi Ryan, see you tomorrow at ten. Rephrase as email").unwrap();
    assert_eq!(m.action, "rephrase");
    assert_eq!(m.clean_text, "Hi Ryan, see you tomorrow at ten.");
    assert_eq!(m.format.as_deref(), Some("email"));
}

#[test]
fn format_phrases_from_the_readme() {
    let cases = [
        ("Lunch at noon, then the demo. Rephrase as bullet points", "Lunch at noon, then the demo.", "bullet points"),
        ("the deploy is done rewrite as slack message.", "the deploy is done", "slack message"),
        ("We shipped the fix today, format as professional", "We shipped the fix today", "professional"),
        ("Long meeting notes here. Rephrase as Summary!", "Long meeting notes here.", "summary"),
        ("retry because the socket drops FORMAT AS CODE COMMENT", "retry because the socket drops", "code comment"),
        ("thanks for the help rewrite as formal email", "thanks for the help", "formal email"),
        ("see you soon, rephrase as text message", "see you soon", "text message"),
    ];
    for (input, clean, format) in cases {
        let m = detect_keyword(input).unwrap();
        assert_eq!(m.action, "rephrase");
        assert_eq!(m.clean_text, clean);
        assert_eq!(m.format.as_deref(), Some(format));
    }
}

#[test]
fn unknown_format_is_no_match() {
    assert!(detect_keyword("Some notes, rephrase as haiku").is_none());
    assert!(detect_keyword("Rephrase as email").is_none());
}

#[test]
fn white_space_around_the_text_changes_nothing() {
    for s in ["Hello world, rephrase it", "Notes. Rephrase as bullets", "no trigger here", "rewrite"] {
        let padded = format!(" \t\n{}\u{3000} \r\n", s);
        let a = detect_keyword(s);
        let b = detect_keyword(&padded);
        assert_eq!(a.is_some(), b.is_some());
        if let (Some(a), Some(b)) = (a, b) {
            assert_eq!(a.clean_text, b.clean_text);
            assert_eq!(a.format, b.format);
        }
    }
}

#[test]
fn trailing_punctuation_changes_nothing() {
    for s in ["Hello world, rephrase it", "Notes. Rephrase as bullets", "no trigger here", "x rewrite"] {
        for q in ["", ".", "?!", "...", ")"] {
            let punctuated = format!("{}{}", s, q);
            let a = detect_keyword(s);
            let b = detect_keyword(&punctuated);
            assert_eq!(a.is_some(), b.is_some());
            if let (Some(a), Some(b)) = (a, b) {
                assert_eq!(a.clean_text, b.clean_text);
                assert_eq!(a.format, b.format);
            }
        }
    }
}

#[test]
fn punctuation_after_trailing_white_space_can_change_the_result() {
    assert!(detect_keyword("x rephrase. ").is_some());
    assert!(detect_keyword("x rephrase. !").is_none());
}

#[test]
fn match_trigger_reports_format() {
    let m = wisper::keywords::match_trigger("Notes, Format as Bullets", "notes, format as bullets").unwrap();
    assert_eq!(m.clean_text, "Notes");
    assert_eq!(m.format.as_deref(), Some("bullets"));
}
