use wisper::prompt::build_system_prompt;

#[test]
fn prompt_without_format_is_general() {
    let p = build_system_prompt("rephrase", None);
    assert!(p.contains("Infer the context"));
    assert!(!p.contains("FORMAT RULES FOR"));
    assert!(p.ends_with("- Return ONLY the rewritten text. No explanations, no labels, no meta-commentary."));
}

#[test]
fn other_actions_get_the_short_prompt() {
    let short = "Rewrite the following text clearly and concisely. Use proper formatting with line breaks. Return ONLY the result.";
    for action in ["summarize", "Rephrase", "", "rephrase "] {
        assert_eq!(build_system_prompt(action, None), short);
        assert_eq!(build_system_prompt(action, Some("email")), short);
    }
}

#[test]
fn prompt_with_format_names_its_rules() {
    let p = build_system_prompt("rephrase", Some("email"));
    assert!(p.contains("FORMAT RULES FOR EMAIL:\n"));
    assert!(!p.contains("Infer the context"));
}
