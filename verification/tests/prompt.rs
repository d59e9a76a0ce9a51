use wisper::prompt::{build_system_prompt, format_guidelines, style_of, FormatStyle};

#[test]
fn format_guidelines_by_name() {
    assert_eq!(format_guidelines("email"), "- Line 1: Greeting (e.g. \"Hi Ryan,\")\n- Line 2: BLANK LINE\n- Lines 3+: Body paragraphs, each separated by a blank line\n- Then: BLANK LINE\n- Then: Sign-off (e.g. \"Best regards,\")\n- Then: Your name on its own line\n- Use professional, clear language — rewrite awkward phrasing\n- Do NOT include a subject line\n- If no name is mentioned, use \"Hi,\" or \"Hello,\"");
    assert_eq!(format_guidelines("formal email"), "- Line 1: Greeting (e.g. \"Hi Ryan,\")\n- Line 2: BLANK LINE\n- Lines 3+: Body paragraphs, each separated by a blank line\n- Then: BLANK LINE\n- Then: Sign-off (e.g. \"Best regards,\")\n- Then: Your name on its own line\n- Use professional, clear language — rewrite awkward phrasing\n- Do NOT include a subject line\n- If no name is mentioned, use \"Hi,\" or \"Hello,\"");
    assert_eq!(format_guidelines("professional email"), "- Line 1: Greeting (e.g. \"Hi Ryan,\")\n- Line 2: BLANK LINE\n- Lines 3+: Body paragraphs, each separated by a blank line\n- Then: BLANK LINE\n- Then: Sign-off (e.g. \"Best regards,\")\n- Then: Your name on its own line\n- Use professional, clear language — rewrite awkward phrasing\n- Do NOT include a subject line\n- If no name is mentioned, use \"Hi,\" or \"Hello,\"");
    assert_eq!(format_guidelines("casual message"), "- Keep it short — 1-3 sentences max\n- Conversational and friendly tone\n- No formal greeting/sign-off\n- Rewrite to sound natural, not robotic");
    assert_eq!(format_guidelines("message"), "- Keep it short — 1-3 sentences max\n- Conversational and friendly tone\n- No formal greeting/sign-off\n- Rewrite to sound natural, not robotic");
    assert_eq!(format_guidelines("text message"), "- Keep it short — 1-3 sentences max\n- Conversational and friendly tone\n- No formal greeting/sign-off\n- Rewrite to sound natural, not robotic");
    assert_eq!(format_guidelines("slack message"), "- Keep it concise and direct — one short paragraph\n- Semi-casual workplace tone\n- Lead with the key point\n- No greeting/sign-off needed\n- Rewrite to be clear and scannable");
    assert_eq!(format_guidelines("teams message"), "- Keep it concise and direct — one short paragraph\n- Semi-casual workplace tone\n- Lead with the key point\n- No greeting/sign-off needed\n- Rewrite to be clear and scannable");
    assert_eq!(format_guidelines("chat message"), "- Keep it concise and direct — one short paragraph\n- Semi-casual workplace tone\n- Lead with the key point\n- No greeting/sign-off needed\n- Rewrite to be clear and scannable");
    assert_eq!(format_guidelines("professional"), "- Use professional, polished language\n- Separate paragraphs with blank lines\n- Be clear, direct, and well-organized\n- Actually rewrite — don't just fix typos");
    assert_eq!(format_guidelines("formal"), "- Use professional, polished language\n- Separate paragraphs with blank lines\n- Be clear, direct, and well-organized\n- Actually rewrite — don't just fix typos");
    assert_eq!(format_guidelines("casual"), "- Warm, conversational tone\n- Natural and approachable\n- Contractions and informal phrasing OK");
    assert_eq!(format_guidelines("friendly"), "- Warm, conversational tone\n- Natural and approachable\n- Contractions and informal phrasing OK");
    assert_eq!(format_guidelines("bullet points"), "- Convert into clear bullet points, one per line\n- Use '- ' prefix for each bullet\n- Each bullet = one concise, complete thought\n- Group related points together\n- Use a blank line between groups if needed");
    assert_eq!(format_guidelines("bullets"), "- Convert into clear bullet points, one per line\n- Use '- ' prefix for each bullet\n- Each bullet = one concise, complete thought\n- Group related points together\n- Use a blank line between groups if needed");
    assert_eq!(format_guidelines("summary"), "- Condense into 1-3 well-written sentences\n- Lead with the most important information\n- Cut filler and repetition");
    assert_eq!(format_guidelines("code comment"), "- Concise and technical\n- Explain the 'why', not the 'what'\n- 1-2 lines max");
    assert_eq!(format_guidelines("comment"), "- Concise and technical\n- Explain the 'why', not the 'what'\n- 1-2 lines max");
    assert_eq!(format_guidelines("haiku"), "- Apply proper formatting with line breaks between sections\n- Use the appropriate tone and structure\n- Actually rewrite — don't just clean up");
    assert_eq!(format_guidelines("Email"), "- Apply proper formatting with line breaks between sections\n- Use the appropriate tone and structure\n- Actually rewrite — don't just clean up");
}

#[test]
fn styles_by_name() {
    assert_eq!(style_of("email"), FormatStyle::Email);
    assert_eq!(style_of("formal email"), FormatStyle::Email);
    assert_eq!(style_of("professional email"), FormatStyle::Email);
    assert_eq!(style_of("casual message"), FormatStyle::Message);
    assert_eq!(style_of("message"), FormatStyle::Message);
    assert_eq!(style_of("text message"), FormatStyle::Message);
    assert_eq!(style_of("slack message"), FormatStyle::Chat);
    assert_eq!(style_of("teams message"), FormatStyle::Chat);
    assert_eq!(style_of("chat message"), FormatStyle::Chat);
    assert_eq!(style_of("professional"), FormatStyle::Professional);
    assert_eq!(style_of("formal"), FormatStyle::Professional);
    assert_eq!(style_of("casual"), FormatStyle::Casual);
    assert_eq!(style_of("friendly"), FormatStyle::Casual);
    assert_eq!(style_of("bullet points"), FormatStyle::Bullets);
    assert_eq!(style_of("bullets"), FormatStyle::Bullets);
    assert_eq!(style_of("summary"), FormatStyle::Summary);
    assert_eq!(style_of("code comment"), FormatStyle::CodeComment);
    assert_eq!(style_of("comment"), FormatStyle::CodeComment);
    assert_eq!(style_of(""), FormatStyle::General);
}

#[test]
fn prompt_for_email() {
    assert_eq!(build_system_prompt("rephrase", Some("email")), "You are a writing assistant that rewrites speech-to-text transcriptions.\n\nTASK: Rewrite the user's transcribed text as a properly formatted email.\n\nCRITICAL RULES:\n- Actually REWRITE the text — don't just clean it up. Improve word choice, sentence structure, and flow.\n- Use REAL LINE BREAKS (newline characters) to separate paragraphs, greeting, body, and sign-off.\n- Apply the full structure and layout expected for a email.\n- Fix grammar issues from speech-to-text.\n- Preserve the original meaning and intent.\n- Return ONLY the formatted result. No explanations, no labels, no \"Here's the email:\" prefix.\n\nFORMAT RULES FOR EMAIL:\n- Line 1: Greeting (e.g. \"Hi Ryan,\")\n- Line 2: BLANK LINE\n- Lines 3+: Body paragraphs, each separated by a blank line\n- Then: BLANK LINE\n- Then: Sign-off (e.g. \"Best regards,\")\n- Then: Your name on its own line\n- Use professional, clear language — rewrite awkward phrasing\n- Do NOT include a subject line\n- If no name is mentioned, use \"Hi,\" or \"Hello,\"");
}

#[test]
fn prompt_for_bullet_points() {
    assert_eq!(build_system_prompt("rephrase", Some("bullet points")), "You are a writing assistant that rewrites speech-to-text transcriptions.\n\nTASK: Rewrite the user's transcribed text as a properly formatted bullet points.\n\nCRITICAL RULES:\n- Actually REWRITE the text — don't just clean it up. Improve word choice, sentence structure, and flow.\n- Use REAL LINE BREAKS (newline characters) to separate paragraphs, greeting, body, and sign-off.\n- Apply the full structure and layout expected for a bullet points.\n- Fix grammar issues from speech-to-text.\n- Preserve the original meaning and intent.\n- Return ONLY the formatted result. No explanations, no labels, no \"Here's the email:\" prefix.\n\nFORMAT RULES FOR BULLET POINTS:\n- Convert into clear bullet points, one per line\n- Use '- ' prefix for each bullet\n- Each bullet = one concise, complete thought\n- Group related points together\n- Use a blank line between groups if needed");
}

#[test]
fn prompt_for_unknown_format_uses_unicode_uppercase() {
    assert_eq!(build_system_prompt("rephrase", Some("straße notes")), "You are a writing assistant that rewrites speech-to-text transcriptions.\n\nTASK: Rewrite the user's transcribed text as a properly formatted straße notes.\n\nCRITICAL RULES:\n- Actually REWRITE the text — don't just clean it up. Improve word choice, sentence structure, and flow.\n- Use REAL LINE BREAKS (newline characters) to separate paragraphs, greeting, body, and sign-off.\n- Apply the full structure and layout expected for a straße notes.\n- Fix grammar issues from speech-to-text.\n- Preserve the original meaning and intent.\n- Return ONLY the formatted result. No explanations, no labels, no \"Here's the email:\" prefix.\n\nFORMAT RULES FOR STRASSE NOTES:\n- Apply proper formatting with line breaks between sections\n- Use the appropriate tone and structure\n- Actually rewrite — don't just clean up");
}

#[test]
fn prompt_without_format() {
    assert_eq!(build_system_prompt("rephrase", None), "You are a writing assistant that rewrites speech-to-text transcriptions.\n\nTASK: Rewrite the user's transcribed text to be clear, professional, and well-written.\n\nCRITICAL RULES:\n- Actually REWRITE the text — don't just clean it up. Improve word choice, sentence structure, and flow.\n- Infer the context (email, chat, note, etc.) and apply appropriate formatting.\n- Use REAL LINE BREAKS (newline characters) to separate paragraphs where appropriate.\n- Fix grammar issues from speech-to-text.\n- Preserve the original meaning.\n- Return ONLY the rewritten text. No explanations, no labels, no meta-commentary.");
}

#[test]
fn prompt_for_other_action() {
    assert_eq!(build_system_prompt("summarize", None), "Rewrite the following text clearly and concisely. Use proper formatting with line breaks. Return ONLY the result.");
    assert_eq!(build_system_prompt("summarize", Some("email")), "Rewrite the following text clearly and concisely. Use proper formatting with line breaks. Return ONLY the result.");
    assert_eq!(build_system_prompt("Rephrase", None), "Rewrite the following text clearly and concisely. Use proper formatting with line breaks. Return ONLY the result.");
}
