//! The system prompts that ask a chat model to rewrite a transcription.
use vstd::prelude::*;
use vstd::string::*;

use crate::text::{chars_of, uppercase, to_uppercase};

verus! {

/// The kinds of text that a rewrite can be asked for, each with its own format rules.
#[derive(Clone, Copy, PartialEq, Eq, Debug)]
pub enum FormatStyle {
    /// A formal or professional email.
    Email,
    /// A short casual message.
    Message,
    /// A workplace chat message.
    Chat,
    /// Professional prose.
    Professional,
    /// Casual, friendly prose.
    Casual,
    /// A list of bullet points.
    Bullets,
    /// A summary.
    Summary,
    /// A code comment.
    CodeComment,
    /// Any other format.
    General,
}

/// The style that a format name asks for; names are matched exactly.
pub open spec fn format_style(fmt: Seq<char>) -> FormatStyle {
    if fmt == "email"@ || fmt == "formal email"@ || fmt == "professional email"@ {
        FormatStyle::Email
    } else if fmt == "casual message"@ || fmt == "message"@ || fmt == "text message"@ {
        FormatStyle::Message
    } else if fmt == "slack message"@ || fmt == "teams message"@ || fmt == "chat message"@ {
        FormatStyle::Chat
    } else if fmt == "professional"@ || fmt == "formal"@ {
        FormatStyle::Professional
    } else if fmt == "casual"@ || fmt == "friendly"@ {
        FormatStyle::Casual
    } else if fmt == "bullet points"@ || fmt == "bullets"@ {
        FormatStyle::Bullets
    } else if fmt == "summary"@ {
        FormatStyle::Summary
    } else if fmt == "code comment"@ || fmt == "comment"@ {
        FormatStyle::CodeComment
    } else {
        FormatStyle::General
    }
}

/// The format rules of each style.
pub open spec fn guidelines_text(style: FormatStyle) -> Seq<char> {
    match style {
        FormatStyle::Email => "- Line 1: Greeting (e.g. \"Hi Ryan,\")\n- Line 2: BLANK LINE\n- Lines 3+: Body paragraphs, each separated by a blank line\n- Then: BLANK LINE\n- Then: Sign-off (e.g. \"Best regards,\")\n- Then: Your name on its own line\n- Use professional, clear language — rewrite awkward phrasing\n- Do NOT include a subject line\n- If no name is mentioned, use \"Hi,\" or \"Hello,\""@,
        FormatStyle::Message => "- Keep it short — 1-3 sentences max\n- Conversational and friendly tone\n- No formal greeting/sign-off\n- Rewrite to sound natural, not robotic"@,
        FormatStyle::Chat => "- Keep it concise and direct — one short paragraph\n- Semi-casual workplace tone\n- Lead with the key point\n- No greeting/sign-off needed\n- Rewrite to be clear and scannable"@,
        FormatStyle::Professional => "- Use professional, polished language\n- Separate paragraphs with blank lines\n- Be clear, direct, and well-organized\n- Actually rewrite — don't just fix typos"@,
        FormatStyle::Casual => "- Warm, conversational tone\n- Natural and approachable\n- Contractions and informal phrasing OK"@,
        FormatStyle::Bullets => "- Convert into clear bullet points, one per line\n- Use '- ' prefix for each bullet\n- Each bullet = one concise, complete thought\n- Group related points together\n- Use a blank line between groups if needed"@,
        FormatStyle::Summary => "- Condense into 1-3 well-written sentences\n- Lead with the most important information\n- Cut filler and repetition"@,
        FormatStyle::CodeComment => "- Concise and technical\n- Explain the 'why', not the 'what'\n- 1-2 lines max"@,
        FormatStyle::General => "- Apply proper formatting with line breaks between sections\n- Use the appropriate tone and structure\n- Actually rewrite — don't just clean up"@,
    }
}

fn guidelines_str(style: FormatStyle) -> (r: &'static str)
    ensures
        r@ == guidelines_text(style),
{
    match style {
        FormatStyle::Email => "- Line 1: Greeting (e.g. \"Hi Ryan,\")\n- Line 2: BLANK LINE\n- Lines 3+: Body paragraphs, each separated by a blank line\n- Then: BLANK LINE\n- Then: Sign-off (e.g. \"Best regards,\")\n- Then: Your name on its own line\n- Use professional, clear language — rewrite awkward phrasing\n- Do NOT include a subject line\n- If no name is mentioned, use \"Hi,\" or \"Hello,\"",
        FormatStyle::Message => "- Keep it short — 1-3 sentences max\n- Conversational and friendly tone\n- No formal greeting/sign-off\n- Rewrite to sound natural, not robotic",
        FormatStyle::Chat => "- Keep it concise and direct — one short paragraph\n- Semi-casual workplace tone\n- Lead with the key point\n- No greeting/sign-off needed\n- Rewrite to be clear and scannable",
        FormatStyle::Professional => "- Use professional, polished language\n- Separate paragraphs with blank lines\n- Be clear, direct, and well-organized\n- Actually rewrite — don't just fix typos",
        FormatStyle::Casual => "- Warm, conversational tone\n- Natural and approachable\n- Contractions and informal phrasing OK",
        FormatStyle::Bullets => "- Convert into clear bullet points, one per line\n- Use '- ' prefix for each bullet\n- Each bullet = one concise, complete thought\n- Group related points together\n- Use a blank line between groups if needed",
        FormatStyle::Summary => "- Condense into 1-3 well-written sentences\n- Lead with the most important information\n- Cut filler and repetition",
        FormatStyle::CodeComment => "- Concise and technical\n- Explain the 'why', not the 'what'\n- 1-2 lines max",
        FormatStyle::General => "- Apply proper formatting with line breaks between sections\n- Use the appropriate tone and structure\n- Actually rewrite — don't just clean up",
    }
}

/// Whether `v` holds the characters of `s`.
fn chars_equal_str(v: &Vec<char>, s: &str) -> (b: bool)
    ensures
        b == (v@ == s@),
{
    let w = chars_of(s);
    if v.len() != w.len() {
        return false;
    }
    let mut i: usize = 0;
    while i < v.len()
        invariant
            w@ == s@,
            v@.len() == w@.len(),
            i <= v@.len(),
            forall|j: int| 0 <= j < i ==> v@[j] == w@[j],
        decreases v@.len() - i,
    {
        if v[i] != w[i] {
            return false;
        }
        i = i + 1;
    }
    assert(v@ =~= w@);
    true
}

/// The style that the format name `fmt` asks for.
pub fn style_of(fmt: &str) -> (s: FormatStyle)
    ensures
        s == format_style(fmt@),
{
    let v = chars_of(fmt);
    if chars_equal_str(&v, "email") || chars_equal_str(&v, "formal email") || chars_equal_str(&v, "professional email") {
        return FormatStyle::Email;
    }
    if chars_equal_str(&v, "casual message") || chars_equal_str(&v, "message") || chars_equal_str(&v, "text message") {
        return FormatStyle::Message;
    }
    if chars_equal_str(&v, "slack message") || chars_equal_str(&v, "teams message") || chars_equal_str(&v, "chat message") {
        return FormatStyle::Chat;
    }
    if chars_equal_str(&v, "professional") || chars_equal_str(&v, "formal") {
        return FormatStyle::Professional;
    }
    if chars_equal_str(&v, "casual") || chars_equal_str(&v, "friendly") {
        return FormatStyle::Casual;
    }
    if chars_equal_str(&v, "bullet points") || chars_equal_str(&v, "bullets") {
        return FormatStyle::Bullets;
    }
    if chars_equal_str(&v, "summary") {
        return FormatStyle::Summary;
    }
    if chars_equal_str(&v, "code comment") || chars_equal_str(&v, "comment") {
        return FormatStyle::CodeComment;
    }
    FormatStyle::General
}

/// The format rules for the format name `fmt`.
pub fn format_guidelines(fmt: &str) -> (r: &'static str)
    ensures
        r@ == guidelines_text(format_style(fmt@)),
{
    guidelines_str(style_of(fmt))
}

/// The prompt for a rewrite into the format `fmt`, whose uppercase form is
/// `fmt_upper`, under the format rules `guidelines`.
pub open spec fn format_prompt_text(fmt: Seq<char>, fmt_upper: Seq<char>, guidelines: Seq<char>) -> Seq<char> {
    "You are a writing assistant that rewrites speech-to-text transcriptions.\n\nTASK: Rewrite the user's transcribed text as a properly formatted "@ + fmt
        + ".\n\nCRITICAL RULES:\n- Actually REWRITE the text — don't just clean it up. Improve word choice, sentence structure, and flow.\n- Use REAL LINE BREAKS (newline characters) to separate paragraphs, greeting, body, and sign-off.\n- Apply the full structure and layout expected for a "@ + fmt
        + ".\n- Fix grammar issues from speech-to-text.\n- Preserve the original meaning and intent.\n- Return ONLY the formatted result. No explanations, no labels, no \"Here's the email:\" prefix.\n\nFORMAT RULES FOR "@
        + fmt_upper + ":\n"@ + guidelines
}

/// The prompt for a rewrite where no format is named.
pub open spec fn general_rephrase_prompt() -> Seq<char> {
    "You are a writing assistant that rewrites speech-to-text transcriptions.\n\nTASK: Rewrite the user's transcribed text to be clear, professional, and well-written.\n\nCRITICAL RULES:\n- Actually REWRITE the text — don't just clean it up. Improve word choice, sentence structure, and flow.\n- Infer the context (email, chat, note, etc.) and apply appropriate formatting.\n- Use REAL LINE BREAKS (newline characters) to separate paragraphs where appropriate.\n- Fix grammar issues from speech-to-text.\n- Preserve the original meaning.\n- Return ONLY the rewritten text. No explanations, no labels, no meta-commentary."@
}

/// The prompt for any action other than "rephrase".
pub open spec fn fallback_prompt() -> Seq<char> {
    "Rewrite the following text clearly and concisely. Use proper formatting with line breaks. Return ONLY the result."@
}

/// The system prompt for `action`, with the format named, if any.
pub open spec fn system_prompt(action: Seq<char>, format: Option<Seq<char>>) -> Seq<char> {
    if action == "rephrase"@ {
        match format {
            Some(f) => format_prompt_text(f, uppercase(f), guidelines_text(format_style(f))),
            None => general_rephrase_prompt(),
        }
    } else {
        fallback_prompt()
    }
}

/// The prompt for a rewrite into the format `fmt`, given its uppercase form.
pub fn format_prompt(fmt: &str, fmt_upper: &str) -> (r: String)
    ensures
        r@ == format_prompt_text(fmt@, fmt_upper@, guidelines_text(format_style(fmt@))),
{
    let mut s = String::from_str("You are a writing assistant that rewrites speech-to-text transcriptions.\n\nTASK: Rewrite the user's transcribed text as a properly formatted ");
    s.append(fmt);
    s.append(".\n\nCRITICAL RULES:\n- Actually REWRITE the text — don't just clean it up. Improve word choice, sentence structure, and flow.\n- Use REAL LINE BREAKS (newline characters) to separate paragraphs, greeting, body, and sign-off.\n- Apply the full structure and layout expected for a ");
    s.append(fmt);
    s.append(".\n- Fix grammar issues from speech-to-text.\n- Preserve the original meaning and intent.\n- Return ONLY the formatted result. No explanations, no labels, no \"Here's the email:\" prefix.\n\nFORMAT RULES FOR ");
    s.append(fmt_upper);
    s.append(":\n");
    s.append(format_guidelines(fmt));
    s
}

/// The system prompt for `action`, with the format named, if any.
pub fn build_system_prompt(action: &str, format: Option<&str>) -> (r: String)
    ensures
        match format {
            Some(f) => r@ == system_prompt(action@, Some(f@)),
            None => r@ == system_prompt(action@, None),
        },
{
    let v = chars_of(action);
    if chars_equal_str(&v, "rephrase") {
        match format {
            Some(fmt) => {
                let upper = to_uppercase(fmt);
                format_prompt(fmt, upper.as_str())
            },
            None => String::from_str("You are a writing assistant that rewrites speech-to-text transcriptions.\n\nTASK: Rewrite the user's transcribed text to be clear, professional, and well-written.\n\nCRITICAL RULES:\n- Actually REWRITE the text — don't just clean it up. Improve word choice, sentence structure, and flow.\n- Infer the context (email, chat, note, etc.) and apply appropriate formatting.\n- Use REAL LINE BREAKS (newline characters) to separate paragraphs where appropriate.\n- Fix grammar issues from speech-to-text.\n- Preserve the original meaning.\n- Return ONLY the rewritten text. No explanations, no labels, no meta-commentary."),
        }
    } else {
        String::from_str("Rewrite the following text clearly and concisely. Use proper formatting with line breaks. Return ONLY the result.")
    }
}

/// Whether `t` occurs in `s` as a contiguous piece.
pub open spec fn contains_text(s: Seq<char>, t: Seq<char>) -> bool {
    exists|i: int| 0 <= i && i + t.len() <= s.len() && #[trigger] s.subrange(i, i + t.len()) == t
}

/// The prompt depends on the action only through whether it is "rephrase",
/// compared case-sensitively: any other action gets the one fallback text,
/// whatever the format. "rephrase" without a format gets one fixed text that
/// asks the model to infer the context and carries no format rules.
pub proof fn lemma_prompt_by_action(action: Seq<char>, format: Option<Seq<char>>)
    ensures
        action != "rephrase"@ ==> system_prompt(action, format) == fallback_prompt(),
        fallback_prompt() == "Rewrite the following text clearly and concisely. Use proper formatting with line breaks. Return ONLY the result."@,
        system_prompt("rephrase"@, None) == general_rephrase_prompt(),
        contains_text(general_rephrase_prompt(), "Infer the context"@),
        !contains_text(general_rephrase_prompt(), "FORMAT RULES FOR"@),
{
    reveal_strlit("You are a writing assistant that rewrites speech-to-text transcriptions.\n\nTASK: Rewrite the user's transcribed text to be clear, professional, and well-written.\n\nCRITICAL RULES:\n- Actually REWRITE the text — don't just clean it up. Improve word choice, sentence structure, and flow.\n- Infer the context (email, chat, note, etc.) and apply appropriate formatting.\n- Use REAL LINE BREAKS (newline characters) to separate paragraphs where appropriate.\n- Fix grammar issues from speech-to-text.\n- Preserve the original meaning.\n- Return ONLY the rewritten text. No explanations, no labels, no meta-commentary.");
    reveal_strlit("Infer the context");
    reveal_strlit("FORMAT RULES FOR");
    let p = general_rephrase_prompt();
    let i: int = 285;
    assert(p.subrange(i, i + 17) =~= "Infer the context"@);
    assert(forall|k: int| 0 <= k < p.len() ==> p[k] != 'M');
    if contains_text(p, "FORMAT RULES FOR"@) {
        let j = choose|j: int|
            0 <= j && j + 16 <= p.len() && #[trigger] p.subrange(j, j + 16) == "FORMAT RULES FOR"@;
        reveal_strlit("FORMAT RULES FOR");
        let t = "FORMAT RULES FOR"@;
        assert(t.len() == 16);
        assert(t =~= seq!['F', 'O', 'R', 'M', 'A', 'T', ' ', 'R', 'U', 'L', 'E', 'S', ' ', 'F', 'O', 'R']);
        assert(t[4] == 'M');
        assert(p.subrange(j, j + 16)[4] == t[4]);
        assert(p[j + 4] == 'M');
    }
}

} // verus!
