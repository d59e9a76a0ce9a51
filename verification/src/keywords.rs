//! Detection of a spoken trigger phrase ("rephrase", "rewrite it", "rephrase as
//! email", ...) at the end of a transcription, and the text that is left once the
//! phrase is cut off.
use vstd::prelude::*;
use vstd::string::*;
use vstd::utf8::*;

use crate::text::{
    chars_end_with, chars_of, ends_with, in_class, is_ascii_punctuation, is_white_space,
    lemma_trim_end_keeps, lemma_trim_end_prefix, lemma_trim_end_skips, lemma_trim_start_append,
    lemma_trim_start_empty, lemma_trim_start_keeps, lemma_trim_start_skips,
    lemma_trim_start_suffix, lemma_trim_white_space, lemma_trim_white_space_surrounded,
    lowercase, skip_class_end, to_lowercase, trim_end_class, trim_start_class, trim_white_space,
    trim_white_space_range, CharClass,
};
use crate::prompt::{format_style, FormatStyle};

verus! {

/// A trigger phrase found at the end of a transcription.
pub struct KeywordMatch {
    /// What to do with the text; every trigger phrase asks to "rephrase".
    pub action: String,
    /// The transcription without the trigger phrase and the commas and white
    /// space in front of it.
    pub clean_text: String,
    /// The format that the phrase names ("email" for "rephrase as email"), or
    /// `None` for a phrase that names none.
    pub format: Option<String>,
}

/// The characters of an optional string.
pub open spec fn opt_chars(o: Option<String>) -> Option<Seq<char>> {
    match o {
        Some(f) => Some(f@),
        None => None,
    }
}

/// What a detection gives, as characters: the clean text and the format.
pub open spec fn match_view(r: Option<KeywordMatch>) -> Option<(Seq<char>, Option<Seq<char>>)> {
    match r {
        Some(m) => Some((m.clean_text@, opt_chars(m.format))),
        None => None,
    }
}

/// The number of trigger phrases.
pub open spec fn trigger_count() -> int {
    4
}

/// The trigger phrases, longest first, so that "rephrase it" wins over "rephrase".
pub open spec fn trigger_phrase(i: int) -> Seq<char> {
    if i == 0 {
        "rephrase it"@
    } else if i == 1 {
        "rewrite it"@
    } else if i == 2 {
        "rephrase"@
    } else {
        "rewrite"@
    }
}

/// The action that every trigger phrase maps to.
pub open spec fn rephrase_action() -> Seq<char> {
    "rephrase"@
}

/// The first trigger phrase from index `i` on that `lower` ends with.
pub open spec fn first_trigger_from(lower: Seq<char>, i: int) -> Option<int>
    decreases trigger_count() - i,
{
    if i < 0 || i >= trigger_count() {
        None
    } else if ends_with(lower, trigger_phrase(i)) {
        Some(i)
    } else {
        first_trigger_from(lower, i + 1)
    }
}

/// A trigger found from index `i` on is one of the trigger phrases.
pub proof fn lemma_first_trigger_from_range(lower: Seq<char>, i: int)
    ensures
        first_trigger_from(lower, i) matches Some(k) ==> 0 <= k < trigger_count() && ends_with(
            lower,
            trigger_phrase(k),
        ),
    decreases trigger_count() - i,
{
    if 0 <= i < trigger_count() && !ends_with(lower, trigger_phrase(i)) {
        lemma_first_trigger_from_range(lower, i + 1);
    }
}

/// The first trigger phrase, in the order of `trigger_phrase`, that `lower` ends with.
pub open spec fn first_trigger(lower: Seq<char>) -> Option<int> {
    first_trigger_from(lower, 0)
}

/// The number of verbs that introduce a format.
pub open spec fn format_verb_count() -> int {
    3
}

/// The verbs that introduce a format, each with the "as" that follows it.
pub open spec fn format_verb(v: int) -> Seq<char> {
    if v == 0 {
        "rephrase as "@
    } else if v == 1 {
        "rewrite as "@
    } else {
        "format as "@
    }
}

/// The number of format names that a phrase can end with.
pub open spec fn format_count() -> int {
    18
}

/// The format names that a phrase can end with: those that the prompt builder
/// has format rules for.
pub open spec fn known_format(j: int) -> Seq<char> {
    if j == 0 {
        "email"@
    } else if j == 1 {
        "formal email"@
    } else if j == 2 {
        "professional email"@
    } else if j == 3 {
        "casual message"@
    } else if j == 4 {
        "message"@
    } else if j == 5 {
        "text message"@
    } else if j == 6 {
        "slack message"@
    } else if j == 7 {
        "teams message"@
    } else if j == 8 {
        "chat message"@
    } else if j == 9 {
        "professional"@
    } else if j == 10 {
        "formal"@
    } else if j == 11 {
        "casual"@
    } else if j == 12 {
        "friendly"@
    } else if j == 13 {
        "bullet points"@
    } else if j == 14 {
        "bullets"@
    } else if j == 15 {
        "summary"@
    } else if j == 16 {
        "code comment"@
    } else {
        "comment"@
    }
}

/// The number of format phrases: each verb with each format name.
pub open spec fn format_phrase_count() -> int {
    format_verb_count() * format_count()
}

/// The format phrase `i`: the verb `i / format_count()` followed by the format
/// name `i % format_count()`.
pub open spec fn format_phrase(i: int) -> Seq<char> {
    format_verb(i / format_count()) + known_format(i % format_count())
}

/// The first format phrase from index `i` on that `lower` ends with.
pub open spec fn first_format_from(lower: Seq<char>, i: int) -> Option<int>
    decreases format_phrase_count() - i,
{
    if i < 0 || i >= format_phrase_count() {
        None
    } else if ends_with(lower, format_phrase(i)) {
        Some(i)
    } else {
        first_format_from(lower, i + 1)
    }
}

/// A format phrase found from index `i` on is one of the format phrases.
pub proof fn lemma_first_format_from_range(lower: Seq<char>, i: int)
    ensures
        first_format_from(lower, i) matches Some(k) ==> 0 <= k < format_phrase_count()
            && ends_with(lower, format_phrase(k)),
        (forall|j: int| 0 <= j < format_phrase_count() ==> !ends_with(lower, #[trigger] format_phrase(j)))
            ==> first_format_from(lower, i) is None,
        0 <= i < format_phrase_count() && first_format_from(lower, i) is None ==> forall|j: int|
            i <= j < format_phrase_count() ==> !ends_with(lower, #[trigger] format_phrase(j)),
    decreases format_phrase_count() - i,
{
    if 0 <= i < format_phrase_count() {
        lemma_first_format_from_range(lower, i + 1);
    }
}

/// The first format phrase, in the order of `format_phrase`, that `lower` ends with.
pub open spec fn first_format(lower: Seq<char>) -> Option<int> {
    first_format_from(lower, 0)
}

/// The phrase that `lower` ends with, as its length and the format it names: a
/// plain trigger phrase first, else a format phrase.
pub open spec fn trigger_suffix(lower: Seq<char>) -> Option<(int, Option<Seq<char>>)> {
    match first_trigger(lower) {
        Some(i) => Some((trigger_phrase(i).len() as int, None)),
        None => match first_format(lower) {
            Some(i) => Some((format_phrase(i).len() as int, Some(known_format(i % format_count())))),
            None => None,
        },
    }
}

/// The format named by the phrase that `lower` ends with.
pub open spec fn keyword_format(lower: Seq<char>) -> Option<Seq<char>> {
    match trigger_suffix(lower) {
        Some((_, f)) => f,
        None => None,
    }
}

/// The text that trigger phrases are looked for in: the transcription without
/// surrounding white space and without trailing ASCII punctuation.
pub open spec fn matching_text(text: Seq<char>) -> Seq<char> {
    clean_by(text, CharClass::AsciiPunctuation)
}

/// What is left of `prefix` once surrounding white space and the commas in front
/// of the trigger phrase are removed.
pub open spec fn clean_prefix(prefix: Seq<char>) -> Seq<char> {
    clean_by(prefix, CharClass::Comma)
}

/// `s` trimmed of white space, then of trailing characters of `class`, then of
/// white space again.
pub open spec fn clean_by(s: Seq<char>, class: CharClass) -> Seq<char> {
    trim_white_space(trim_end_class(trim_white_space(s), class))
}

/// The UTF-8 length of `s` in bytes.
pub open spec fn utf8_len(s: Seq<char>) -> int {
    encode_utf8(s).len() as int
}

/// The byte offset in `trimmed` where a phrase of `n` (ASCII) characters is cut
/// off: the byte length of `trimmed` less `n`.
pub open spec fn cut_point(trimmed: Seq<char>, n: int) -> int {
    utf8_len(trimmed) - n
}

/// Whether the byte offset `cut_point(trimmed, n)` lies on a character boundary of `trimmed`.
pub open spec fn cut_allowed(trimmed: Seq<char>, n: int) -> bool {
    &&& 0 <= n <= utf8_len(trimmed)
    &&& is_char_boundary(encode_utf8(trimmed), cut_point(trimmed, n))
}

/// The characters of `trimmed` before the byte offset `cut_point(trimmed, n)`.
pub open spec fn cut_prefix(trimmed: Seq<char>, n: int) -> Seq<char> {
    decode_utf8(encode_utf8(trimmed).subrange(0, cut_point(trimmed, n)))
}

/// Whether the phrase that `lower` ends with, if any, can be cut off `trimmed`
/// at a character boundary.
pub open spec fn trigger_fits(trimmed: Seq<char>, lower: Seq<char>) -> bool {
    match trigger_suffix(lower) {
        None => true,
        Some((n, _)) => cut_allowed(trimmed, n),
    }
}

/// The clean text of a match, or `None` where no phrase ends `lower` or nothing
/// is left once it is cut off `trimmed`.
pub open spec fn keyword_clean_text(trimmed: Seq<char>, lower: Seq<char>) -> Option<Seq<char>> {
    match trigger_suffix(lower) {
        None => None,
        Some((n, _)) => {
            let c = clean_prefix(cut_prefix(trimmed, n));
            if c.len() == 0 {
                None
            } else {
                Some(c)
            }
        },
    }
}

/// What is detected in a transcription: the clean text and the format, or `None`
/// where no phrase ends it, nothing is left in front of the phrase, or the phrase
/// cannot be cut off at a character boundary.
pub open spec fn keyword_result(text: Seq<char>) -> Option<(Seq<char>, Option<Seq<char>>)> {
    let t = matching_text(text);
    let l = lowercase(t);
    if !trigger_fits(t, l) {
        None
    } else {
        match keyword_clean_text(t, l) {
            Some(c) => Some((c, keyword_format(l))),
            None => None,
        }
    }
}

fn trigger_phrase_str(i: usize) -> (r: (&'static str, usize))
    requires
        i < trigger_count(),
    ensures
        r.0@ == trigger_phrase(i as int),
        r.1 == trigger_phrase(i as int).len(),
{
    proof {
        reveal_strlit("rephrase it");
        reveal_strlit("rewrite it");
        reveal_strlit("rephrase");
        reveal_strlit("rewrite");
    }
    if i == 0 {
        ("rephrase it", 11)
    } else if i == 1 {
        ("rewrite it", 10)
    } else if i == 2 {
        ("rephrase", 8)
    } else {
        ("rewrite", 7)
    }
}

/// The index of the first trigger phrase that `lower` ends with.
fn find_trigger(lower: &Vec<char>) -> (r: Option<usize>)
    ensures
        first_trigger(lower@) is None <==> r is None,
        r matches Some(i) ==> i < trigger_count() && first_trigger(lower@) == Some(i as int),
{
    proof {
        lemma_first_trigger_from_range(lower@, 0);
    }
    let mut i: usize = 0;
    while i < 4
        invariant
            i <= 4,
            first_trigger(lower@) == first_trigger_from(lower@, i as int),
        decreases 4 - i,
    {
        let (phrase, _) = trigger_phrase_str(i);
        let pv = chars_of(phrase);
        if chars_end_with(lower, &pv) {
            return Some(i);
        }
        i = i + 1;
    }
    None
}

fn format_verb_str(v: usize) -> (r: &'static str)
    requires
        v < format_verb_count(),
    ensures
        r@ == format_verb(v as int),
{
    if v == 0 {
        "rephrase as "
    } else if v == 1 {
        "rewrite as "
    } else {
        "format as "
    }
}

fn known_format_str(j: usize) -> (r: &'static str)
    requires
        j < format_count(),
    ensures
        r@ == known_format(j as int),
{
    if j == 0 {
        "email"
    } else if j == 1 {
        "formal email"
    } else if j == 2 {
        "professional email"
    } else if j == 3 {
        "casual message"
    } else if j == 4 {
        "message"
    } else if j == 5 {
        "text message"
    } else if j == 6 {
        "slack message"
    } else if j == 7 {
        "teams message"
    } else if j == 8 {
        "chat message"
    } else if j == 9 {
        "professional"
    } else if j == 10 {
        "formal"
    } else if j == 11 {
        "casual"
    } else if j == 12 {
        "friendly"
    } else if j == 13 {
        "bullet points"
    } else if j == 14 {
        "bullets"
    } else if j == 15 {
        "summary"
    } else if j == 16 {
        "code comment"
    } else {
        "comment"
    }
}

/// The index of the first format phrase that `lower` ends with.
fn find_format(lower: &Vec<char>) -> (r: Option<usize>)
    ensures
        first_format(lower@) is None <==> r is None,
        r matches Some(i) ==> i < format_phrase_count() && first_format(lower@) == Some(i as int),
{
    proof {
        lemma_first_format_from_range(lower@, 0);
    }
    let mut i: usize = 0;
    while i < 54
        invariant
            i <= 54,
            first_format(lower@) == first_format_from(lower@, i as int),
        decreases 54 - i,
    {
        let verb = format_verb_str(i / 18);
        let name = known_format_str(i % 18);
        let mut pv = chars_of(verb);
        let mut nv = chars_of(name);
        pv.append(&mut nv);
        assert(pv@ == format_phrase(i as int));
        if chars_end_with(lower, &pv) {
            return Some(i);
        }
        i = i + 1;
    }
    None
}

/// The phrase that `lower` ends with: its length in characters and the format it names.
fn find_suffix(lower: &Vec<char>) -> (r: Option<(usize, Option<String>)>)
    ensures
        match trigger_suffix(lower@) {
            None => r is None,
            Some((n, f)) => r matches Some((rn, rf)) && rn == n && opt_chars(rf) == f,
        },
{
    match find_trigger(lower) {
        Some(i) => {
            let (_, plen) = trigger_phrase_str(i);
            Some((plen, None))
        },
        None => match find_format(lower) {
            Some(i) => {
                let verb = format_verb_str(i / 18);
                let name = known_format_str(i % 18);
                let mut pv = chars_of(verb);
                let mut nv = chars_of(name);
                pv.append(&mut nv);
                assert(pv@ == format_phrase(i as int));
                Some((pv.len(), Some(String::from_str(name))))
            },
            None => None,
        },
    }
}

/// Whether the phrase that `lower` ends with can be cut off `trimmed`.
pub fn check_trigger_fits(trimmed: &str, lower: &str) -> (b: bool)
    ensures
        b == trigger_fits(trimmed@, lower@),
{
    let lv = chars_of(lower);
    match find_suffix(&lv) {
        None => true,
        Some((plen, _)) => {
            let bytes = trimmed.as_bytes();
            let n = bytes.len();
            assert(bytes@ == encode_utf8(trimmed@));
            assert(n == utf8_len(trimmed@));
            plen <= n && trimmed.is_char_boundary(n - plen)
        },
    }
}

/// Cuts the phrase that `lower` ends with off `trimmed`.
///
/// `trimmed` is the transcription as prepared for matching and `lower` its
/// lowercase form. The phrase is found in `lower` and cut off `trimmed` by its
/// byte length; surrounding white space and the commas before it go too.
pub fn match_trigger(trimmed: &str, lower: &str) -> (r: Option<KeywordMatch>)
    requires
        trigger_fits(trimmed@, lower@),
    ensures
        r is Some <==> keyword_clean_text(trimmed@, lower@) is Some,
        r matches Some(m) ==> {
            &&& m.action@ == rephrase_action()
            &&& keyword_clean_text(trimmed@, lower@) == Some(m.clean_text@)
            &&& m.clean_text@.len() > 0
            &&& opt_chars(m.format) == keyword_format(lower@)
        },
{
    let lv = chars_of(lower);
    let (plen, format) = match find_suffix(&lv) {
        None => return None,
        Some(found) => found,
    };
    let bytes = trimmed.as_bytes();
    let n = bytes.len();
    assert(bytes@ == encode_utf8(trimmed@));
    assert(n == utf8_len(trimmed@));
    assert(plen <= n);
    let cut = n - plen;
    let (pre, _) = trimmed.split_at(cut);
    proof {
        broadcast use encode_utf8_decode_utf8, encode_utf8_valid_utf8;

        assert(pre@ == decode_utf8(pre.spec_bytes()));
        assert(pre@ == cut_prefix(trimmed@, plen as int));
    }
    let pv = chars_of(pre);
    let (a, b) = trim_white_space_range(&pv, 0, pv.len());
    let b2 = skip_class_end(&pv, a, b, CharClass::Comma);
    let (a3, b3) = trim_white_space_range(&pv, a, b2);
    assert(pv@.subrange(0, pv@.len() as int) =~= pv@);
    if a3 == b3 {
        return None;
    }
    let clean = pre.substring_char(a3, b3);
    Some(
        KeywordMatch {
            action: String::from_str("rephrase"),
            clean_text: String::from_str(clean),
            format,
        },
    )
}

/// Detects a trailing trigger phrase in a transcription.
///
/// The transcription is trimmed of white space and trailing ASCII punctuation,
/// lowercased, and checked against the plain trigger phrases longest first, then
/// against the format phrases ("rephrase as email", "format as bullet points",
/// ...). Returns `None` where no phrase matches, or where nothing is left in
/// front of it. The phrase is cut off by its byte length; where that would not
/// fall on a character boundary, the result is `None`.
pub fn detect_keyword(text: &str) -> (r: Option<KeywordMatch>)
    ensures
        match_view(r) == keyword_result(text@),
        r matches Some(m) ==> m.action@ == rephrase_action() && m.clean_text@.len() > 0,
{
    let v = chars_of(text);
    let (a, b) = trim_white_space_range(&v, 0, v.len());
    let b2 = skip_class_end(&v, a, b, CharClass::AsciiPunctuation);
    let (a3, b3) = trim_white_space_range(&v, a, b2);
    assert(v@.subrange(0, v@.len() as int) =~= v@);
    let trimmed = text.substring_char(a3, b3);
    let lower = to_lowercase(trimmed);
    if !check_trigger_fits(trimmed, lower.as_str()) {
        return None;
    }
    match_trigger(trimmed, lower.as_str())
}

/// A trimmed piece of `s` is a contiguous piece of `s`.
proof fn lemma_trimmed_piece(s: Seq<char>, class: CharClass) -> (i: int)
    ensures
        0 <= i <= i + clean_by(s, class).len() <= s.len(),
        s.subrange(i, i + clean_by(s, class).len()) == clean_by(s, class),
        clean_by(s, class).len() > 0 ==> !is_white_space(clean_by(s, class)[0]),
        clean_by(s, class).len() > 0 ==> !is_white_space(clean_by(s, class).last()),
{
    let t1 = trim_white_space(s);
    let t2 = trim_end_class(t1, class);
    let c = trim_white_space(t2);
    let i1 = lemma_trim_white_space(s);
    lemma_trim_end_prefix(t1, class);
    let i3 = lemma_trim_white_space(t2);
    assert(s.subrange(i1 + i3, i1 + i3 + c.len()) =~= c) by {
        assert forall|k: int| 0 <= k < c.len() implies s.subrange(i1 + i3, i1 + i3 + c.len())[k]
            == c[k] by {
            assert(c[k] == t2[i3 + k]);
            assert(t2[i3 + k] == t1[i3 + k]);
            assert(t1[i3 + k] == s[i1 + i3 + k]);
        }
    }
    i1 + i3
}

/// The characters before a cut at a character boundary are a prefix.
proof fn lemma_cut_prefix(t: Seq<char>, n: int)
    requires
        cut_allowed(t, n),
    ensures
        cut_prefix(t, n).len() <= t.len(),
        t.subrange(0, cut_prefix(t, n).len() as int) == cut_prefix(t, n),
{
    broadcast use encode_utf8_decode_utf8, encode_utf8_valid_utf8;

    let bytes = encode_utf8(t);
    let cut = cut_point(t, n);
    decode_utf8_split(bytes, cut);
    let p = cut_prefix(t, n);
    assert(t == p + decode_utf8(bytes.subrange(cut, bytes.len() as int)));
    assert(t.subrange(0, p.len() as int) =~= p);
}

/// The clean text of a match is a contiguous piece of the transcription, and it
/// neither starts nor ends with white space.
pub proof fn lemma_clean_text_from_transcription(text: Seq<char>)
    ensures
        keyword_result(text) matches Some((c, _)) ==> {
            &&& exists|i: int, j: int|
                0 <= i <= j <= text.len() && #[trigger] text.subrange(i, j) == c
            &&& !is_white_space(c[0])
            &&& !is_white_space(c.last())
        },
{
    let t = matching_text(text);
    let l = lowercase(t);
    if let Some((c, _)) = keyword_result(text) {
        let (n, _) = trigger_suffix(l)->0;
        let i1 = lemma_trimmed_piece(text, CharClass::AsciiPunctuation);
        lemma_cut_prefix(t, n);
        let p = cut_prefix(t, n);
        let i2 = lemma_trimmed_piece(p, CharClass::Comma);
        assert(text.subrange(i1 + i2, i1 + i2 + c.len()) =~= c);
    }
}

/// The phrases are tried longest first: the plain trigger phrase that is cut off
/// is the longest of those that the text ends with.
pub proof fn lemma_longest_phrase_wins(lower: Seq<char>, j: int)
    requires
        0 <= j < trigger_count(),
        ends_with(lower, trigger_phrase(j)),
    ensures
        first_trigger(lower) matches Some(k) && trigger_phrase(k).len() >= trigger_phrase(j).len(),
{
    reveal_strlit("rephrase it");
    reveal_strlit("rewrite it");
    reveal_strlit("rephrase");
    reveal_strlit("rewrite");
    reveal_with_fuel(first_trigger_from, 5);
    lemma_first_trigger_from_range(lower, 0);
}

/// The plain trigger phrases and what is cut off for them: a lowercased text
/// ending with "rephrase it" loses 11 characters, one ending with "rewrite it"
/// 10, and otherwise one ending with "rephrase" 8 and one ending with "rewrite"
/// 7; none of them names a format.
pub proof fn lemma_plain_trigger_cuts(lower: Seq<char>)
    ensures
        ends_with(lower, "rephrase it"@) ==> trigger_suffix(lower) == Some((11int, None::<Seq<char>>)),
        !ends_with(lower, "rephrase it"@) && ends_with(lower, "rewrite it"@) ==> trigger_suffix(lower)
            == Some((10int, None::<Seq<char>>)),
        ends_with(lower, "rephrase"@) ==> trigger_suffix(lower) == Some((8int, None::<Seq<char>>)),
        ends_with(lower, "rewrite"@) ==> trigger_suffix(lower) == Some((7int, None::<Seq<char>>)),
{
    reveal_strlit("rephrase it");
    reveal_strlit("rewrite it");
    reveal_strlit("rephrase");
    reveal_strlit("rewrite");
    reveal_with_fuel(first_trigger_from, 5);
    assert("rephrase it"@ =~= seq!['r', 'e', 'p', 'h', 'r', 'a', 's', 'e', ' ', 'i', 't']);
    assert("rewrite it"@ =~= seq!['r', 'e', 'w', 'r', 'i', 't', 'e', ' ', 'i', 't']);
    assert("rephrase"@ =~= seq!['r', 'e', 'p', 'h', 'r', 'a', 's', 'e']);
    assert("rewrite"@ =~= seq!['r', 'e', 'w', 'r', 'i', 't', 'e']);
    let n = lower.len() as int;
    if ends_with(lower, "rephrase"@) {
        assert(lower.subrange(n - 8, n)[7] == 'e');
        assert(lower[n - 1] == 'e');
        assert(!ends_with(lower, "rephrase it"@)) by {
            if ends_with(lower, "rephrase it"@) {
                assert(lower.subrange(n - 11, n)[10] == 't');
            }
        }
        assert(!ends_with(lower, "rewrite it"@)) by {
            if ends_with(lower, "rewrite it"@) {
                assert(lower.subrange(n - 10, n)[9] == 't');
            }
        }
    }
    if ends_with(lower, "rewrite"@) {
        assert(lower.subrange(n - 7, n)[6] == 'e');
        assert(lower[n - 1] == 'e');
        assert(!ends_with(lower, "rephrase it"@)) by {
            if ends_with(lower, "rephrase it"@) {
                assert(lower.subrange(n - 11, n)[10] == 't');
            }
        }
        assert(!ends_with(lower, "rewrite it"@)) by {
            if ends_with(lower, "rewrite it"@) {
                assert(lower.subrange(n - 10, n)[9] == 't');
            }
        }
        assert(!ends_with(lower, "rephrase"@)) by {
            if ends_with(lower, "rephrase"@) {
                assert(lower.subrange(n - 8, n)[6] == 's');
                assert(lower.subrange(n - 7, n)[5] == 't');
                assert(lower[n - 2] == 's');
                assert(lower[n - 2] == 't');
            }
        }
    }
}

/// A match means that the prepared transcription, lowercased, ends with one of the
/// trigger phrases or one of the format phrases; without such an ending there is
/// no match.
pub proof fn lemma_match_means_trailing_phrase(trimmed: Seq<char>, lower: Seq<char>)
    ensures
        keyword_clean_text(trimmed, lower) is Some ==> (exists|i: int|
            0 <= i < trigger_count() && ends_with(lower, #[trigger] trigger_phrase(i))) || (exists|
            i: int,
        | 0 <= i < format_phrase_count() && ends_with(lower, #[trigger] format_phrase(i))),
        (forall|i: int| 0 <= i < trigger_count() ==> !ends_with(lower, #[trigger] trigger_phrase(i)))
            && (forall|i: int|
            0 <= i < format_phrase_count() ==> !ends_with(lower, #[trigger] format_phrase(i)))
            ==> keyword_clean_text(trimmed, lower) is None,
{
    lemma_first_trigger_from_range(lower, 0);
    lemma_first_format_from_range(lower, 0);
    if let Some(k) = first_trigger(lower) {
        assert(ends_with(lower, trigger_phrase(k)));
    } else if let Some(k) = first_format(lower) {
        assert(ends_with(lower, format_phrase(k)));
    }
}

/// A format phrase at the end, with no plain trigger phrase there, names one of
/// the known formats; without a format phrase there is no format.
pub proof fn lemma_format_from_format_phrase(lower: Seq<char>)
    ensures
        keyword_format(lower) matches Some(f) ==> exists|j: int|
            0 <= j < format_count() && f == #[trigger] known_format(j) && exists|v: int|
                0 <= v < format_verb_count() && ends_with(lower, #[trigger] format_verb(v) + f),
        (forall|i: int| 0 <= i < format_phrase_count() ==> !ends_with(lower, #[trigger] format_phrase(i)))
            ==> keyword_format(lower) is None,
{
    lemma_first_format_from_range(lower, 0);
    if first_trigger(lower) is None {
        if let Some(i) = first_format(lower) {
            let j = i % format_count();
            let v = i / format_count();
            assert(0 <= j < format_count());
            assert(0 <= v < format_verb_count());
            assert(format_phrase(i) == format_verb(v) + known_format(j));
        }
    }
}

/// Every format that a phrase can name has format rules of its own.
pub proof fn lemma_known_formats_have_rules(j: int)
    requires
        0 <= j < format_count(),
    ensures
        format_style(known_format(j)) != FormatStyle::General,
{
}

// ── What leaves the detection unchanged ──────────────────────────────────────
/// The prepared text of `w1 + s + w2` is that of `s` when `w1` and `w2` are white space.
proof fn lemma_matching_text_surrounded(w1: Seq<char>, s: Seq<char>, w2: Seq<char>)
    requires
        forall|k: int| 0 <= k < w1.len() ==> is_white_space(#[trigger] w1[k]),
        forall|k: int| 0 <= k < w2.len() ==> is_white_space(#[trigger] w2[k]),
    ensures
        matching_text(w1 + s + w2) == matching_text(s),
{
    lemma_trim_white_space_surrounded(w1, s, w2);
}

/// The prepared text of `s + q` is that of `s` when `q` is ASCII punctuation and
/// `s` does not end with white space.
proof fn lemma_matching_text_punctuated(s: Seq<char>, q: Seq<char>)
    requires
        forall|k: int| 0 <= k < q.len() ==> is_ascii_punctuation(#[trigger] q[k]),
        s.len() == 0 || !is_white_space(s.last()),
    ensures
        matching_text(s + q) == matching_text(s),
{
    let ws = CharClass::WhiteSpace;
    let pc = CharClass::AsciiPunctuation;
    let e = Seq::<char>::empty();
    assert forall|k: int| 0 <= k < q.len() implies in_class(pc, #[trigger] q[k]) by {}
    if q.len() == 0 {
        assert(s + q =~= s);
        return;
    }
    assert(!in_class(ws, q.last()));
    assert(!in_class(ws, q[0]));
    let a = trim_start_class(s, ws);
    if a.len() > 0 {
        lemma_trim_start_append(s, q, ws);
        lemma_trim_end_keeps(a + q, ws);
        lemma_trim_end_skips(a, q, pc);
        lemma_trim_start_suffix(s, ws);
        assert(a.last() == s.last());
        lemma_trim_end_keeps(a, ws);
    } else {
        lemma_trim_start_empty(s, ws);
        if s.len() > 0 {
            assert(in_class(ws, s[s.len() - 1]));
        }
        assert(s =~= e);
        assert(s + q =~= q);
        lemma_trim_start_keeps(q, ws);
        lemma_trim_end_keeps(q, ws);
        assert(e + q =~= q);
        lemma_trim_end_skips(e, q, pc);
        lemma_trim_start_keeps(e, ws);
        lemma_trim_end_keeps(e, ws);
        lemma_trim_end_keeps(e, pc);
    }
}

/// White space around a transcription changes nothing of what is detected in it.
pub proof fn lemma_surrounding_white_space_ignored(w1: Seq<char>, s: Seq<char>, w2: Seq<char>)
    requires
        forall|k: int| 0 <= k < w1.len() ==> is_white_space(#[trigger] w1[k]),
        forall|k: int| 0 <= k < w2.len() ==> is_white_space(#[trigger] w2[k]),
    ensures
        keyword_result(w1 + s + w2) == keyword_result(s),
{
    lemma_matching_text_surrounded(w1, s, w2);
}

/// Trailing ASCII punctuation changes nothing of what is detected in a
/// transcription that does not end with white space.
pub proof fn lemma_trailing_punctuation_ignored(s: Seq<char>, q: Seq<char>)
    requires
        forall|k: int| 0 <= k < q.len() ==> is_ascii_punctuation(#[trigger] q[k]),
        s.len() == 0 || !is_white_space(s.last()),
    ensures
        keyword_result(s + q) == keyword_result(s),
{
    lemma_matching_text_punctuated(s, q);
}

} // verus!
