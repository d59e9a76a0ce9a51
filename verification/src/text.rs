use vstd::prelude::*;
use vstd::string::*;

verus! {

// ── Character classes ────────────────────────────────────────────────────────
/// The characters that carry Unicode's `White_Space` property (PropList.txt),
/// the set that `char::is_whitespace` and `str::trim` work with.
pub open spec fn is_white_space(c: char) -> bool {
    let u = c as u32;
    ||| 0x9 <= u <= 0xd
    ||| u == 0x20
    ||| u == 0x85
    ||| u == 0xa0
    ||| u == 0x1680
    ||| 0x2000 <= u <= 0x200a
    ||| u == 0x2028
    ||| u == 0x2029
    ||| u == 0x202f
    ||| u == 0x205f
    ||| u == 0x3000
}

/// ASCII punctuation: ``!"#$%&'()*+,-./:;<=>?@[\]^_`{|}~``.
pub open spec fn is_ascii_punctuation(c: char) -> bool {
    let u = c as u32;
    ||| 0x21 <= u <= 0x2f
    ||| 0x3a <= u <= 0x40
    ||| 0x5b <= u <= 0x60
    ||| 0x7b <= u <= 0x7e
}

/// The classes of characters that text is trimmed by.
#[derive(Clone, Copy, PartialEq, Eq, Debug)]
pub enum CharClass {
    WhiteSpace,
    AsciiPunctuation,
    Comma,
    Slash,
}

pub open spec fn in_class(class: CharClass, c: char) -> bool {
    match class {
        CharClass::WhiteSpace => is_white_space(c),
        CharClass::AsciiPunctuation => is_ascii_punctuation(c),
        CharClass::Comma => c == ',',
        CharClass::Slash => c == '/',
    }
}

/// Whether `c` has Unicode's `White_Space` property.
pub fn char_is_white_space(c: char) -> (b: bool)
    ensures
        b == is_white_space(c),
{
    let u = c as u32;
    (0x9 <= u && u <= 0xd) || u == 0x20 || u == 0x85 || u == 0xa0 || u == 0x1680 || (0x2000 <= u
        && u <= 0x200a) || u == 0x2028 || u == 0x2029 || u == 0x202f || u == 0x205f || u == 0x3000
}

/// Whether `c` is an ASCII punctuation character.
pub fn char_is_ascii_punctuation(c: char) -> (b: bool)
    ensures
        b == is_ascii_punctuation(c),
{
    let u = c as u32;
    (0x21 <= u && u <= 0x2f) || (0x3a <= u && u <= 0x40) || (0x5b <= u && u <= 0x60) || (0x7b <= u
        && u <= 0x7e)
}

pub fn char_in_class(class: CharClass, c: char) -> (b: bool)
    ensures
        b == in_class(class, c),
{
    match class {
        CharClass::WhiteSpace => char_is_white_space(c),
        CharClass::AsciiPunctuation => char_is_ascii_punctuation(c),
        CharClass::Comma => c == ',',
        CharClass::Slash => c == '/',
    }
}

// ── Trimming ─────────────────────────────────────────────────────────────────
/// `s` without its leading characters of `class`.
#[verifier::opaque]
pub open spec fn trim_start_class(s: Seq<char>, class: CharClass) -> Seq<char>
    decreases s.len(),
{
    if s.len() > 0 && in_class(class, s[0]) {
        trim_start_class(s.drop_first(), class)
    } else {
        s
    }
}

/// `s` without its trailing characters of `class`.
#[verifier::opaque]
pub open spec fn trim_end_class(s: Seq<char>, class: CharClass) -> Seq<char>
    decreases s.len(),
{
    if s.len() > 0 && in_class(class, s.last()) {
        trim_end_class(s.drop_last(), class)
    } else {
        s
    }
}

/// What `str::trim` leaves of `s`.
pub open spec fn trim_white_space(s: Seq<char>) -> Seq<char> {
    trim_end_class(trim_start_class(s, CharClass::WhiteSpace), CharClass::WhiteSpace)
}

/// Trimming the start leaves a suffix whose first character is outside `class`.
pub proof fn lemma_trim_start_suffix(s: Seq<char>, class: CharClass)
    ensures
        trim_start_class(s, class).len() <= s.len(),
        trim_start_class(s, class) == s.subrange(
            s.len() - trim_start_class(s, class).len(),
            s.len() as int,
        ),
        trim_start_class(s, class).len() > 0 ==> !in_class(class, trim_start_class(s, class)[0]),
    decreases s.len(),
{
    reveal(trim_start_class);
    if s.len() > 0 && in_class(class, s[0]) {
        lemma_trim_start_suffix(s.drop_first(), class);
        assert(s.drop_first().subrange(
            s.drop_first().len() - trim_start_class(s, class).len(),
            s.drop_first().len() as int,
        ) =~= s.subrange(s.len() - trim_start_class(s, class).len(), s.len() as int));
    } else {
        assert(s.subrange(0, s.len() as int) =~= s);
    }
}

/// Trimming the end leaves a prefix whose last character is outside `class`.
pub proof fn lemma_trim_end_prefix(s: Seq<char>, class: CharClass)
    ensures
        trim_end_class(s, class).len() <= s.len(),
        trim_end_class(s, class) == s.subrange(0, trim_end_class(s, class).len() as int),
        trim_end_class(s, class).len() > 0 ==> !in_class(class, trim_end_class(s, class).last()),
    decreases s.len(),
{
    reveal(trim_end_class);
    if s.len() > 0 && in_class(class, s.last()) {
        lemma_trim_end_prefix(s.drop_last(), class);
        assert(s.drop_last().subrange(0, trim_end_class(s, class).len() as int) =~= s.subrange(
            0,
            trim_end_class(s, class).len() as int,
        ));
    } else {
        assert(s.subrange(0, s.len() as int) =~= s);
    }
}

/// Characters of `class` in front of `y` are all trimmed away.
pub proof fn lemma_trim_start_skips(w: Seq<char>, y: Seq<char>, class: CharClass)
    requires
        forall|k: int| 0 <= k < w.len() ==> in_class(class, #[trigger] w[k]),
    ensures
        trim_start_class(w + y, class) == trim_start_class(y, class),
    decreases w.len(),
{
    reveal(trim_start_class);
    if w.len() > 0 {
        assert((w + y).drop_first() =~= w.drop_first() + y);
        lemma_trim_start_skips(w.drop_first(), y, class);
    } else {
        assert(w + y =~= y);
    }
}

/// Characters of `class` behind `y` are all trimmed away.
pub proof fn lemma_trim_end_skips(y: Seq<char>, w: Seq<char>, class: CharClass)
    requires
        forall|k: int| 0 <= k < w.len() ==> in_class(class, #[trigger] w[k]),
    ensures
        trim_end_class(y + w, class) == trim_end_class(y, class),
    decreases w.len(),
{
    reveal(trim_end_class);
    if w.len() > 0 {
        assert((y + w).drop_last() =~= y + w.drop_last());
        lemma_trim_end_skips(y, w.drop_last(), class);
    } else {
        assert(y + w =~= y);
    }
}

/// Where something of `x` is left after trimming its start, whatever follows `x`
/// is kept.
pub proof fn lemma_trim_start_append(x: Seq<char>, y: Seq<char>, class: CharClass)
    requires
        trim_start_class(x, class).len() > 0,
    ensures
        trim_start_class(x + y, class) == trim_start_class(x, class) + y,
    decreases x.len(),
{
    reveal(trim_start_class);
    if x.len() > 0 && in_class(class, x[0]) {
        assert((x + y).drop_first() =~= x.drop_first() + y);
        lemma_trim_start_append(x.drop_first(), y, class);
    }
}

/// Trimming the start leaves nothing only of a sequence made of `class` alone.
pub proof fn lemma_trim_start_empty(x: Seq<char>, class: CharClass)
    requires
        trim_start_class(x, class).len() == 0,
    ensures
        forall|k: int| 0 <= k < x.len() ==> in_class(class, #[trigger] x[k]),
    decreases x.len(),
{
    reveal(trim_start_class);
    if x.len() > 0 {
        lemma_trim_start_empty(x.drop_first(), class);
        assert forall|k: int| 0 <= k < x.len() implies in_class(class, #[trigger] x[k]) by {
            if k > 0 {
                assert(x[k] == x.drop_first()[k - 1]);
            }
        }
    }
}

/// A sequence that starts outside `class` keeps its start.
pub proof fn lemma_trim_start_keeps(x: Seq<char>, class: CharClass)
    requires
        x.len() == 0 || !in_class(class, x[0]),
    ensures
        trim_start_class(x, class) == x,
{
    reveal(trim_start_class);
}

/// A sequence that ends outside `class` keeps its end.
pub proof fn lemma_trim_end_keeps(x: Seq<char>, class: CharClass)
    requires
        x.len() == 0 || !in_class(class, x.last()),
    ensures
        trim_end_class(x, class) == x,
{
    reveal(trim_end_class);
}

/// White space around `s` does not change what `str::trim` leaves of it.
pub proof fn lemma_trim_white_space_surrounded(w1: Seq<char>, s: Seq<char>, w2: Seq<char>)
    requires
        forall|k: int| 0 <= k < w1.len() ==> is_white_space(#[trigger] w1[k]),
        forall|k: int| 0 <= k < w2.len() ==> is_white_space(#[trigger] w2[k]),
    ensures
        trim_white_space(w1 + s + w2) == trim_white_space(s),
{
    let ws = CharClass::WhiteSpace;
    assert(w1 + s + w2 =~= w1 + (s + w2));
    assert forall|k: int| 0 <= k < w1.len() implies in_class(ws, #[trigger] w1[k]) by {}
    assert forall|k: int| 0 <= k < w2.len() implies in_class(ws, #[trigger] w2[k]) by {}
    lemma_trim_start_skips(w1, s + w2, ws);
    let a = trim_start_class(s, ws);
    if a.len() > 0 {
        lemma_trim_start_append(s, w2, ws);
        lemma_trim_end_skips(a, w2, ws);
    } else {
        lemma_trim_start_empty(s, ws);
        assert forall|k: int| 0 <= k < (s + w2).len() implies in_class(ws, #[trigger] (s + w2)[k]) by {
            if k >= s.len() {
                assert((s + w2)[k] == w2[k - s.len()]);
            }
        }
        assert(s + w2 =~= (s + w2) + Seq::<char>::empty());
        lemma_trim_start_skips(s + w2, Seq::<char>::empty(), ws);
        lemma_trim_start_keeps(Seq::<char>::empty(), ws);
        lemma_trim_end_keeps(Seq::<char>::empty(), ws);
        assert(a =~= Seq::<char>::empty());
        assert(trim_start_class(s + w2, ws) =~= Seq::<char>::empty());
    }
}

/// What `str::trim` leaves is the piece of `s` from the returned index on, and it
/// neither starts nor ends with white space.
pub proof fn lemma_trim_white_space(s: Seq<char>) -> (i: int)
    ensures
        0 <= i <= i + trim_white_space(s).len() <= s.len(),
        s.subrange(i, i + trim_white_space(s).len()) == trim_white_space(s),
        trim_white_space(s).len() > 0 ==> !is_white_space(trim_white_space(s)[0]),
        trim_white_space(s).len() > 0 ==> !is_white_space(trim_white_space(s).last()),
{
    let a = trim_start_class(s, CharClass::WhiteSpace);
    let t = trim_white_space(s);
    lemma_trim_start_suffix(s, CharClass::WhiteSpace);
    lemma_trim_end_prefix(a, CharClass::WhiteSpace);
    let i = s.len() - a.len();
    assert(s.subrange(i, i + t.len()) =~= t);
    if t.len() > 0 {
        assert(t[0] == a[0]);
    }
    i
}

/// The first index in `lo..hi` from which `v[..hi]` has no leading character of `class`.
pub fn skip_class_start(v: &Vec<char>, lo: usize, hi: usize, class: CharClass) -> (a: usize)
    requires
        lo <= hi <= v@.len(),
    ensures
        lo <= a <= hi,
        v@.subrange(a as int, hi as int) == trim_start_class(v@.subrange(lo as int, hi as int), class),
{
    let mut a = lo;
    while a < hi && char_in_class(class, v[a])
        invariant
            lo <= a <= hi <= v@.len(),
            trim_start_class(v@.subrange(a as int, hi as int), class) == trim_start_class(
                v@.subrange(lo as int, hi as int),
                class,
            ),
        decreases hi - a,
    {
        assert(v@.subrange(a as int, hi as int).drop_first() =~= v@.subrange(a + 1, hi as int));
        proof {
            reveal(trim_start_class);
        }
        a = a + 1;
    }
    proof {
        reveal(trim_start_class);
    }
    a
}

/// The last end in `lo..hi` up to which `v[lo..]` has no trailing character of `class`.
pub fn skip_class_end(v: &Vec<char>, lo: usize, hi: usize, class: CharClass) -> (b: usize)
    requires
        lo <= hi <= v@.len(),
    ensures
        lo <= b <= hi,
        v@.subrange(lo as int, b as int) == trim_end_class(v@.subrange(lo as int, hi as int), class),
{
    let mut b = hi;
    while lo < b && char_in_class(class, v[b - 1])
        invariant
            lo <= b <= hi <= v@.len(),
            trim_end_class(v@.subrange(lo as int, b as int), class) == trim_end_class(
                v@.subrange(lo as int, hi as int),
                class,
            ),
        decreases b - lo,
    {
        assert(v@.subrange(lo as int, b as int).drop_last() =~= v@.subrange(lo as int, b - 1));
        proof {
            reveal(trim_end_class);
        }
        b = b - 1;
    }
    proof {
        reveal(trim_end_class);
    }
    b
}

/// The bounds of what `str::trim` leaves of `v[lo..hi]`.
pub fn trim_white_space_range(v: &Vec<char>, lo: usize, hi: usize) -> (r: (usize, usize))
    requires
        lo <= hi <= v@.len(),
    ensures
        lo <= r.0 <= r.1 <= hi,
        v@.subrange(r.0 as int, r.1 as int) == trim_white_space(v@.subrange(lo as int, hi as int)),
{
    let a = skip_class_start(v, lo, hi, CharClass::WhiteSpace);
    let b = skip_class_end(v, a, hi, CharClass::WhiteSpace);
    (a, b)
}

/// `s` without its trailing characters of `class`.
pub fn trim_end_str(s: &str, class: CharClass) -> (r: String)
    ensures
        r@ == trim_end_class(s@, class),
{
    let v = chars_of(s);
    let b = skip_class_end(&v, 0, v.len(), class);
    assert(v@.subrange(0, v@.len() as int) =~= v@);
    String::from_str(s.substring_char(0, b))
}

// ── Comparing ────────────────────────────────────────────────────────────────
/// Whether `s` ends with `suffix`.
pub open spec fn ends_with(s: Seq<char>, suffix: Seq<char>) -> bool {
    suffix.len() <= s.len() && s.subrange(s.len() - suffix.len(), s.len() as int) == suffix
}

/// Whether `v` ends with `suffix`.
pub fn chars_end_with(v: &Vec<char>, suffix: &Vec<char>) -> (b: bool)
    ensures
        b == ends_with(v@, suffix@),
{
    let n = v.len();
    let k = suffix.len();
    if k > n {
        return false;
    }
    let start = n - k;
    let mut i: usize = 0;
    while i < k
        invariant
            n == v@.len(),
            k == suffix@.len(),
            start == n - k,
            i <= k,
            forall|j: int| 0 <= j < i ==> v@[start + j] == suffix@[j],
        decreases k - i,
    {
        if v[start + i] != suffix[i] {
            assert(v@.subrange(start as int, n as int)[i as int] != suffix@[i as int]);
            return false;
        }
        i = i + 1;
    }
    assert(v@.subrange(start as int, n as int) =~= suffix@);
    true
}

/// Whether `a` and `b` hold the same characters.
pub fn str_eq(a: &str, b: &str) -> (r: bool)
    ensures
        r == (a@ == b@),
{
    let va = chars_of(a);
    let vb = chars_of(b);
    if va.len() != vb.len() {
        return false;
    }
    let mut i: usize = 0;
    while i < va.len()
        invariant
            va@ == a@,
            vb@ == b@,
            va@.len() == vb@.len(),
            i <= va@.len(),
            forall|j: int| 0 <= j < i ==> va@[j] == vb@[j],
        decreases va@.len() - i,
    {
        if va[i] != vb[i] {
            return false;
        }
        i = i + 1;
    }
    assert(va@ =~= vb@);
    true
}

/// Whether `s` holds the character `c`.
pub fn str_contains_char(s: &str, c: char) -> (r: bool)
    ensures
        r == s@.contains(c),
{
    let v = chars_of(s);
    let mut i: usize = 0;
    while i < v.len()
        invariant
            v@ == s@,
            i <= v@.len(),
            forall|j: int| 0 <= j < i ==> v@[j] != c,
        decreases v@.len() - i,
    {
        if v[i] == c {
            return true;
        }
        i = i + 1;
    }
    false
}

/// The characters of `s`, in order.
pub fn chars_of(s: &str) -> (v: Vec<char>)
    ensures
        v@ == s@,
{
    let mut v: Vec<char> = Vec::new();
    for c in it: s.chars()
        invariant
            v@ == it.seq().take(it.index() as int),
    {
        v.push(c);
    }
    proof {
        broadcast use vstd::string::group_string_axioms;

    }
    assert(v@ =~= s@);
    v
}

// ── Case mapping ─────────────────────────────────────────────────────────────
/// What `str::to_lowercase` gives for a string with the characters `s`.
pub uninterp spec fn lowercase(s: Seq<char>) -> Seq<char>;

/// What `str::to_uppercase` gives for a string with the characters `s`.
pub uninterp spec fn uppercase(s: Seq<char>) -> Seq<char>;

/// Calls `str::to_lowercase`. The contract only names the result: Unicode's case
/// tables are not restated here, and the result depends on the characters alone.
/// Whether lowercasing the result again leaves it as it is goes unsaid: the
/// documentation of `str::to_lowercase` does not say so.
#[verifier::external_body]
pub(crate) fn to_lowercase(s: &str) -> (r: String)
    ensures
        r@ == lowercase(s@),
{
    s.to_lowercase()
}

/// Calls `str::to_uppercase`. The contract only names the result: Unicode's case
/// tables are not restated here, and the result depends on the characters alone.
#[verifier::external_body]
pub(crate) fn to_uppercase(s: &str) -> (r: String)
    ensures
        r@ == uppercase(s@),
{
    s.to_uppercase()
}

// ── Numbers ──────────────────────────────────────────────────────────────────
pub open spec fn digit_char(d: nat) -> char {
    seq!['0', '1', '2', '3', '4', '5', '6', '7', '8', '9'][d as int]
}

/// The decimal digits of `n`, most significant first, without leading zeros.
pub open spec fn decimal(n: nat) -> Seq<char>
    decreases n,
{
    if n < 10 {
        seq![digit_char(n)]
    } else {
        decimal(n / 10).push(digit_char(n % 10))
    }
}

fn digit_str(d: u32) -> (s: &'static str)
    requires
        d < 10,
    ensures
        s@ == seq![digit_char(d as nat)],
{
    proof {
        reveal_strlit("0");
        reveal_strlit("1");
        reveal_strlit("2");
        reveal_strlit("3");
        reveal_strlit("4");
        reveal_strlit("5");
        reveal_strlit("6");
        reveal_strlit("7");
        reveal_strlit("8");
        reveal_strlit("9");
    }
    match d {
        0 => "0",
        1 => "1",
        2 => "2",
        3 => "3",
        4 => "4",
        5 => "5",
        6 => "6",
        7 => "7",
        8 => "8",
        _ => "9",
    }
}

/// `n` written in decimal.
pub fn decimal_string(n: u32) -> (s: String)
    ensures
        s@ == decimal(n as nat),
    decreases n,
{
    if n < 10 {
        String::from_str(digit_str(n))
    } else {
        let mut s = decimal_string(n / 10);
        s.append(digit_str(n % 10));
        s
    }
}

} // verus!
