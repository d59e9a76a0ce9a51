//! Typing text into the focused application, and replaying a tapped hotkey:
//! which platform does what, and the AppleScript that macOS is sent.
use vstd::prelude::*;
use vstd::string::*;

use crate::text::{chars_of, decimal, decimal_string, lowercase, str_contains_char, to_lowercase};

verus! {

/// The platform the application runs on.
#[derive(Clone, Copy, PartialEq, Eq, Debug)]
pub enum Platform {
    MacOs,
    Windows,
    Other,
}

pub open spec fn platform_name(p: Platform) -> Seq<char> {
    match p {
        Platform::MacOs => "macos"@,
        Platform::Windows => "windows"@,
        Platform::Other => "other"@,
    }
}

/// The name the settings window is given for `platform`.
pub fn get_platform(platform: Platform) -> (r: &'static str)
    ensures
        r@ == platform_name(platform),
{
    match platform {
        Platform::MacOs => "macos",
        Platform::Windows => "windows",
        Platform::Other => "other",
    }
}

/// The macOS key code of a letter key.
pub open spec fn letter_keycode(c: char) -> Option<u16> {
    if c == 'a' { Some(0) }
    else if c == 'b' { Some(11) }
    else if c == 'c' { Some(8) }
    else if c == 'd' { Some(2) }
    else if c == 'e' { Some(14) }
    else if c == 'f' { Some(3) }
    else if c == 'g' { Some(5) }
    else if c == 'h' { Some(4) }
    else if c == 'i' { Some(34) }
    else if c == 'j' { Some(38) }
    else if c == 'k' { Some(40) }
    else if c == 'l' { Some(37) }
    else if c == 'm' { Some(46) }
    else if c == 'n' { Some(45) }
    else if c == 'o' { Some(31) }
    else if c == 'p' { Some(35) }
    else if c == 'q' { Some(12) }
    else if c == 'r' { Some(15) }
    else if c == 's' { Some(1) }
    else if c == 't' { Some(17) }
    else if c == 'u' { Some(32) }
    else if c == 'v' { Some(9) }
    else if c == 'w' { Some(13) }
    else if c == 'x' { Some(7) }
    else if c == 'y' { Some(16) }
    else if c == 'z' { Some(6) }
    else { None }
}

/// The macOS key code of a lowercase key name; `None` for keys that are not replayed.
pub open spec fn keycode_for(lower: Seq<char>) -> Option<u16> {
    if lower == "space"@ {
        Some(49)
    } else if lower == "tab"@ {
        Some(48)
    } else if lower == "return"@ || lower == "enter"@ {
        Some(36)
    } else if lower.len() == 1 {
        letter_keycode(lower[0])
    } else {
        None
    }
}

fn letter_code(c: char) -> (r: Option<u16>)
    ensures
        r == letter_keycode(c),
{
    match c {
        'a' => Some(0),
        'b' => Some(11),
        'c' => Some(8),
        'd' => Some(2),
        'e' => Some(14),
        'f' => Some(3),
        'g' => Some(5),
        'h' => Some(4),
        'i' => Some(34),
        'j' => Some(38),
        'k' => Some(40),
        'l' => Some(37),
        'm' => Some(46),
        'n' => Some(45),
        'o' => Some(31),
        'p' => Some(35),
        'q' => Some(12),
        'r' => Some(15),
        's' => Some(1),
        't' => Some(17),
        'u' => Some(32),
        'v' => Some(9),
        'w' => Some(13),
        'x' => Some(7),
        'y' => Some(16),
        'z' => Some(6),
        _ => None,
    }
}

/// The macOS key code of the lowercase key name `lower`.
pub fn keycode_for_lower(lower: &str) -> (r: Option<u16>)
    ensures
        r == keycode_for(lower@),
{
    if crate::text::str_eq(lower, "space") {
        Some(49)
    } else if crate::text::str_eq(lower, "tab") {
        Some(48)
    } else if crate::text::str_eq(lower, "return") || crate::text::str_eq(lower, "enter") {
        Some(36)
    } else {
        let v = chars_of(lower);
        if v.len() == 1 {
            letter_code(v[0])
        } else {
            None
        }
    }
}

/// The macOS key code of a shortcut key name, in any case; `None` for modifiers
/// and keys that are not replayed.
pub fn key_name_to_keycode(key: &str) -> (r: Option<u16>)
    ensures
        r == keycode_for(lowercase(key@)),
{
    let lower = to_lowercase(key);
    keycode_for_lower(lower.as_str())
}

/// Where lowercasing a key name's lowercase form leaves it as it is, the name and
/// its lowercase form get the same key code from `key_name_to_keycode`. That
/// premise is Unicode's, not something this library's contracts claim of
/// `str::to_lowercase`; the tests check it for every character.
pub proof fn lemma_key_name_ignores_case(key: Seq<char>, lowered: Seq<char>)
    requires
        lowered == lowercase(key),
        lowercase(lowered) == lowered,
    ensures
        keycode_for(lowercase(lowered)) == keycode_for(lowercase(key)),
{
}

/// The keys that are replayed: space, tab, return (also called enter) and the
/// letters a to z.
pub proof fn lemma_replayed_keys(lower: Seq<char>)
    ensures
        keycode_for(lower) is Some <==> {
            ||| lower == "space"@
            ||| lower == "tab"@
            ||| lower == "return"@
            ||| lower == "enter"@
            ||| lower.len() == 1 && 'a' <= lower[0] <= 'z'
        },
{
    reveal_strlit("space");
    reveal_strlit("tab");
    reveal_strlit("return");
    reveal_strlit("enter");
}

/// Two key names get the same key code only where they are the same name, or
/// "return" and "enter".
pub proof fn lemma_keycodes_distinct(a: Seq<char>, b: Seq<char>)
    requires
        keycode_for(a) is Some,
        keycode_for(a) == keycode_for(b),
    ensures
        a == b || ((a == "return"@ || a == "enter"@) && (b == "return"@ || b == "enter"@)),
{
    reveal_strlit("space");
    reveal_strlit("tab");
    reveal_strlit("return");
    reveal_strlit("enter");
    if a.len() == 1 && b.len() == 1 {
        assert(a[0] == b[0]);
        assert(a =~= b);
    }
}

/// The key that replays a tap of `shortcut`: only single keys, without modifiers,
/// and only on macOS.
pub open spec fn replay_keycode(shortcut: Seq<char>, platform: Platform) -> Option<u16> {
    if shortcut.contains('+') || platform != Platform::MacOs {
        None
    } else {
        keycode_for(lowercase(shortcut))
    }
}

/// The key code to tap so that a tapped single-key shortcut reaches the focused
/// application after all; `None` where nothing is replayed.
pub fn replay_shortcut_key(shortcut: &str, platform: Platform) -> (r: Option<u16>)
    ensures
        r == replay_keycode(shortcut@, platform),
{
    if str_contains_char(shortcut, '+') {
        return None;
    }
    match platform {
        Platform::MacOs => key_name_to_keycode(shortcut),
        _ => None,
    }
}

/// The AppleScript that taps the key with the macOS key code `keycode`.
pub open spec fn key_tap_script_text(keycode: u16) -> Seq<char> {
    "tell application \"System Events\" to key code "@ + decimal(keycode as nat)
}

/// The AppleScript that taps the key with the macOS key code `keycode`.
pub fn key_tap_script(keycode: u16) -> (r: String)
    ensures
        r@ == key_tap_script_text(keycode),
{
    let mut s = String::from_str("tell application \"System Events\" to key code ");
    let digits = decimal_string(keycode as u32);
    s.append(digits.as_str());
    s
}

/// The macOS key code of Delete (Backspace).
pub const DELETE_KEYCODE: u16 = 51;

/// The AppleScript that deletes the character before the cursor, which removes
/// the non-breaking space that Option+Space types; none off macOS.
pub fn delete_preceding_char(platform: Platform) -> (r: Option<String>)
    ensures
        platform == Platform::MacOs ==> (r matches Some(s) && s@ == key_tap_script_text(
            DELETE_KEYCODE,
        )),
        platform != Platform::MacOs ==> r is None,
{
    match platform {
        Platform::MacOs => Some(key_tap_script(DELETE_KEYCODE)),
        _ => None,
    }
}

/// The AppleScript that pastes with Cmd+V into the frontmost application.
pub fn paste_script() -> (r: &'static str)
    ensures
        r@ == "tell application \"System Events\" to keystroke \"v\" using command down"@,
{
    "tell application \"System Events\" to keystroke \"v\" using command down"
}

/// The AppleScript whose success shows that Accessibility permission is granted.
pub fn accessibility_probe_script() -> (r: &'static str)
    ensures
        r@ == "tell application \"System Events\" to get name of first process"@,
{
    "tell application \"System Events\" to get name of first process"
}

/// Whether text can be typed: on macOS, whether the probe script ran successfully;
/// on Windows always; elsewhere never.
pub fn check_accessibility_permission(platform: Platform, probe_succeeded: bool) -> (b: bool)
    ensures
        b == match platform {
            Platform::MacOs => probe_succeeded,
            Platform::Windows => true,
            Platform::Other => false,
        },
{
    match platform {
        Platform::MacOs => probe_succeeded,
        Platform::Windows => true,
        Platform::Other => false,
    }
}

/// How text is typed into the focused application.
#[derive(Clone, Copy, PartialEq, Eq, Debug)]
pub enum InjectMethod {
    /// Delete the character before the cursor, wait, copy with `pbcopy`, paste with AppleScript.
    AppleScriptPaste,
    /// Put the text on the clipboard and send Ctrl+V.
    ClipboardSendInput,
}

pub open spec fn unsupported_platform_text() -> Seq<char> {
    "Text injection not supported on this platform"@
}

/// How text is typed on `platform`, or why it cannot be.
pub fn inject_method(platform: Platform) -> (r: Result<InjectMethod, String>)
    ensures
        platform == Platform::MacOs ==> r == Ok::<InjectMethod, String>(
            InjectMethod::AppleScriptPaste,
        ),
        platform == Platform::Windows ==> r == Ok::<InjectMethod, String>(
            InjectMethod::ClipboardSendInput,
        ),
        platform == Platform::Other ==> (r matches Err(m) && m@ == unsupported_platform_text()),
{
    match platform {
        Platform::MacOs => Ok(InjectMethod::AppleScriptPaste),
        Platform::Windows => Ok(InjectMethod::ClipboardSendInput),
        Platform::Other => Err(String::from_str("Text injection not supported on this platform")),
    }
}

pub open spec fn paste_refused_text() -> Seq<char> {
    "osascript returned non-zero exit code. Accessibility permission may be required."@
}

/// The outcome of the paste script, from whether it exited successfully.
pub fn paste_outcome(exit_success: bool) -> (r: Result<(), String>)
    ensures
        exit_success ==> r is Ok,
        !exit_success ==> (r matches Err(m) && m@ == paste_refused_text()),
{
    if exit_success {
        Ok(())
    } else {
        Err(
            String::from_str(
                "osascript returned non-zero exit code. Accessibility permission may be required.",
            ),
        )
    }
}

} // verus!
