//! Keeping the program registered to start with the session: reading what the
//! registry query printed, deciding whether to register again, and writing
//! text the way the operating system takes it.

use crate::text::chars_of;
use vstd::prelude::*;

verus! {

/// Seconds between two looks at the registration: one hour.
pub const AUTOSTART_CHECK_SECS: u64 = 3600;

/// `needle` stands in `haystack` at the index `at`.
pub open spec fn occurs_at(haystack: Seq<char>, needle: Seq<char>, at: int) -> bool {
    &&& 0 <= at
    &&& at + needle.len() <= haystack.len()
    &&& haystack.subrange(at, at + needle.len()) == needle
}

/// `needle` stands somewhere in `haystack`.
pub open spec fn occurs_in(haystack: Seq<char>, needle: Seq<char>) -> bool {
    exists|at: int| occurs_at(haystack, needle, at)
}

/// Tells whether `needle` stands in `haystack` at the index `at`.
fn matches_at(haystack: &Vec<char>, needle: &Vec<char>, at: usize) -> (found: bool)
    requires
        at + needle.len() <= haystack.len(),
    ensures
        found == occurs_at(haystack@, needle@, at as int),
{
    let mut i: usize = 0;
    while i < needle.len()
        invariant
            i <= needle.len(),
            at + needle.len() <= haystack.len(),
            forall|j: int| 0 <= j < i ==> haystack@[at + j] == needle@[j],
        decreases needle.len() - i,
    {
        if haystack[at + i] != needle[i] {
            return false;
        }
        i += 1;
    }
    assert(haystack@.subrange(at as int, at + needle.len()) =~= needle@);
    true
}

/// Tells whether `needle` stands somewhere in `haystack`.
pub fn contains_text(haystack: &str, needle: &str) -> (found: bool)
    ensures
        found == occurs_in(haystack@, needle@),
{
    let hay = chars_of(haystack);
    let pin = chars_of(needle);
    if pin.len() > hay.len() {
        return false;
    }
    let last: usize = hay.len() - pin.len();
    let mut at: usize = 0;
    while at < last
        invariant
            at <= last,
            last == hay.len() - pin.len(),
            pin.len() <= hay.len(),
            hay@ == haystack@,
            pin@ == needle@,
            forall|k: int| 0 <= k < at ==> !occurs_at(hay@, pin@, k),
        decreases last - at,
    {
        if matches_at(&hay, &pin, at) {
            return true;
        }
        at += 1;
    }
    matches_at(&hay, &pin, last)
}

/// The program is registered: the query succeeded and what it printed holds
/// the path of the program.
pub open spec fn registered(query_succeeded: bool, output: Seq<char>, exe_path: Seq<char>) -> bool {
    query_succeeded && occurs_in(output, exe_path)
}

/// Tells from the answer to the registry query whether the program at
/// `exe_path` is registered.
pub fn check_autostart(query_succeeded: bool, output: &str, exe_path: &str) -> (found: bool)
    ensures
        found == registered(query_succeeded, output@, exe_path@),
{
    query_succeeded && contains_text(output, exe_path)
}

/// What the enforcement loop does after a look at the registration.
#[derive(Clone, Copy, Debug, PartialEq, Eq, Structural)]
pub enum AutostartAction {
    /// Leave the registration as it is.
    Keep,
    /// Register the program again.
    Register,
}

/// Decides what follows a look at the registration: `Some(true)` where the
/// program is registered, `Some(false)` where it is not, and `None` where the
/// query could not be made. The program is registered again only where the
/// query said that it is not.
pub fn autostart_action(check: Option<bool>) -> (action: AutostartAction)
    ensures
        action == AutostartAction::Register <==> check == Some(false),
        action == AutostartAction::Keep <==> check != Some(false),
{
    match check {
        Some(false) => AutostartAction::Register,
        _ => AutostartAction::Keep,
    }
}

/// The UTF-16 code units of one character.
pub open spec fn utf16_units(c: char) -> Seq<u16> {
    let code = c as u32;
    if code < 0x1_0000 {
        seq![code as u16]
    } else {
        seq![
            (0xD800 + (code - 0x1_0000) / 0x400) as u16,
            (0xDC00 + (code - 0x1_0000) % 0x400) as u16,
        ]
    }
}

/// The UTF-16 code units of a text.
pub open spec fn utf16_of(text: Seq<char>) -> Seq<u16>
    decreases text.len(),
{
    if text.len() == 0 {
        Seq::empty()
    } else {
        utf16_of(text.drop_last()) + utf16_units(text.last())
    }
}

/// A text as the operating system takes it: its UTF-16 code units and a zero
/// at the end.
pub open spec fn wide_string_of(text: Seq<char>) -> Seq<u16> {
    utf16_of(text).push(0)
}

/// Writes `s` in UTF-16 with a zero at the end.
pub fn to_wide_string(s: &str) -> (wide: Vec<u16>)
    ensures
        wide@ == wide_string_of(s@),
{
    let chars = chars_of(s);
    let mut wide: Vec<u16> = Vec::new();
    let mut i: usize = 0;
    while i < chars.len()
        invariant
            i <= chars.len(),
            wide@ == utf16_of(chars@.take(i as int)),
        decreases chars.len() - i,
    {
        let code: u32 = chars[i] as u32;
        assert(chars@.take(i + 1).drop_last() == chars@.take(i as int));
        if code < 0x1_0000 {
            wide.push(code as u16);
        } else {
            let rest: u32 = code - 0x1_0000;
            wide.push((0xD800 + rest / 0x400) as u16);
            wide.push((0xDC00 + rest % 0x400) as u16);
        }
        i += 1;
    }
    assert(chars@.take(i as int) == chars@);
    wide.push(0);
    wide
}

/// Tells whether the name of a process image, as the operating system hands
/// it out in a buffer, is `wide_name`: the buffer starts with the code units
/// of `wide_name`.
pub fn image_name_matches(image: &Vec<u16>, wide_name: &Vec<u16>) -> (same: bool)
    ensures
        same == (wide_name@.len() <= image@.len() && image@.take(wide_name@.len() as int)
            == wide_name@),
{
    if wide_name.len() > image.len() {
        return false;
    }
    let mut i: usize = 0;
    while i < wide_name.len()
        invariant
            i <= wide_name.len() <= image.len(),
            forall|j: int| 0 <= j < i ==> image@[j] == wide_name@[j],
        decreases wide_name.len() - i,
    {
        if image[i] != wide_name[i] {
            return false;
        }
        i += 1;
    }
    assert(image@.take(wide_name@.len() as int) =~= wide_name@);
    true
}

} // verus!
