//! The textual conventions of the pass: how a name marks a component or a
//! hook, and how a comment carries a directive. The matching itself is done
//! by the `regex` crate.

use regex::Regex;
use vstd::prelude::*;

verus! {

/// A character with the Unicode property `White_Space`.
pub open spec fn is_white_space(c: char) -> bool {
    let n = c as u32;
    ||| 0x09 <= n <= 0x0d
    ||| n == 0x20
    ||| n == 0x85
    ||| n == 0xa0
    ||| n == 0x1680
    ||| 0x2000 <= n <= 0x200a
    ||| 0x2028 <= n <= 0x2029
    ||| n == 0x202f
    ||| n == 0x205f
    ||| n == 0x3000
}

/// One of the letters `A` to `Z`.
pub open spec fn is_ascii_upper(c: char) -> bool {
    'A' <= c <= 'Z'
}

/// The name starts with a capital letter, as the name of a component does.
pub open spec fn starts_like_component(name: Seq<char>) -> bool {
    name.len() >= 1 && is_ascii_upper(name[0])
}

/// The name starts with `use` and a capital letter, as the name of a hook
/// does.
pub open spec fn starts_like_hook(name: Seq<char>) -> bool {
    &&& name.len() >= 4
    &&& name[0] == 'u'
    &&& name[1] == 's'
    &&& name[2] == 'e'
    &&& is_ascii_upper(name[3])
}

/// `marker` stands in `text` at position `at`, with white space or an end of
/// the text on either side.
pub open spec fn marker_at(text: Seq<char>, marker: Seq<char>, at: int) -> bool {
    &&& 0 <= at
    &&& at + marker.len() <= text.len()
    &&& text.subrange(at, at + marker.len()) == marker
    &&& (at == 0 || is_white_space(text[at - 1]))
    &&& (at + marker.len() == text.len() || is_white_space(text[at + marker.len()]))
}

/// `marker` stands somewhere in `text` as a word of its own.
pub open spec fn has_marker(text: Seq<char>, marker: Seq<char>) -> bool {
    exists|at: int| marker_at(text, marker, at)
}

/// The marker that opts a declaration in.
pub open spec fn opt_in_marker() -> Seq<char> {
    "@useSignals"@
}

/// The marker that opts a declaration out.
pub open spec fn opt_out_marker() -> Seq<char> {
    "@noUseSignals"@
}

/// Compiles `pattern` with `regex::Regex::new` and searches `haystack` with
/// `regex::Regex::is_match`; `None` where the pattern does not compile.
///
/// The contract states what the search finds for the four patterns that this
/// library uses, read off the syntax that the `regex` crate documents: `^` and
/// `$` are the ends of the haystack, `[A-Z]` is one of those 26 letters, and
/// `\s` is a character with the property `White_Space`. Nothing is claimed
/// for any other pattern.
#[verifier::external_body]
fn regex_is_match(pattern: &str, haystack: &str) -> (found: Option<bool>)
    ensures
        pattern@ == "^[A-Z]"@ ==> found == Some(starts_like_component(haystack@)),
        pattern@ == "^use[A-Z]"@ ==> found == Some(starts_like_hook(haystack@)),
        pattern@ == "(\\s|^)@useSignals(\\s|$)"@ ==> found == Some(
            has_marker(haystack@, opt_in_marker()),
        ),
        pattern@ == "(\\s|^)@noUseSignals(\\s|$)"@ ==> found == Some(
            has_marker(haystack@, opt_out_marker()),
        ),
{
    match Regex::new(pattern) {
        Ok(re) => Some(re.is_match(haystack)),
        Err(_) => None,
    }
}

/// Whether `name` is spelled like the name of a component.
pub fn is_component_name(name: &str) -> (r: bool)
    ensures
        r == starts_like_component(name@),
{
    match regex_is_match("^[A-Z]", name) {
        Some(found) => found,
        None => false,
    }
}

/// Whether `name` is spelled like the name of a hook.
pub fn is_hook_name(name: &str) -> (r: bool)
    ensures
        r == starts_like_hook(name@),
{
    match regex_is_match("^use[A-Z]", name) {
        Some(found) => found,
        None => false,
    }
}

/// Whether the text of a comment holds the marker that opts a declaration in.
pub fn is_track_signals_directive(text: &str) -> (r: bool)
    ensures
        r == has_marker(text@, opt_in_marker()),
{
    match regex_is_match("(\\s|^)@useSignals(\\s|$)", text) {
        Some(found) => found,
        None => false,
    }
}

/// Whether the text of a comment holds the marker that opts a declaration
/// out.
pub fn is_no_track_signals_directive(text: &str) -> (r: bool)
    ensures
        r == has_marker(text@, opt_out_marker()),
{
    match regex_is_match("(\\s|^)@noUseSignals(\\s|$)", text) {
        Some(found) => found,
        None => false,
    }
}

} // verus!
