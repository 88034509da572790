//! The regular-expression engine behind the extraction rules. Nothing
//! here is proved: each function states what the `regex` crate documents,
//! and what it computes is known only by name.

use vstd::prelude::*;

verus! {

/// `regex::Regex`, a compiled regular expression; nothing of its inside
/// is known here.
#[verifier::external_type_specification]
#[verifier::external_body]
pub struct ExRegex(regex::Regex);

/// One capture group of one match: the byte offset at which it starts in
/// the searched text, and the text it matched.
pub type Capture = (usize, String);

/// The pattern text that a compiled expression was built from.
pub uninterp spec fn pattern_text(re: regex::Regex) -> Seq<char>;

/// Whether the engine accepts a pattern.
pub uninterp spec fn pattern_accepted(pattern: Seq<char>) -> bool;

/// For each successive non-overlapping match of `pattern` in `text`, what
/// capture group `group` holds: its start as a byte offset into the UTF-8
/// encoding of `text` and the text it matched, or nothing where the group
/// took no part in the match.
pub uninterp spec fn all_captures(pattern: Seq<char>, text: Seq<char>, group: nat) -> Seq<
    Option<(nat, Seq<char>)>,
>;

/// The text that capture group `group` holds in the first match of
/// `pattern` in `text`, if there is a match and the group took part in it.
pub uninterp spec fn first_capture(pattern: Seq<char>, text: Seq<char>, group: nat) -> Option<
    Seq<char>,
>;

/// The mathematical content of a list of captures.
pub open spec fn captures_view(caps: Seq<Option<Capture>>) -> Seq<Option<(nat, Seq<char>)>> {
    Seq::new(
        caps.len(),
        |i: int|
            match caps[i] {
                Some(c) => Some((c.0 as nat, c.1@)),
                None => None,
            },
    )
}

/// `regex::Regex::new`: compiles a pattern. The engine either refuses the
/// pattern or hands back an expression that remembers the pattern's text.
#[verifier::external_body]
pub(crate) fn compile(pattern: &str) -> (r: Option<regex::Regex>)
    ensures
        r is Some <==> pattern_accepted(pattern@),
        r matches Some(re) ==> pattern_text(re) == pattern@,
{
    regex::Regex::new(pattern).ok()
}

/// `regex::Regex::captures_iter`: every match in order, each handed out
/// as what one capture group holds. The result depends on the pattern and
/// the text alone.
#[verifier::external_body]
pub(crate) fn capture_all(re: &regex::Regex, text: &str, group: usize) -> (r: Vec<Option<Capture>>)
    ensures
        captures_view(r@) == all_captures(pattern_text(*re), text@, group as nat),
{
    re.captures_iter(text)
        .map(|c| c.get(group).map(|m| (m.start(), m.as_str().to_string())))
        .collect()
}

/// `regex::Regex::captures`: the first match only, handed out as the
/// text of one capture group.
#[verifier::external_body]
pub(crate) fn capture_first(re: &regex::Regex, text: &str, group: usize) -> (r: Option<String>)
    ensures
        r.deep_view() == first_capture(pattern_text(*re), text@, group as nat),
{
    re.captures(text).and_then(|c| c.get(group)).map(|m| m.as_str().to_string())
}

} // verus!
