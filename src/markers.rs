//! Opt-in and opt-out annotations in comments next to a function.
use vstd::prelude::*;

verus! {

/// Whether `pattern` compiles as a regular expression and finds a match
/// somewhere in `text`, as the `regex` crate decides.
pub uninterp spec fn regex_finds(pattern: Seq<char>, text: Seq<char>) -> bool;

#[verifier::external_type_specification]
#[verifier::external_body]
pub struct ExRegex(regex::Regex);

/// A pattern, compiled once. Only [`compile_marker`] builds one, so the
/// compiled form always belongs to the pattern kept beside it.
pub struct Marker {
    pattern: String,
    compiled: Option<regex::Regex>,
}

impl Marker {
    /// The pattern this marker was compiled from.
    pub closed spec fn pattern(&self) -> Seq<char> {
        self.pattern@
    }
}

/// Relies on `regex::Regex::new`: compiles `pattern`, keeping no compiled
/// form when it does not compile.
#[verifier::external_body]
pub fn compile_marker(pattern: &str) -> (r: Marker)
    ensures
        r.pattern() == pattern@,
{
    Marker { pattern: pattern.to_string(), compiled: regex::Regex::new(pattern).ok() }
}

/// Relies on `regex::Regex::is_match`: whether the compiled pattern finds a
/// match in `text` depends on the pattern and the text alone; a pattern that
/// did not compile finds nothing.
#[verifier::external_body]
fn marker_finds(m: &Marker, text: &str) -> (r: bool)
    ensures
        r == regex_finds(m.pattern(), text@),
{
    match &m.compiled {
        Some(re) => re.is_match(text),
        None => false,
    }
}

/// The opt-out marker: `@noUseSignals` or `@noTrackSignals` as a token of its own.
pub const OPT_OUT_COMMENT: &'static str = r"(^|\s)@no(Use|Track)Signals(\s|$)";

/// The opt-in marker: `@useSignals` or `@trackSignals` as a token of its own.
pub const OPT_IN_COMMENT: &'static str = r"(^|\s)@(use|track)Signals(\s|$)";

/// Whether a comment text holds the opt-out marker.
pub fn opt_out_comment_matches(text: &str) -> (r: bool)
    ensures
        r == regex_finds(OPT_OUT_COMMENT@, text@),
{
    marker_finds(&compile_marker(OPT_OUT_COMMENT), text)
}

/// Whether a comment text holds the opt-in marker.
pub fn opt_in_comment_matches(text: &str) -> (r: bool)
    ensures
        r == regex_finds(OPT_IN_COMMENT@, text@),
{
    marker_finds(&compile_marker(OPT_IN_COMMENT), text)
}

/// A comment and the source position that it is attached to.
#[derive(Clone, Debug, PartialEq, Eq)]
pub struct Comment {
    pub pos: u32,
    pub text: String,
}

/// The comments of a module: those that lead the token at their position, and
/// those that trail the token before it.
#[derive(Clone, Debug, PartialEq, Eq)]
pub struct Comments {
    pub leading: Vec<Comment>,
    pub trailing: Vec<Comment>,
}

/// Some comment of `cs` at `pos` matches `pattern`.
pub open spec fn marked_in(cs: Seq<Comment>, pos: u32, pattern: Seq<char>) -> bool {
    exists|i: int| 0 <= i < cs.len() && cs[i].pos == pos && regex_finds(pattern, cs[i].text@)
}

/// A leading or trailing comment at `pos` matches `pattern`; with no comments
/// at hand, nothing does.
pub open spec fn marked(comments: Option<Comments>, pos: u32, pattern: Seq<char>) -> bool {
    match comments {
        None => false,
        Some(c) => marked_in(c.leading@, pos, pattern) || marked_in(c.trailing@, pos, pattern),
    }
}

fn any_marked(cs: &Vec<Comment>, pos: u32, marker: &Marker) -> (r: bool)
    ensures
        r == marked_in(cs@, pos, marker.pattern()),
{
    let mut i: usize = 0;
    while i < cs.len()
        invariant
            i <= cs@.len(),
            forall|j: int|
                0 <= j < i ==> !(cs@[j].pos == pos && regex_finds(marker.pattern(), cs@[j].text@)),
        decreases cs.len() - i,
    {
        if cs[i].pos == pos && marker_finds(marker, cs[i].text.as_str()) {
            return true;
        }
        i += 1;
    }
    false
}

/// Whether a comment at `pos` matches the pattern of `marker`.
pub fn has_marker(comments: &Option<Comments>, pos: u32, marker: &Marker) -> (r: bool)
    ensures
        r == marked(*comments, pos, marker.pattern()),
{
    match comments {
        None => false,
        Some(c) => any_marked(&c.leading, pos, marker) || any_marked(&c.trailing, pos, marker),
    }
}

} // verus!
