//! Classification of functions by their bound name.
use vstd::prelude::*;
use vstd::string::*;

verus! {

/// What `char::is_uppercase` answers for a character (the Unicode
/// `Uppercase` property).
pub uninterp spec fn upper_char(c: char) -> bool;

/// Relies on `char::is_uppercase`: its answer depends on the character alone.
#[verifier::external_body]
fn char_is_uppercase(c: char) -> (r: bool)
    ensures
        r == upper_char(c),
{
    c.is_uppercase()
}

/// A component name starts with an uppercase character.
pub open spec fn component_name(s: Seq<char>) -> bool {
    s.len() > 0 && upper_char(s[0])
}

/// A hook name is `use` followed by an uppercase character (and anything after).
pub open spec fn hook_name(s: Seq<char>) -> bool {
    &&& s.len() > 3
    &&& s[0] == 'u'
    &&& s[1] == 's'
    &&& s[2] == 'e'
    &&& upper_char(s[3])
}

/// Whether `name` looks like a UI component.
pub fn is_component_name(name: &str) -> (r: bool)
    ensures
        r == component_name(name@),
{
    let n = name.unicode_len();
    if n == 0 {
        false
    } else {
        char_is_uppercase(name.get_char(0))
    }
}

/// Whether `name` looks like a hook.
pub fn is_hook_name(name: &str) -> (r: bool)
    ensures
        r == hook_name(name@),
{
    let n = name.unicode_len();
    if n <= 3 {
        return false;
    }
    if name.get_char(0) != 'u' || name.get_char(1) != 's' || name.get_char(2) != 'e' {
        return false;
    }
    char_is_uppercase(name.get_char(3))
}

} // verus!
