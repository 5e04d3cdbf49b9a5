//! The grammar of the names that may stand in a statement.

use vstd::prelude::*;

verus! {

/// Whether Unicode counts `c` as alphabetic, as `char::is_alphabetic` reports
/// it.
pub uninterp spec fn alphabetic(c: char) -> bool;

/// `char::is_alphabetic` of std. Believed, not proved: the answer depends on
/// the character alone, and is what [`alphabetic`] names.
pub assume_specification[ char::is_alphabetic ](c: char) -> (b: bool)
    ensures
        b == alphabetic(c),
;

/// The digits: `0` to `9`.
pub open spec fn digit(c: char) -> bool {
    '0' <= c <= '9'
}

/// A name may begin with a letter or an underscore. `letter` tells whether
/// `c` is a letter.
pub open spec fn begins(c: char, letter: bool) -> bool {
    letter || c == '_'
}

/// After its first character a name may go on with letters, digits,
/// underscores and dollar signs. `letter` tells whether `c` is a letter.
pub open spec fn continues(c: char, letter: bool) -> bool {
    letter || digit(c) || c == '_' || c == '$'
}

/// The names that are accepted for a schema or a table. The letters are the
/// characters that are [`alphabetic`].
pub open spec fn valid_identifier(name: Seq<char>) -> bool {
    &&& name.len() > 0
    &&& begins(name[0], alphabetic(name[0]))
    &&& forall|i: int| 1 <= i < name.len() ==> continues(#[trigger] name[i], alphabetic(name[i]))
}

/// Tells whether a name may begin with `c`, a character that is a letter
/// or not as `letter` says.
pub fn begins_name(c: char, letter: bool) -> (may: bool)
    ensures
        may == begins(c, letter),
{
    letter || c == '_'
}

/// Tells whether a name may go on with `c`, a character that is a letter or
/// not as `letter` says.
pub fn continues_name(c: char, letter: bool) -> (may: bool)
    ensures
        may == continues(c, letter),
{
    letter || ('0' <= c && c <= '9') || c == '_' || c == '$'
}

/// Tells whether `name` may stand, between double quotes, for a schema or a
/// table.
pub fn is_valid_identifier(name: &str) -> (valid: bool)
    ensures
        valid == valid_identifier(name@),
{
    let mut first = true;
    for c in it: name.chars()
        invariant
            it.seq() == name@,
            first == (it.index() == 0),
            !first ==> begins(name@[0], alphabetic(name@[0])),
            forall|i: int|
                1 <= i < it.index() ==> continues(#[trigger] name@[i], alphabetic(name@[i])),
    {
        if first {
            if !begins_name(c, c.is_alphabetic()) {
                return false;
            }
            first = false;
        } else if !continues_name(c, c.is_alphabetic()) {
            return false;
        }
    }
    !first
}

} // verus!
