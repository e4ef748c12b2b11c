//! Small text predicates shared by the plan builder.

use vstd::prelude::*;

verus! {

/// Whether the character sequence contains a brace anywhere.
///
/// A literal-override string with a brace is treated as an interpolation
/// template; one without is emitted verbatim.
pub open spec fn has_brace(s: Seq<char>) -> bool {
    exists|i: int| 0 <= i < s.len() && (s[i] == '{' || s[i] == '}')
}

/// Returns `true` when the string must be run through interpolated formatting:
/// a deliberately simple substring test, not a paired-brace validation. Any
/// brace anywhere switches the literal into interpolation mode.
pub fn needs_formatting(s: &str) -> (r: bool)
    ensures
        r == has_brace(s@),
{
    let len: usize = s.unicode_len();
    let mut i: usize = 0;
    while i < len
        invariant
            len == s@.len(),
            0 <= i <= len,
            forall|j: int| 0 <= j < i ==> !(s@[j] == '{' || s@[j] == '}'),
        decreases len - i,
    {
        let c = s.get_char(i);
        if c == '{' || c == '}' {
            return true;
        }
        i = i + 1;
    }
    false
}

/// Compares a runtime string against a fixed name, by content.
pub fn string_is(s: &String, lit: &str) -> (r: bool)
    ensures
        r == (s@ == lit@),
{
    *s == lit.to_owned()
}

} // verus!
