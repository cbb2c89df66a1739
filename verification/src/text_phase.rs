//! The string phase: grow a text buffer by appending one constant character
//! at a time.  The result is pinned down completely: its length is the
//! requested count and every character is `'a'`.

use vstd::prelude::*;

verus! {

/// The character the phase appends.
pub const FILL_CHAR: char = 'a';

/// Relies on std's String::with_capacity: it returns an empty string (the
/// capacity only pre-sizes the allocation).
#[verifier::external_body]
pub(crate) fn string_with_capacity(capacity: usize) -> (r: String)
    ensures
        r@ =~= Seq::<char>::empty(),
{
    String::with_capacity(capacity)
}

/// Relies on std's String::push: it appends the given character to the end
/// of the string.
#[verifier::external_body]
pub(crate) fn push_char(s: &mut String, c: char)
    ensures
        final(s)@ == old(s)@.push(c),
{
    s.push(c)
}

/// Build the phase's text: `count` repetitions of the fill character,
/// appended one at a time to a buffer pre-sized to the final length.
pub fn build_text(count: usize) -> (r: String)
    ensures
        r@.len() == count,
        forall|i: int| 0 <= i < count ==> r@[i] == FILL_CHAR,
{
    let mut s = string_with_capacity(count);
    let mut i: usize = 0;
    while i < count
        invariant
            i <= count,
            s@.len() == i,
            forall|j: int| 0 <= j < i ==> s@[j] == FILL_CHAR,
        decreases count - i,
    {
        push_char(&mut s, FILL_CHAR);
        i = i + 1;
    }
    s
}

} // verus!
