//! Text operations of the standard library that the rest of the crate relies
//! on, each with the contract it is trusted to meet, and a few verified
//! helpers built on them.

use vstd::prelude::*;

verus! {

/// `text` without its leading and trailing whitespace, as `str::trim` returns
/// it. Which characters count as whitespace is the standard library's matter
/// and is left unstated here.
pub uninterp spec fn trimmed(text: Seq<char>) -> Seq<char>;

/// Trusted: `str::trim` returns the slice named by [`trimmed`]; the result
/// depends on the characters of the input and on nothing else.
pub assume_specification[ str::trim ](text: &str) -> (r: &str)
    ensures
        r@ == trimmed(text@),
;

/// Trusted: `String::push` appends one character at the end.
pub assume_specification[ String::push ](text: &mut String, c: char)
    ensures
        final(text)@ == old(text)@.push(c),
;

/// Trusted: `String::pop` removes the last character and returns it, and
/// returns `None` on an empty string, which it leaves empty.
pub assume_specification[ String::pop ](text: &mut String) -> (r: Option<char>)
    ensures
        old(text)@.len() == 0 ==> {
            &&& r is None
            &&& final(text)@ == old(text)@
        },
        old(text)@.len() > 0 ==> {
            &&& r == Some(old(text)@.last())
            &&& final(text)@ == old(text)@.drop_last()
        },
;

/// Trusted: `String::clear` removes every character.
pub assume_specification[ String::clear ](text: &mut String)
    ensures
        final(text)@ == Seq::<char>::empty(),
;

/// Trusted: `str::strip_prefix` returns what follows `prefix` where `text`
/// starts with it, and `None` where it does not.
#[verifier::external_body]
pub(crate) fn strip_prefix<'a>(text: &'a str, prefix: &str) -> (r: Option<&'a str>)
    ensures
        match r {
            Some(rest) => text@ == prefix@ + rest@,
            None => !prefix@.is_prefix_of(text@),
        },
{
    text.strip_prefix(prefix)
}

/// The characters of `text`, in order.
pub fn chars_of(text: &str) -> (r: Vec<char>)
    ensures
        r@ == text@,
{
    broadcast use vstd::string::group_string_axioms;

    let mut r: Vec<char> = Vec::new();
    for c in it: text.chars()
        invariant
            it.seq() == text@,
            r@ == text@.take(it.index()),
    {
        r.push(c);
        assert(r@ =~= text@.take(it.index() + 1));
    }
    assert(text@.take(text@.len() as int) =~= text@);
    r
}

} // verus!
