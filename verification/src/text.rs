//! Cleaning the names that clients send.

use vstd::prelude::*;

verus! {

/// `name` without its double quotes.
pub open spec fn without_quotes(name: Seq<char>) -> Seq<char> {
    name.filter(|c: char| c != '"')
}

/// A name comes to nothing without its double quotes if and only if it
/// holds nothing else.
pub proof fn nothing_but_quotes(name: Seq<char>)
    ensures
        without_quotes(name).len() == 0 <==> forall|i: int|
            0 <= i < name.len() ==> name[i] == '"',
    decreases name.len(),
{
    reveal(Seq::filter);
    if name.len() > 0 {
        let earlier = name.drop_last();
        nothing_but_quotes(earlier);
        if without_quotes(name).len() == 0 {
            assert forall|i: int| 0 <= i < name.len() implies name[i] == '"' by {
                if i < name.len() - 1 {
                    assert(earlier[i] == name[i]);
                }
            }
        }
        if forall|i: int| 0 <= i < name.len() ==> name[i] == '"' {
            assert forall|i: int| 0 <= i < earlier.len() implies earlier[i] == '"' by {
                assert(earlier[i] == name[i]);
            }
            assert(name.last() == name[name.len() - 1]);
        }
    }
}

/// `String::push`: appends one character to a string.
#[verifier::external_body]
fn push_char(text: &mut String, c: char)
    ensures
        final(text)@ == old(text)@.push(c),
{
    text.push(c);
}

/// Strips the double quotes that a name arrives with, or holds.
pub fn strip_quotes(name: &str) -> (clean: String)
    ensures
        clean@ == without_quotes(name@),
{
    let mut clean = String::new();
    let length = name.unicode_len();
    let mut i: usize = 0;
    assert(name@.take(0) =~= Seq::<char>::empty());
    while i < length
        invariant
            length == name@.len(),
            i <= length,
            clean@ == without_quotes(name@.take(i as int)),
        decreases length - i,
    {
        let c = name.get_char(i);
        proof {
            reveal(Seq::filter);
            assert(name@.take(i + 1).drop_last() =~= name@.take(i as int));
        }
        if c != '"' {
            push_char(&mut clean, c);
        }
        i += 1;
    }
    assert(name@.take(length as int) =~= name@);
    clean
}

} // verus!
