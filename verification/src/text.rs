//! Source text as a sequence of fragments: single tokens, or longer pieces
//! carried over from the input as they were written.

use vstd::prelude::*;
use vstd::string::StringExecFns;

verus! {

/// The fragments that a vector of strings holds.
pub open spec fn texts(parts: Seq<String>) -> Seq<Seq<char>> {
    parts.map_values(|part: String| part@)
}

/// The text of a sequence of fragments: each fragment in turn, with one space
/// after it.
pub open spec fn spaced(fragments: Seq<Seq<char>>) -> Seq<char>
    decreases fragments.len(),
{
    if fragments.len() == 0 {
        Seq::empty()
    } else {
        spaced(fragments.drop_last()) + fragments.last() + seq![' ']
    }
}

/// Adds one fragment to the end of `parts`.
pub fn push_text(parts: &mut Vec<String>, text: &str)
    ensures
        texts(final(parts)@) == texts(old(parts)@).push(text@),
{
    parts.push(String::from_str(text));
    assert(texts(parts@) =~= texts(old(parts)@).push(text@));
}

/// Writes the fragments out as one text.
pub fn join(parts: &Vec<String>) -> (text: String)
    ensures
        text@ == spaced(texts(parts@)),
{
    let mut text = String::new();
    let mut done: usize = 0;
    while done < parts.len()
        invariant
            done <= parts.len(),
            text@ == spaced(texts(parts@).take(done as int)),
        decreases parts.len() - done,
    {
        text.append(parts[done].as_str());
        text.append(" ");
        proof {
            reveal_strlit(" ");
            let fragments = texts(parts@);
            assert(fragments.take(done + 1).drop_last() =~= fragments.take(done as int));
            assert(" "@ =~= seq![' ']);
        }
        done += 1;
    }
    assert(texts(parts@).take(parts.len() as int) =~= texts(parts@));
    text
}

} // verus!
