//! Small operations on strings that the descriptions are built from.

use vstd::prelude::*;
use vstd::string::StringExecFns;

verus! {

/// Whether `text` is the string `word`.
pub fn is_word(text: &String, word: &str) -> (same: bool)
    ensures
        same == (text@ == word@),
{
    let other = String::from_str(word);
    *text == other
}

/// The parts in their order, with the separator between each two of them.
pub open spec fn joined(parts: Seq<Seq<char>>, separator: Seq<char>) -> Seq<char>
    decreases parts.len(),
{
    if parts.len() == 0 {
        Seq::empty()
    } else if parts.len() == 1 {
        parts[0]
    } else {
        joined(parts.drop_last(), separator) + separator + parts.last()
    }
}

/// One more part comes after a separator, unless it is the first.
pub proof fn lemma_joined_step(parts: Seq<Seq<char>>, separator: Seq<char>, n: int)
    requires
        0 <= n < parts.len(),
    ensures
        joined(parts.take(n + 1), separator) == if n == 0 {
            parts[0]
        } else {
            joined(parts.take(n), separator) + separator + parts[n]
        },
{
    assert(parts.take(n + 1).drop_last() =~= parts.take(n));
}

/// Joins `part` to `text`, after `separator` unless it is the first of the
/// parts of `text`.
pub fn join_next(text: &mut String, first: bool, separator: &str, part: &str)
    ensures
        final(text)@ == if first {
            old(text)@ + part@
        } else {
            old(text)@ + separator@ + part@
        },
{
    if !first {
        text.append(separator);
    }
    text.append(part);
}

} // verus!
