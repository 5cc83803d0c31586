//! Texts as words, one behind the other.

use vstd::prelude::*;

verus! {

/// Whether the word stands in the text at `at`.
pub open spec fn is_at(text: Seq<char>, at: int, word: Seq<char>) -> bool {
    &&& 0 <= at
    &&& at + word.len() <= text.len()
    &&& forall|k: int| 0 <= k < word.len() ==> text[at + k] == #[trigger] word[k]
}

/// Words, one behind the other.
pub enum Words {
    End,
    Word(Seq<char>, Box<Words>),
}

/// A word before others.
pub open spec fn word(first: Seq<char>, rest: Words) -> Words {
    Words::Word(first, Box::new(rest))
}

/// Whether the text from `at` on is the words, and nothing else.
pub open spec fn spells(text: Seq<char>, at: int, words: Words) -> bool
    decreases words,
{
    match words {
        Words::End => at == text.len(),
        Words::Word(first, rest) => is_at(text, at, first) && spells(text, at + first.len(), *rest),
    }
}

/// Whether the line from `at` on is the words before the rest.
pub open spec fn begins(line: Seq<char>, at: int, words: Words, rest: Words) -> bool
    decreases words,
{
    ||| at == line.len() && words == rest
    ||| match words {
        Words::End => false,
        Words::Word(first, later) => is_at(line, at, first) && begins(
            line,
            at + first.len(),
            *later,
            rest,
        ),
    }
}

/// Where a line stands in a text, its words stand there too.
pub proof fn lemma_begins(
    line: Seq<char>,
    at: int,
    words: Words,
    rest: Words,
    text: Seq<char>,
    start: int,
)
    requires
        begins(line, at, words, rest),
        is_at(text, start, line),
        spells(text, start + line.len(), rest),
        0 <= at,
    ensures
        spells(text, start + at, words),
    decreases words,
{
    if !(at == line.len() && words == rest) {
        let first = words->0;
        lemma_begins(line, at + first.len() as int, *words->1, rest, text, start);
        assert forall|k: int| 0 <= k < first.len() implies text[start + at + k]
            == #[trigger] first[k] by {
            assert(line[at + k] == first[k]);
            assert(text[start + (at + k)] == line[at + k]);
        }
    }
}

} // verus!
