//! Crossword puzzle material: a square of across and down words, built by
//! transposing a chosen row set, loaded from a JSON word list and chosen
//! at random.

use vstd::prelude::*;

use crate::text::push_char;

verus! {

/// A square of crossword words: the across words row by row and the down
/// words column by column.
#[derive(Clone)]
pub struct Square {
    pub across: Vec<String>,
    pub down: Vec<String>,
}

/// `sq` is the square whose across words are exactly `rows` and whose
/// five down words read the rows' columns: the `i`-th down word is the
/// `i`-th character of every row in order.
pub open spec fn square_of_rows(sq: Square, rows: Seq<String>) -> bool {
    &&& sq.across@ == rows
    &&& sq.down@.len() == 5
    &&& forall|i: int|
        0 <= i < 5 ==> #[trigger] sq.down@[i]@ == Seq::new(rows.len(), |j: int| rows[j]@[i])
}

impl Square {
    /// Assemble a square from its across and down words.
    pub fn new(across: &[String], down: &[String]) -> (r: Square)
        ensures
            r.across@ == across@,
            r.down@ == down@,
    {
        Square { across: clone_words(across), down: clone_words(down) }
    }

    /// Build a square from its rows alone: the across words are the rows,
    /// and each of the five down words collects one column of characters
    /// across all rows. Every row must be at least five characters long.
    pub fn from_single(data: &[String]) -> (r: Square)
        requires
            forall|j: int| 0 <= j < data@.len() ==> (#[trigger] data@[j])@.len() >= 5,
        ensures
            square_of_rows(r, data@),
    {
        let rows = data.len();
        let mut down: Vec<String> = Vec::new();
        let mut i: usize = 0;
        while i < 5
            invariant
                i <= 5,
                rows == data@.len(),
                forall|j: int| 0 <= j < data@.len() ==> (#[trigger] data@[j])@.len() >= 5,
                down@.len() == i,
                forall|k: int|
                    0 <= k < i ==> #[trigger] down@[k]@ == Seq::new(
                        data@.len(),
                        |j: int| data@[j]@[k],
                    ),
            decreases 5 - i,
        {
            let mut word = String::new();
            let mut j: usize = 0;
            while j < rows
                invariant
                    j <= rows,
                    rows == data@.len(),
                    i < 5,
                    forall|jj: int| 0 <= jj < data@.len() ==> (#[trigger] data@[jj])@.len() >= 5,
                    word@.len() == j,
                    forall|jj: int| 0 <= jj < j ==> word@[jj] == data@[jj]@[i as int],
                decreases rows - j,
            {
                let c = data[j].get_char(i);
                push_char(&mut word, c);
                j += 1;
            }
            proof {
                assert(word@ =~= Seq::new(data@.len(), |jj: int| data@[jj]@[i as int]));
            }
            down.push(word);
            i += 1;
        }
        Square { across: clone_words(data), down }
    }
}

/// Clone a list of words.
fn clone_words(words: &[String]) -> (r: Vec<String>)
    ensures
        r@ == words@,
{
    let mut out: Vec<String> = Vec::new();
    let mut i: usize = 0;
    while i < words.len()
        invariant
            i <= words@.len(),
            out@ == words@.subrange(0, i as int),
        decreases words@.len() - i,
    {
        out.push(words[i].clone());
        proof {
            assert(out@ =~= words@.subrange(0, i as int + 1));
        }
        i += 1;
    }
    proof {
        assert(out@ =~= words@);
    }
    out
}

/// What the word-list text parses to, when it parses: the lists of rows,
/// as character sequences.
pub uninterp spec fn json_word_lists(s: Seq<char>) -> Option<Seq<Seq<Seq<char>>>>;

/// Parse a word-list document: a JSON array of arrays of strings.
/// Relies on serde_json::from_str, which returns the parsed value exactly
/// when the text is such a document; what it parses to is a function of
/// the text alone.
#[verifier::external_body]
pub fn load(text: &str) -> (r: Option<Vec<Vec<String>>>)
    ensures
        match r {
            Option::Some(v) => json_word_lists(text@) == Some(v.deep_view()),
            Option::None => json_word_lists(text@) is None,
        },
{
    match serde_json::from_str::<Vec<Vec<String>>>(text) {
        Ok(v) => Some(v),
        Err(_) => None,
    }
}

/// Relies on rand::random_range: a sample from `0..n` lies below `n`.
/// The sample is random, so nothing more is promised of it.
#[verifier::external_body]
fn random_below(n: usize) -> (r: usize)
    requires
        1 <= n,
    ensures
        r < n,
{
    rand::random_range(0..n)
}

/// Build a puzzle square from one of the given row sets, chosen at
/// random. Every row of every option must be at least five characters
/// long.
pub fn new(options: &[Vec<String>]) -> (r: Square)
    requires
        options@.len() >= 1,
        forall|i: int, j: int|
            0 <= i < options@.len() && 0 <= j < options@[i]@.len() ==> (#[trigger] options@[i]@[j])@.len()
                >= 5,
    ensures
        exists|i: int| 0 <= i < options@.len() && square_of_rows(r, #[trigger] options@[i]@),
{
    let idx = random_below(options.len());
    let sq = Square::from_single(options[idx].as_slice());
    proof {
        assert(square_of_rows(sq, options@[idx as int]@));
    }
    sq
}

} // verus!
