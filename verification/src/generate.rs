//! The shared progress and result record the background clue-generation
//! task fills while the frame loop polls it, and the prompt builder the
//! task uses for each word.

use vstd::prelude::*;

use crate::puzzle::Square;
use crate::text::replace_all;
use crate::text::replace_all_spec;

verus! {

/// The word a prompt template asks about, quoted.
pub open spec fn quoted(word: Seq<char>) -> Seq<char> {
    "\""@ + word + "\""@
}

/// Progress and result of one background generation run: how many clues
/// are done so far, and, once finished, the questions and the answers.
/// The host samples it once per frame without blocking and shows a
/// loading state until it is complete.
#[derive(Clone)]
pub struct Result {
    pub count: usize,
    pub questions: Option<Square>,
    pub answers: Option<Square>,
}

impl Result {
    /// The starting record: nothing generated yet.
    pub fn default() -> (r: Result)
        ensures
            r.count == 0,
            r.questions is None,
            r.answers is None,
    {
        Result { count: 0, questions: None, answers: None }
    }

    /// Whether generation has finished: all ten clues (five across, five
    /// down) counted, and both squares present.
    pub fn complete(&self) -> (b: bool)
        ensures
            b == (self.count == 10 && self.questions is Some && self.answers is Some),
    {
        self.count == 10 && self.questions.is_some() && self.answers.is_some()
    }
}

/// Fill the prompt template for one word: every `{{word}}` placeholder
/// becomes the word in double quotes.
pub fn make_prompt(prompt: &str, word: &str) -> (r: String)
    ensures
        r@ == replace_all_spec(prompt@, "{{word}}"@, quoted(word@)),
{
    proof {
        reveal_strlit("{{word}}");
        reveal_strlit("\"");
    }
    let mut q = String::new();
    q.append("\"");
    q.append(word);
    q.append("\"");
    replace_all(prompt, "{{word}}", q.as_str())
}

} // verus!
