//! The request record a language-model chat endpoint takes, and the
//! sanitiser that flattens its replies to plain single-line text.

use vstd::prelude::*;

use crate::text::replace_all;
use crate::text::replace_all_spec;

verus! {

/// One generation request: which model, what prompt, no streaming, no
/// extended thinking.
pub struct Request {
    pub model: String,
    pub prompt: String,
    pub stream: bool,
    pub think: bool,
}

impl Request {
    /// Build a request for one prompt.
    pub fn new(model: &str, prompt: &str) -> (r: Request)
        ensures
            r.model@ == model@,
            r.prompt@ == prompt@,
            !r.stream,
            !r.think,
    {
        Request { model: model.to_owned(), prompt: prompt.to_owned(), stream: false, think: false }
    }
}

/// A model reply flattened to plain text: curly quotes straightened,
/// newlines and carriage returns turned into spaces, em dashes spaced
/// into hyphens; replacements applied left to right, in this order.
pub open spec fn sanitize_spec(s: Seq<char>) -> Seq<char> {
    let s1 = replace_all_spec(s, "\u{2019}"@, "'"@);
    let s2 = replace_all_spec(s1, "\u{201c}"@, "\""@);
    let s3 = replace_all_spec(s2, "\u{201d}"@, "\""@);
    let s4 = replace_all_spec(s3, "\n"@, " "@);
    let s5 = replace_all_spec(s4, "\r"@, " "@);
    replace_all_spec(s5, "\u{2014}"@, " - "@)
}

/// Flatten a model reply to plain single-line text.
pub fn sanitize(original: &str) -> (r: String)
    ensures
        r@ == sanitize_spec(original@),
{
    proof {
        reveal_strlit("\u{2019}");
        reveal_strlit("\u{201c}");
        reveal_strlit("\u{201d}");
        reveal_strlit("\n");
        reveal_strlit("\r");
        reveal_strlit("\u{2014}");
    }
    let s1 = replace_all(original, "\u{2019}", "'");
    let s2 = replace_all(s1.as_str(), "\u{201c}", "\"");
    let s3 = replace_all(s2.as_str(), "\u{201d}", "\"");
    let s4 = replace_all(s3.as_str(), "\n", " ");
    let s5 = replace_all(s4.as_str(), "\r", " ");
    replace_all(s5.as_str(), "\u{2014}", " - ")
}

} // verus!
