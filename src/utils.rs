//! Finding the code in a chat message.

use vstd::prelude::*;
use crate::text::{trim_text, trimmed};

verus! {

/// The text of the first fenced block that opens with a language tag and a
/// line break, as the pattern ```` ```(?:[a-zA-Z0-9]*)\n([\s\S]+?)``` ````
/// captures it.
pub uninterp spec fn tagged_block(s: Seq<char>) -> Option<Seq<char>>;

/// The text of the first fenced block, as the pattern
/// ```` ```([\s\S]+?)``` ```` captures it.
pub uninterp spec fn plain_block(s: Seq<char>) -> Option<Seq<char>>;

/// Relies on regex's `Regex::new`, `Regex::captures`, `Captures::get` and
/// `Match::as_str`: the first group of the first match of the tagged-block
/// pattern, and that of the plain-block pattern. Both patterns are valid, so
/// `Regex::new` succeeds.
#[verifier::external_body]
fn find_blocks(s: &str) -> (r: (Option<String>, Option<String>))
    ensures
        opt_view(r.0) == tagged_block(s@),
        opt_view(r.1) == plain_block(s@),
{
    let mut found: [Option<String>; 2] = [None, None];
    let patterns = [r"```(?:[a-zA-Z0-9]*)\n([\s\S]+?)```", r"```([\s\S]+?)```"];
    for k in 0..2 {
        let re = regex::Regex::new(patterns[k]).unwrap();
        if let Some(c) = re.captures(s) {
            if let Some(m) = c.get(1) {
                found[k] = Some(m.as_str().to_string());
            }
        }
    }
    let [tagged, plain] = found;
    (tagged, plain)
}

/// The trimmed body of a captured block, unless nothing is left of it.
pub open spec fn usable_body(b: Option<Seq<char>>) -> Option<Seq<char>> {
    match b {
        Some(t) => if trimmed(t).len() > 0 { Some(trimmed(t)) } else { None },
        None => None,
    }
}

/// The code of a message: the tagged block if it holds more than white
/// space, else the plain block if it does, else nothing.
pub open spec fn code_block_spec(tagged: Option<Seq<char>>, plain: Option<Seq<char>>) -> Option<Seq<char>> {
    if usable_body(tagged).is_some() {
        usable_body(tagged)
    } else {
        usable_body(plain)
    }
}

pub open spec fn opt_view(o: Option<String>) -> Option<Seq<char>> {
    match o {
        Some(s) => Some(s@),
        None => None,
    }
}

fn usable(b: Option<String>) -> (r: Option<String>)
    ensures
        opt_view(r) == usable_body(opt_view(b)),
{
    match b {
        Some(t) => {
            let body = trim_text(t.as_str());
            if body.unicode_len() > 0 {
                Some(body)
            } else {
                None
            }
        },
        None => None,
    }
}

/// Chooses the code among the bodies of the two kinds of fenced block.
pub fn pick_code_block(tagged: Option<String>, plain: Option<String>) -> (r: Option<String>)
    ensures
        opt_view(r) == code_block_spec(opt_view(tagged), opt_view(plain)),
{
    let first = usable(tagged);
    if first.is_some() {
        first
    } else {
        usable(plain)
    }
}

/// The code in a chat message, taken from its first fenced block.
pub fn extract_code_block(code: &str) -> (r: Option<String>)
    ensures
        opt_view(r) == code_block_spec(tagged_block(code@), plain_block(code@)),
{
    let (tagged, plain) = find_blocks(code);
    pick_code_block(tagged, plain)
}

} // verus!
