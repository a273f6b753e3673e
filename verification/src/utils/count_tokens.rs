//! Counting the tokens of a text.

use crate::params::{is_validation, needs_positional, require_positional};
use crate::text::{decimal, from_chars, is_whitespace, is_whitespace_char, push_decimal, push_str, to_chars};
use crate::tool_core::{ToolArgs, ToolError};
use vstd::prelude::*;

verus! {

/// The number of words in `s`: the runs of characters that are no white
/// space.
pub open spec fn word_count(s: Seq<char>) -> nat
    decreases s.len(),
{
    if s.len() == 0 {
        0
    } else {
        let starts_word = !is_whitespace(s.last()) && (s.len() == 1 || is_whitespace(
            s[s.len() - 2],
        ));
        word_count(s.drop_last()) + if starts_word {
            1nat
        } else {
            0nat
        }
    }
}

/// Tool that counts the tokens of a file or of a text.
pub struct CountTokensTool {
    name: String,
}

impl CountTokensTool {
    pub fn new() -> (r: Self)
        ensures
            r.spec_name() == "count_tokens"@,
    {
        CountTokensTool { name: "count_tokens".to_owned() }
    }

    /// The name under which the tool is registered.
    pub closed spec fn spec_name(&self) -> Seq<char> {
        self.name@
    }

    pub fn name(&self) -> (r: &str)
        ensures
            r@ == self.spec_name(),
    {
        self.name.as_str()
    }

    pub fn description(&self) -> (r: &'static str)
        ensures
            r@ == "Count tokens in a file or provided content using cl100k_base tokenizer"@,
    {
        "Count tokens in a file or provided content using cl100k_base tokenizer"
    }

    pub fn signature(&self) -> (r: &'static str)
        ensures
            r@ == "count_tokens <file_path> OR count_tokens --content=<text>"@,
    {
        "count_tokens <file_path> OR count_tokens --content=<text>"
    }

    /// The arguments must give a positional argument.
    pub fn validate_args(&self, args: &ToolArgs) -> (r: Result<(), ToolError>)
        ensures
            is_validation(
                r,
                needs_positional(
                    *args,
                    "Usage: count_tokens <file_path> or count_tokens --content=<text>"@,
                ),
            ),
    {
        require_positional(args, "Usage: count_tokens <file_path> or count_tokens --content=<text>")
    }

    /// The number of tokens of `text`: its words, separated by white space.
    pub fn count_from_text(text: &str) -> (r: usize)
        ensures
            r == word_count(text@),
    {
        let s = to_chars(text);
        let mut n: usize = 0;
        let mut i: usize = 0;
        assert(s@.take(0) == Seq::<char>::empty());
        while i < s.len()
            invariant
                i <= s.len(),
                n == word_count(s@.take(i as int)),
                n <= i,
            decreases s.len() - i,
        {
            assert(s@.take(i + 1).drop_last() == s@.take(i as int));
            if !is_whitespace_char(s[i]) && (i == 0 || is_whitespace_char(s[i - 1])) {
                n += 1;
            }
            i += 1;
        }
        assert(s@.take(s.len() as int) == s@);
        n
    }

    /// The message that reports a count.
    pub fn report(count: usize) -> (r: String)
        ensures
            r@ == "Total tokens: "@ + decimal(count as nat),
    {
        let mut out: Vec<char> = Vec::new();
        push_str(&mut out, "Total tokens: ");
        push_decimal(&mut out, count);
        from_chars(out.as_slice())
    }
}

} // verus!
