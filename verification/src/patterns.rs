//! Regular expressions, as the `regex` crate provides them, and the
//! conversion of its byte offsets into character offsets.

use vstd::prelude::*;
use vstd::string::StrSliceExecFns;
use vstd::string::StringSliceAdditionalSpecFns;
use vstd::utf8::{decode_utf8, encode_utf8, is_char_boundary};

verus! {

/// A compiled regular expression of the `regex` crate.
#[verifier::external_type_specification]
#[verifier::external_body]
pub struct ExRegex(regex::Regex);

/// The error that the `regex` crate reports for a pattern it cannot compile.
#[verifier::external_type_specification]
#[verifier::external_body]
pub struct ExRegexError(regex::Error);

/// What `regex::Regex::new` returns for the pattern `pattern`: the compiled
/// expression, or the error that says why it cannot be compiled.
pub uninterp spec fn compiled(pattern: Seq<char>) -> Result<regex::Regex, regex::Error>;

/// The byte ranges of the successive non-overlapping matches that `re` has
/// in `haystack`, left to right, as `regex::Regex::find_iter` yields them.
pub uninterp spec fn match_spans(re: regex::Regex, haystack: Seq<char>) -> Seq<(int, int)>;

/// Whether `re` matches somewhere in `haystack`, as `regex::Regex::is_match`
/// tells.
pub uninterp spec fn has_match(re: regex::Regex, haystack: Seq<char>) -> bool;

/// `regex::Regex::new` compiles a pattern, or reports why it cannot. What
/// it returns depends on the pattern alone.
pub assume_specification[ regex::Regex::new ](re: &str) -> (r: Result<regex::Regex, regex::Error>)
    ensures
        r == compiled(re@),
;

/// `regex::Regex::is_match` tells whether the expression matches anywhere
/// in the haystack. The answer depends on the expression and the haystack
/// alone.
pub assume_specification[ regex::Regex::is_match ](re: &regex::Regex, haystack: &str) -> (r: bool)
    ensures
        r == has_match(*re, haystack@),
;

/// A vector of byte ranges, read as mathematical integers.
pub open spec fn byte_spans_view(v: Seq<(usize, usize)>) -> Seq<(int, int)> {
    v.map_values(|sp: (usize, usize)| (sp.0 as int, sp.1 as int))
}

/// `regex::Regex::find_iter`, collected: the start and end byte offsets of
/// every match it yields for `haystack`, in the order it yields them. They
/// depend on the expression and the haystack alone.
#[verifier::external_body]
pub(crate) fn regex_find_all(re: &regex::Regex, haystack: &str) -> (r: Vec<(usize, usize)>)
    ensures
        byte_spans_view(r@) == match_spans(*re, haystack@),
{
    re.find_iter(haystack).map(|m| (m.start(), m.end())).collect()
}

/// Whether `pattern` compiles as a regular expression.
pub open spec fn regex_compiles(pattern: Seq<char>) -> bool {
    compiled(pattern) is Ok
}

/// The byte ranges of the matches that the regular expression `pattern` has
/// in `haystack`; none where the pattern does not compile.
pub open spec fn regex_spans(pattern: Seq<char>, haystack: Seq<char>) -> Seq<(int, int)> {
    match compiled(pattern) {
        Ok(re) => match_spans(re, haystack),
        Err(_) => Seq::empty(),
    }
}

/// The number of characters of `s` whose encoding lies before byte offset
/// `byte` of the UTF-8 encoding of `s`.
pub open spec fn char_offset(s: Seq<char>, byte: int) -> int {
    decode_utf8(encode_utf8(s).subrange(0, byte)).len() as int
}

/// Whether byte offset `byte` is the start of a character of `s`, or its
/// end.
pub open spec fn on_boundary(s: Seq<char>, byte: int) -> bool {
    is_char_boundary(encode_utf8(s), byte)
}

/// The character offset that corresponds to byte offset `byte` of `s`, if
/// `byte` lies on a character boundary.
pub fn byte_to_char_offset(s: &str, byte: usize) -> (r: Option<usize>)
    ensures
        r is Some <==> on_boundary(s@, byte as int),
        r matches Some(c) ==> c == char_offset(s@, byte as int) && c <= s@.len(),
{
    if s.is_char_boundary(byte) {
        let (head, tail) = s.split_at(byte);
        let c = head.unicode_len();
        proof {
            broadcast use vstd::utf8::encode_utf8_valid_utf8;
            broadcast use vstd::utf8::encode_utf8_decode_utf8;

            let bytes = encode_utf8(s@);
            assert(head.spec_bytes() == bytes.subrange(0, byte as int));
            assert(decode_utf8(encode_utf8(head@)) == head@);
            assert(decode_utf8(encode_utf8(tail@)) == tail@);
            assert(decode_utf8(bytes) == s@);
            vstd::utf8::decode_utf8_split(bytes, byte as int);
            assert(s@ == head@ + tail@);
        }
        Some(c)
    } else {
        None
    }
}

} // verus!
