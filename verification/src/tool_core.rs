//! Core types shared by all tools: errors, arguments and results.

use crate::assoc::{assoc_find, assoc_get};
use crate::text::{
    chars_eq, from_chars, matches_at, slice_to_vec, starts_with, string_texts, to_chars,
};
use vstd::prelude::*;

verus! {

/// What can go wrong when a tool is looked up, validated or run.
#[derive(Debug)]
pub enum ToolError {
    /// The file at `path` does not exist.
    FileNotFound { path: String },
    /// The arguments are missing or malformed.
    InvalidArgs { message: String },
    /// No tool is registered under `name`.
    ToolNotFound { name: String },
    /// The linter rejected the edit.
    LintingFailed { errors: Vec<String> },
    /// Reading or writing failed.
    Io { message: String },
    /// The pattern is not a valid regular expression.
    Regex(regex::Error),
    /// The arguments are not valid JSON.
    Json { message: String },
}

/// `Display` of `regex::Error`: the error as text. Nothing is claimed of
/// the text.
#[verifier::external_body]
fn regex_error_text(e: &regex::Error) -> (r: String) {
    e.to_string()
}

/// `Debug` of a list of strings: the list as text. Nothing is claimed of
/// the text.
#[verifier::external_body]
fn debug_list(items: &Vec<String>) -> (r: String) {
    format!("{:?}", items)
}

impl ToolError {
    /// What stands at the start of the error's message.
    pub open spec fn prefix(&self) -> Seq<char> {
        match *self {
            ToolError::FileNotFound { .. } => "File not found: "@,
            ToolError::InvalidArgs { .. } => "Invalid arguments: "@,
            ToolError::ToolNotFound { .. } => "Tool not found: "@,
            ToolError::LintingFailed { .. } => "Linting failed: "@,
            ToolError::Io { .. } => "IO error: "@,
            ToolError::Regex(_) => "Regex error: "@,
            ToolError::Json { .. } => "JSON error: "@,
        }
    }

    /// The error as a message: what kind of error it is, and its detail.
    /// The detail of a regular-expression error and of a list of
    /// complaints is text of which nothing is known here.
    pub fn message(&self) -> (r: String)
        ensures
            match *self {
                ToolError::FileNotFound { path } => r@ == self.prefix() + path@,
                ToolError::InvalidArgs { message } => r@ == self.prefix() + message@,
                ToolError::ToolNotFound { name } => r@ == self.prefix() + name@,
                ToolError::Io { message } => r@ == self.prefix() + message@,
                ToolError::Json { message } => r@ == self.prefix() + message@,
                ToolError::LintingFailed { .. } => exists|t: Seq<char>| r@ == self.prefix() + t,
                ToolError::Regex(_) => exists|t: Seq<char>| r@ == self.prefix() + t,
            },
    {
        let mut out: Vec<char> = Vec::new();
        match self {
            ToolError::FileNotFound { path } => {
                crate::text::push_str(&mut out, "File not found: ");
                crate::text::push_str(&mut out, path.as_str());
            },
            ToolError::InvalidArgs { message } => {
                crate::text::push_str(&mut out, "Invalid arguments: ");
                crate::text::push_str(&mut out, message.as_str());
            },
            ToolError::ToolNotFound { name } => {
                crate::text::push_str(&mut out, "Tool not found: ");
                crate::text::push_str(&mut out, name.as_str());
            },
            ToolError::LintingFailed { errors } => {
                let detail = debug_list(errors);
                crate::text::push_str(&mut out, "Linting failed: ");
                crate::text::push_str(&mut out, detail.as_str());
                assert(out@ == self.prefix() + detail@);
            },
            ToolError::Io { message } => {
                crate::text::push_str(&mut out, "IO error: ");
                crate::text::push_str(&mut out, message.as_str());
            },
            ToolError::Regex(e) => {
                let detail = regex_error_text(e);
                crate::text::push_str(&mut out, "Regex error: ");
                crate::text::push_str(&mut out, detail.as_str());
                assert(out@ == self.prefix() + detail@);
            },
            ToolError::Json { message } => {
                crate::text::push_str(&mut out, "JSON error: ");
                crate::text::push_str(&mut out, message.as_str());
            },
        }
        from_chars(out.as_slice())
    }
}

/// Whether two strings hold the same text.
pub fn str_eq(a: &str, b: &str) -> (r: bool)
    ensures
        r == (a@ == b@),
{
    let x = to_chars(a);
    let y = to_chars(b);
    chars_eq(x.as_slice(), y.as_slice())
}


/// The texts of a list of string slices.
pub open spec fn strs_view(v: Seq<&str>) -> Seq<Seq<char>> {
    v.map_values(|s: &str| s@)
}

/// The offset of the first `c` in `s` at or after `from`, or the length of
/// `s` when there is none.
pub open spec fn index_of(s: Seq<char>, c: char, from: int) -> int
    decreases s.len() - from,
{
    if from < 0 || from >= s.len() {
        s.len() as int
    } else if s[from] == c {
        from
    } else {
        index_of(s, c, from + 1)
    }
}

/// Whether a command-line argument is a named one: it starts with `--`.
pub open spec fn is_named(arg: Seq<char>) -> bool {
    matches_at(arg, "--"@, 0)
}

/// The key of a named argument: what stands between `--` and the first
/// `=`, or the end.
pub open spec fn named_key(arg: Seq<char>) -> Seq<char> {
    arg.subrange(2, index_of(arg, '=', 2))
}

/// The value of a named argument: what follows the first `=`, or `true`
/// for a flag without one.
pub open spec fn named_value(arg: Seq<char>) -> Seq<char> {
    if index_of(arg, '=', 2) < arg.len() {
        arg.skip(index_of(arg, '=', 2) + 1)
    } else {
        "true"@
    }
}

/// The positional arguments among `args`, in order.
pub open spec fn positional_of(args: Seq<Seq<char>>) -> Seq<Seq<char>>
    decreases args.len(),
{
    if args.len() == 0 {
        Seq::empty()
    } else if is_named(args.last()) {
        positional_of(args.drop_last())
    } else {
        positional_of(args.drop_last()).push(args.last())
    }
}

/// The value that the named arguments among `args` give to `key`: that of
/// the last one with this key.
pub open spec fn named_of(args: Seq<Seq<char>>, key: Seq<char>) -> Option<Seq<char>>
    decreases args.len(),
{
    if args.len() == 0 {
        None
    } else if is_named(args.last()) && named_key(args.last()) == key {
        Some(named_value(args.last()))
    } else {
        named_of(args.drop_last(), key)
    }
}

/// The text of an optional string.
pub open spec fn text_of(s: Option<String>) -> Option<Seq<char>> {
    match s {
        Some(t) => Some(t@),
        None => None,
    }
}

/// Arguments passed to a tool: positional ones, and named ones as pairs of
/// key and value. Of two named arguments with the same key the later one
/// counts.
#[derive(Debug, Clone)]
pub struct ToolArgs {
    pub args: Vec<String>,
    pub named_args: Vec<(String, String)>,
}

impl ToolArgs {
    /// The value of the named argument `key`, if there is one.
    pub open spec fn named(&self, key: Seq<char>) -> Option<Seq<char>> {
        text_of(assoc_get(self.named_args@, key))
    }

    /// The positional arguments.
    pub open spec fn positional(&self) -> Seq<Seq<char>> {
        string_texts(self.args@)
    }

    /// Reads command-line arguments: `--key=value` and `--flag` are named,
    /// everything else is positional.
    pub fn from_args(args: &[&str]) -> (r: Self)
        ensures
            r.positional() == positional_of(strs_view(args@)),
            forall|key: Seq<char>| r.named(key) == named_of(strs_view(args@), key),
    {
        let mut positional: Vec<String> = Vec::new();
        let mut named: Vec<(String, String)> = Vec::new();
        let dashes = to_chars("--");
        let mut i: usize = 0;
        let ghost all = strs_view(args@);
        assert(all.take(0) == Seq::<Seq<char>>::empty());
        assert(string_texts(positional@) == Seq::<Seq<char>>::empty());
        while i < args.len()
            invariant
                i <= args.len(),
                all == strs_view(args@),
                dashes@ == "--"@,
                string_texts(positional@) == positional_of(all.take(i as int)),
                forall|key: Seq<char>|
                    text_of(assoc_get(named@, key)) == named_of(all.take(i as int), key),
            decreases args.len() - i,
        {
            let arg = to_chars(args[i]);
            proof {
                assert(all.take(i + 1).drop_last() == all.take(i as int));
                assert(all.take(i + 1).last() == arg@);
            }
            if starts_with(arg.as_slice(), dashes.as_slice()) {
                let mut eq: usize = 2;
                proof {
                    reveal_strlit("--");
                }
                while eq < arg.len() && arg[eq] != '='
                    invariant
                        2 <= eq <= arg.len(),
                        index_of(arg@, '=', 2) == index_of(arg@, '=', eq as int),
                    decreases arg.len() - eq,
                {
                    eq += 1;
                }
                let key = from_chars(slice_to_vec(arg.as_slice(), 2, eq).as_slice());
                let value = if eq < arg.len() {
                    let v = slice_to_vec(arg.as_slice(), eq + 1, arg.len());
                    assert(arg@.subrange(eq + 1, arg.len() as int) == arg@.skip(eq + 1));
                    from_chars(v.as_slice())
                } else {
                    "true".to_owned()
                };
                let ghost before = named@;
                proof {
                    assert(index_of(arg@, '=', 2) == eq);
                    assert(is_named(arg@));
                    assert(key@ == named_key(arg@));
                    assert(value@ == named_value(arg@));
                }
                named.push((key, value));
                proof {
                    assert(named@.drop_last() == before);
                    assert(named@.last().0@ == named_key(arg@));
                    assert(named@.last().1@ == named_value(arg@));
                    assert forall|k: Seq<char>| text_of(assoc_get(named@, k)) == named_of(
                        all.take(i + 1),
                        k,
                    ) by {
                        assert(text_of(assoc_get(before, k)) == named_of(all.take(i as int), k));
                    }
                }
            } else {
                let ghost before = positional@;
                positional.push(from_chars(arg.as_slice()));
                proof {
                    assert(!is_named(arg@));
                    assert(string_texts(positional@) == string_texts(before).push(arg@));
                    assert forall|k: Seq<char>| text_of(assoc_get(named@, k)) == named_of(
                        all.take(i + 1),
                        k,
                    ) by {
                        assert(text_of(assoc_get(named@, k)) == named_of(all.take(i as int), k));
                    }
                }
            }
            i += 1;
        }
        assert(all.take(args.len() as int) == all);
        ToolArgs { args: positional, named_args: named }
    }

    /// Arguments from positional and named arguments given as such.
    pub fn with_named_args(args: Vec<String>, named_args: Vec<(String, String)>) -> (r: Self)
        ensures
            r.args == args,
            r.named_args == named_args,
    {
        ToolArgs { args, named_args }
    }

    /// The positional argument at `index`.
    pub fn get_arg(&self, index: usize) -> (r: Option<&String>)
        ensures
            match r {
                Some(s) => index < self.args.len() && *s == self.args[index as int],
                None => index >= self.args.len(),
            },
    {
        if index < self.args.len() {
            Some(&self.args[index])
        } else {
            None
        }
    }

    /// The value of the named argument `name`.
    pub fn get_named_arg(&self, name: &str) -> (r: Option<&String>)
        ensures
            match r {
                Some(s) => self.named(name@) == Some(s@),
                None => self.named(name@) is None,
            },
    {
        match assoc_find(&self.named_args, name) {
            Some(i) => Some(&self.named_args[i].1),
            None => None,
        }
    }

    /// The number of positional arguments.
    pub fn len(&self) -> (r: usize)
        ensures
            r == self.args.len(),
    {
        self.args.len()
    }

    /// Whether there is no positional argument.
    pub fn is_empty(&self) -> (r: bool)
        ensures
            r == (self.args.len() == 0),
    {
        self.args.len() == 0
    }
}

/// A parameter value, as decoded from a JSON argument object.
#[derive(Debug)]
pub enum ParamValue {
    /// A string.
    Str(String),
    /// A boolean.
    Bool(bool),
    /// A non-negative whole number.
    Unsigned(u64),
    /// Any other number that can be written as a fraction of two counts,
    /// with its JSON text.
    Fraction { numerator: usize, denominator: usize, text: String },
    /// A nested object, with its JSON text.
    Object { fields: Vec<(String, ParamValue)>, text: String },
    /// Any other value, by its JSON text.
    Other { text: String },
}

/// The decoded parameters of a request: the fields of its argument object.
pub type Params = Vec<(String, ParamValue)>;

/// Result returned by a tool.
#[derive(Debug)]
pub struct ToolResult {
    pub success: bool,
    pub message: String,
    pub data: Option<ParamValue>,
}

impl ToolResult {
    /// A successful result.
    pub fn success(message: String) -> (r: Self)
        ensures
            r.success,
            r.message == message,
            r.data is None,
    {
        ToolResult { success: true, message, data: None }
    }

    /// A successful result with data.
    pub fn success_with_data(message: String, data: ParamValue) -> (r: Self)
        ensures
            r.success,
            r.message == message,
            r.data == Some(data),
    {
        ToolResult { success: true, message, data: Some(data) }
    }

    /// A failed result.
    pub fn error(message: String) -> (r: Self)
        ensures
            !r.success,
            r.message == message,
            r.data is None,
    {
        ToolResult { success: false, message, data: None }
    }

    /// A failed result with data.
    pub fn error_with_data(message: String, data: ParamValue) -> (r: Self)
        ensures
            !r.success,
            r.message == message,
            r.data == Some(data),
    {
        ToolResult { success: false, message, data: Some(data) }
    }
}

} // verus!
