//! Decoded request parameters: building them from named and positional
//! arguments, looking them up, and checking that required ones are there.

use crate::assoc::{assoc_find, assoc_get};
use crate::parse::{parse_bool, parse_bool_text, parse_bounded, parse_u64, parse_usize};
use crate::text::{from_chars, push_str};
use crate::text::string_texts;
use crate::tool_core::{str_eq, ParamValue, Params, ToolArgs, ToolError};
use vstd::prelude::*;

verus! {

/// What a parameter value is at its top level.
pub enum FlatValue {
    /// A string.
    Text(Seq<char>),
    /// A boolean.
    Flag(bool),
    /// A non-negative whole number.
    Number(u64),
    /// A fraction, with its JSON text.
    Fraction(usize, usize, Seq<char>),
    /// An object, by its JSON text.
    Nested(Seq<char>),
    /// Anything else, by its JSON text.
    Opaque(Seq<char>),
}

/// The top level of a parameter value.
pub open spec fn flat_of(v: ParamValue) -> FlatValue {
    match v {
        ParamValue::Str(s) => FlatValue::Text(s@),
        ParamValue::Bool(b) => FlatValue::Flag(b),
        ParamValue::Unsigned(n) => FlatValue::Number(n),
        ParamValue::Fraction { numerator, denominator, text } => FlatValue::Fraction(
            numerator,
            denominator,
            text@,
        ),
        ParamValue::Object { text, .. } => FlatValue::Nested(text@),
        ParamValue::Other { text } => FlatValue::Opaque(text@),
    }
}

/// The parameters as pairs of key text and top-level value.
pub open spec fn flat_view(params: Seq<(String, ParamValue)>) -> Seq<(Seq<char>, FlatValue)> {
    params.map_values(|p: (String, ParamValue)| (p.0@, flat_of(p.1)))
}

/// The value given to `key`: that of the last pair with this key.
pub open spec fn flat_get(flat: Seq<(Seq<char>, FlatValue)>, key: Seq<char>) -> Option<FlatValue>
    decreases flat.len(),
{
    if flat.len() == 0 {
        None
    } else if flat.last().0 == key {
        Some(flat.last().1)
    } else {
        flat_get(flat.drop_last(), key)
    }
}

/// The text given to `key`, if its value is a string.
pub open spec fn text_at(flat: Seq<(Seq<char>, FlatValue)>, key: Seq<char>) -> Option<Seq<char>> {
    match flat_get(flat, key) {
        Some(FlatValue::Text(t)) => Some(t),
        _ => None,
    }
}

/// The number given to `key`, if its value is a non-negative whole number.
pub open spec fn number_at(flat: Seq<(Seq<char>, FlatValue)>, key: Seq<char>) -> Option<u64> {
    match flat_get(flat, key) {
        Some(FlatValue::Number(n)) => Some(n),
        _ => None,
    }
}

/// The boolean given to `key`, if its value is one.
pub open spec fn flag_at(flat: Seq<(Seq<char>, FlatValue)>, key: Seq<char>) -> Option<bool> {
    match flat_get(flat, key) {
        Some(FlatValue::Flag(b)) => Some(b),
        _ => None,
    }
}

/// The value given to `key`.
pub fn param_get<'a>(params: &'a Params, key: &str) -> (r: Option<&'a ParamValue>)
    ensures
        match r {
            Some(v) => flat_get(flat_view(params@), key@) == Some(flat_of(*v)),
            None => flat_get(flat_view(params@), key@) is None,
        },
{
    let ghost flat = flat_view(params@);
    let mut i: usize = params.len();
    assert(flat.take(i as int) == flat);
    while i > 0
        invariant
            i <= params.len(),
            flat == flat_view(params@),
            flat_get(flat, key@) == flat_get(flat.take(i as int), key@),
        decreases i,
    {
        assert(flat.take(i as int).last() == flat[i - 1]);
        assert(flat.take(i as int).drop_last() == flat.take(i - 1));
        if str_eq(params[i - 1].0.as_str(), key) {
            return Some(&params[i - 1].1);
        }
        i -= 1;
    }
    None
}

/// Whether a value is given to `key`.
pub fn param_has(params: &Params, key: &str) -> (r: bool)
    ensures
        r == flat_get(flat_view(params@), key@) is Some,
{
    param_get(params, key).is_some()
}

/// The text given to `key`, if its value is a string.
pub fn param_str<'a>(params: &'a Params, key: &str) -> (r: Option<&'a String>)
    ensures
        match r {
            Some(s) => text_at(flat_view(params@), key@) == Some(s@),
            None => text_at(flat_view(params@), key@) is None,
        },
{
    match param_get(params, key) {
        Some(ParamValue::Str(s)) => Some(s),
        _ => None,
    }
}

/// The number given to `key`, if its value is one.
pub fn param_u64(params: &Params, key: &str) -> (r: Option<u64>)
    ensures
        r == number_at(flat_view(params@), key@),
{
    match param_get(params, key) {
        Some(ParamValue::Unsigned(n)) => Some(*n),
        _ => None,
    }
}

/// The boolean given to `key`, if its value is one.
pub fn param_bool(params: &Params, key: &str) -> (r: Option<bool>)
    ensures
        r == flag_at(flat_view(params@), key@),
{
    match param_get(params, key) {
        Some(ParamValue::Bool(b)) => Some(*b),
        _ => None,
    }
}

/// The named arguments as parameters: each value a string.
pub open spec fn named_params(named: Seq<(String, String)>) -> Seq<(Seq<char>, FlatValue)> {
    named.map_values(|p: (String, String)| (p.0@, FlatValue::Text(p.1@)))
}

/// Parameters from named arguments: each value a string.
pub fn params_from_named(named: &Vec<(String, String)>) -> (r: Params)
    ensures
        flat_view(r@) == named_params(named@),
{
    let mut r: Params = Vec::new();
    let mut i: usize = 0;
    while i < named.len()
        invariant
            i <= named.len(),
            flat_view(r@) == named_params(named@.take(i as int)),
        decreases named.len() - i,
    {
        let ghost before = r@;
        r.push((named[i].0.clone(), ParamValue::Str(named[i].1.clone())));
        proof {
            assert(flat_view(r@) == flat_view(before).push(
                (named[i as int].0@, FlatValue::Text(named[i as int].1@)),
            ));
            assert(named_params(named@.take(i + 1)) == named_params(named@.take(i as int)).push(
                (named[i as int].0@, FlatValue::Text(named[i as int].1@)),
            ));
        }
        i += 1;
    }
    assert(named@.take(named.len() as int) == named@);
    r
}

/// How a positional argument becomes a parameter.
#[derive(Debug, Clone, Copy, PartialEq, Eq, Structural)]
pub enum FieldKind {
    /// The argument is taken as a string.
    Text,
    /// The argument must be a number.
    Number,
    /// The argument is taken if it is a number, and left out otherwise.
    OptionalNumber,
    /// The argument is taken if it is `true` or `false`, and left out
    /// otherwise.
    OptionalFlag,
}

/// The meaning of one position of a tool's positional arguments.
pub struct PositionalField {
    pub name: &'static str,
    pub kind: FieldKind,
}

/// The message for a positional argument that must be a number and is
/// none.
pub open spec fn not_a_number(name: Seq<char>) -> Seq<char> {
    "Invalid "@ + name + " - must be a number"@
}

/// The parameters that the first `upto` positional arguments give, or the
/// message of the error for the first one that must be a number and is
/// none.
pub open spec fn positional_params(
    args: Seq<Seq<char>>,
    fields: Seq<PositionalField>,
    upto: int,
) -> Result<Seq<(Seq<char>, FlatValue)>, Seq<char>>
    decreases upto,
{
    if upto <= 0 {
        Ok(Seq::empty())
    } else {
        match positional_params(args, fields, upto - 1) {
            Err(e) => Err(e),
            Ok(before) => {
                let name = fields[upto - 1].name@;
                let arg = args[upto - 1];
                match fields[upto - 1].kind {
                    FieldKind::Text => Ok(before.push((name, FlatValue::Text(arg)))),
                    FieldKind::Number => match parse_bounded(arg, u64::MAX as nat) {
                        Some(n) => Ok(before.push((name, FlatValue::Number(n as u64)))),
                        None => Err(not_a_number(name)),
                    },
                    FieldKind::OptionalNumber => match parse_bounded(arg, usize::MAX as nat) {
                        Some(n) => Ok(before.push((name, FlatValue::Number(n as u64)))),
                        None => Ok(before),
                    },
                    FieldKind::OptionalFlag => match parse_bool_text(arg) {
                        Some(b) => Ok(before.push((name, FlatValue::Flag(b)))),
                        None => Ok(before),
                    },
                }
            },
        }
    }
}

/// The smaller of two lengths.
pub open spec fn min_len(a: int, b: int) -> int {
    if a <= b {
        a
    } else {
        b
    }
}

/// Parameters from positional arguments, position by position as `fields`
/// says, for as many positions as both have.
pub fn params_from_positional(args: &Vec<String>, fields: &Vec<PositionalField>) -> (r: Result<
    Params,
    ToolError,
>)
    ensures
        match positional_params(
            string_texts(args@),
            fields@,
            min_len(args.len() as int, fields.len() as int),
        ) {
            Ok(flat) => r matches Ok(p) && flat_view(p@) == flat,
            Err(msg) => r matches Err(ToolError::InvalidArgs { message }) && message@ == msg,
        },
{
    let n: usize = if args.len() <= fields.len() {
        args.len()
    } else {
        fields.len()
    };
    let ghost texts = string_texts(args@);
    let mut r: Params = Vec::new();
    let mut i: usize = 0;
    assert(flat_view(r@) == Seq::<(Seq<char>, FlatValue)>::empty());
    while i < n
        invariant
            i <= n,
            n <= args.len(),
            n <= fields.len(),
            n == min_len(args.len() as int, fields.len() as int),
            texts == string_texts(args@),
            positional_params(texts, fields@, i as int) == Ok::<
                Seq<(Seq<char>, FlatValue)>,
                Seq<char>,
            >(flat_view(r@)),
        decreases n - i,
    {
        let name = fields[i].name;
        let arg = args[i].as_str();
        let ghost before = r@;
        assert(texts[i as int] == arg@);
        match fields[i].kind {
            FieldKind::Text => {
                r.push((name.to_owned(), ParamValue::Str(args[i].clone())));
                assert(flat_view(r@) == flat_view(before).push((name@, FlatValue::Text(arg@))));
            },
            FieldKind::Number => match parse_u64(arg) {
                Some(v) => {
                    r.push((name.to_owned(), ParamValue::Unsigned(v)));
                    assert(flat_view(r@) == flat_view(before).push((name@, FlatValue::Number(v))));
                },
                None => {
                    let mut msg: Vec<char> = Vec::new();
                    push_str(&mut msg, "Invalid ");
                    push_str(&mut msg, name);
                    push_str(&mut msg, " - must be a number");
                    proof {
                        assert(positional_params(texts, fields@, i + 1) == Err::<
                            Seq<(Seq<char>, FlatValue)>,
                            Seq<char>,
                        >(not_a_number(name@)));
                        lemma_positional_error(texts, fields@, i + 1, n as int);
                    }
                    return Err(ToolError::InvalidArgs { message: from_chars(msg.as_slice()) });
                },
            },
            FieldKind::OptionalNumber => match parse_usize(arg) {
                Some(v) => {
                    r.push((name.to_owned(), ParamValue::Unsigned(v as u64)));
                    assert(flat_view(r@) == flat_view(before).push(
                        (name@, FlatValue::Number(v as u64)),
                    ));
                },
                None => {},
            },
            FieldKind::OptionalFlag => match parse_bool(arg) {
                Some(b) => {
                    r.push((name.to_owned(), ParamValue::Bool(b)));
                    assert(flat_view(r@) == flat_view(before).push((name@, FlatValue::Flag(b))));
                },
                None => {},
            },
        }
        i += 1;
    }
    Ok(r)
}

/// An error at one position is the error of every longer run of positions.
pub proof fn lemma_positional_error(
    args: Seq<Seq<char>>,
    fields: Seq<PositionalField>,
    at: int,
    upto: int,
)
    requires
        0 < at <= upto,
        positional_params(args, fields, at) is Err,
    ensures
        positional_params(args, fields, upto) == positional_params(args, fields, at),
    decreases upto - at,
{
    if at < upto {
        lemma_positional_error(args, fields, at, upto - 1);
    }
}

/// The first of the keys `required` to which `flat` gives no value.
pub open spec fn first_missing(flat: Seq<(Seq<char>, FlatValue)>, required: Seq<&str>) -> Option<
    Seq<char>,
>
    decreases required.len(),
{
    if required.len() == 0 {
        None
    } else if flat_get(flat, required[0]@) is None {
        Some(required[0]@)
    } else {
        first_missing(flat, required.drop_first())
    }
}

/// The message for a required parameter that is missing.
pub open spec fn missing_parameter(key: Seq<char>) -> Seq<char> {
    "Missing required parameter: "@ + key
}

/// Checks that a value is given to every key of `required`, and names the
/// first one that is missing.
pub fn require_keys(params: &Params, required: &[&str]) -> (r: Result<(), ToolError>)
    ensures
        match first_missing(flat_view(params@), required@) {
            None => r is Ok,
            Some(k) => r matches Err(ToolError::InvalidArgs { message }) && message@
                == missing_parameter(k),
        },
{
    let ghost flat = flat_view(params@);
    let mut i: usize = 0;
    assert(required@.skip(0) == required@);
    while i < required.len()
        invariant
            i <= required.len(),
            flat == flat_view(params@),
            first_missing(flat, required@) == first_missing(flat, required@.skip(i as int)),
        decreases required.len() - i,
    {
        proof {
            assert(required@.skip(i as int)[0] == required@[i as int]);
            assert(required@.skip(i as int).drop_first() == required@.skip(i + 1));
        }
        if !param_has(params, required[i]) {
            let mut msg: Vec<char> = Vec::new();
            push_str(&mut msg, "Missing required parameter: ");
            push_str(&mut msg, required[i]);
            return Err(ToolError::InvalidArgs { message: from_chars(msg.as_slice()) });
        }
        i += 1;
    }
    Ok(())
}

/// Where the parameters of a request come from.
#[derive(Debug)]
pub enum ParamSource {
    /// The request carries its parameters as JSON text, still to be
    /// decoded.
    Json(String),
    /// The parameters, from named or positional arguments.
    Ready(Params),
}

/// What the arguments give as parameters, apart from positional ones: the
/// JSON text of the named argument `json` if there is one, else the named
/// arguments if there are any.
pub open spec fn named_source(args: ToolArgs) -> Option<Result<Seq<char>, Seq<(Seq<char>, FlatValue)>>> {
    match args.named("json"@) {
        Some(text) => Some(Ok(text)),
        None => if args.named_args.len() > 0 {
            Some(Err(named_params(args.named_args@)))
        } else {
            None
        },
    }
}

/// `src` is the source `expected`.
pub open spec fn is_source(
    src: ParamSource,
    expected: Result<Seq<char>, Seq<(Seq<char>, FlatValue)>>,
) -> bool {
    match expected {
        Ok(text) => src matches ParamSource::Json(t) && t@ == text,
        Err(flat) => src matches ParamSource::Ready(p) && flat_view(p@) == flat,
    }
}

/// The parameters that the named arguments carry, if they carry any: as
/// JSON text under the name `json`, or as the named arguments themselves.
pub fn source_from_named(args: &ToolArgs) -> (r: Option<ParamSource>)
    ensures
        match named_source(*args) {
            Some(expected) => r matches Some(src) && is_source(src, expected),
            None => r is None,
        },
{
    match args.get_named_arg("json") {
        Some(text) => Some(ParamSource::Json(text.clone())),
        None => {
            if args.named_args.len() > 0 {
                Some(ParamSource::Ready(params_from_named(&args.named_args)))
            } else {
                None
            }
        },
    }
}

/// What a tool with the positional arguments `fields`, at least `min` of
/// them, takes as the parameters of a request.
pub open spec fn source_of(
    args: ToolArgs,
    fields: Seq<PositionalField>,
    min: int,
    insufficient: Seq<char>,
) -> Result<Result<Seq<char>, Seq<(Seq<char>, FlatValue)>>, Seq<char>> {
    match named_source(args) {
        Some(src) => Ok(src),
        None => if args.args.len() >= min {
            match positional_params(
                args.positional(),
                fields,
                min_len(args.args.len() as int, fields.len() as int),
            ) {
                Ok(flat) => Ok(Err(flat)),
                Err(msg) => Err(msg),
            }
        } else {
            Err(insufficient)
        },
    }
}

/// Reads the parameters of a request from its arguments: JSON text, named
/// arguments, or positional arguments, in this order of preference.
pub fn parse_source(
    args: &ToolArgs,
    fields: &Vec<PositionalField>,
    min: usize,
    insufficient: &str,
) -> (r: Result<ParamSource, ToolError>)
    ensures
        match source_of(*args, fields@, min as int, insufficient@) {
            Ok(expected) => r matches Ok(src) && is_source(src, expected),
            Err(msg) => r matches Err(ToolError::InvalidArgs { message }) && message@ == msg,
        },
{
    match source_from_named(args) {
        Some(src) => Ok(src),
        None => {
            if args.len() >= min {
                match params_from_positional(&args.args, fields) {
                    Ok(p) => Ok(ParamSource::Ready(p)),
                    Err(e) => Err(e),
                }
            } else {
                Err(ToolError::InvalidArgs { message: insufficient.to_owned() })
            }
        },
    }
}

/// What validation owes for a source of parameters and the keys it must
/// hold: JSON text is accepted as it is, its fields being checked once it is
/// decoded; parameters must give a value to every required key.
pub open spec fn validated(
    source: Result<Result<Seq<char>, Seq<(Seq<char>, FlatValue)>>, Seq<char>>,
    required: Seq<&str>,
) -> Result<(), Seq<char>> {
    match source {
        Err(msg) => Err(msg),
        Ok(Ok(_)) => Ok(()),
        Ok(Err(flat)) => match first_missing(flat, required) {
            None => Ok(()),
            Some(k) => Err(missing_parameter(k)),
        },
    }
}

/// `r` is the outcome `expected` of a validation.
pub open spec fn is_validation(r: Result<(), ToolError>, expected: Result<(), Seq<char>>) -> bool {
    match expected {
        Ok(_) => r is Ok,
        Err(msg) => r matches Err(ToolError::InvalidArgs { message }) && message@ == msg,
    }
}

/// Validates the arguments of a tool with the positional arguments
/// `fields`, at least `min` of them, and the required keys `required`.
pub fn validate_source(
    args: &ToolArgs,
    fields: &Vec<PositionalField>,
    min: usize,
    insufficient: &str,
    required: &[&str],
) -> (r: Result<(), ToolError>)
    ensures
        is_validation(
            r,
            validated(source_of(*args, fields@, min as int, insufficient@), required@),
        ),
{
    match parse_source(args, fields, min, insufficient) {
        Err(e) => Err(e),
        Ok(ParamSource::Json(_)) => Ok(()),
        Ok(ParamSource::Ready(p)) => require_keys(&p, required),
    }
}


/// The text given to `key`, or the error `message` where no string is
/// given.
pub fn required_text(params: &Params, key: &str, message: &str) -> (r: Result<String, ToolError>)
    ensures
        match text_at(flat_view(params@), key@) {
            Some(t) => r matches Ok(s) && s@ == t,
            None => r matches Err(ToolError::InvalidArgs { message: m }) && m@ == message@,
        },
{
    match param_str(params, key) {
        Some(s) => Ok(s.clone()),
        None => Err(ToolError::InvalidArgs { message: message.to_owned() }),
    }
}

/// The number given to `key`, or the error `message` where none is given.
pub fn required_number(params: &Params, key: &str, message: &str) -> (r: Result<u64, ToolError>)
    ensures
        match number_at(flat_view(params@), key@) {
            Some(n) => r == Ok::<u64, ToolError>(n),
            None => r matches Err(ToolError::InvalidArgs { message: m }) && m@ == message@,
        },
{
    match param_u64(params, key) {
        Some(n) => Ok(n),
        None => Err(ToolError::InvalidArgs { message: message.to_owned() }),
    }
}

/// A count as `usize`, the largest one standing for every larger count.
pub open spec fn count_of(n: u64) -> usize {
    if n <= usize::MAX {
        n as usize
    } else {
        usize::MAX
    }
}

/// A count as `usize`.
pub fn to_count(n: u64) -> (r: usize)
    ensures
        r == count_of(n),
{
    if n <= usize::MAX as u64 {
        n as usize
    } else {
        usize::MAX
    }
}

/// The count given to `key`, if a number is given.
pub open spec fn count_at(flat: Seq<(Seq<char>, FlatValue)>, key: Seq<char>) -> Option<usize> {
    match number_at(flat, key) {
        Some(n) => Some(count_of(n)),
        None => None,
    }
}

/// The count given to `key`, if a number is given.
pub fn optional_count(params: &Params, key: &str) -> (r: Option<usize>)
    ensures
        r == count_at(flat_view(params@), key@),
{
    match param_u64(params, key) {
        Some(n) => Some(to_count(n)),
        None => None,
    }
}

/// What a tool that needs a positional argument owes: the error `usage`
/// where there is none.
pub open spec fn needs_positional(args: ToolArgs, usage: Seq<char>) -> Result<(), Seq<char>> {
    if args.args.len() == 0 {
        Err(usage)
    } else {
        Ok(())
    }
}

/// Checks that there is a positional argument.
pub fn require_positional(args: &ToolArgs, usage: &str) -> (r: Result<(), ToolError>)
    ensures
        is_validation(r, needs_positional(*args, usage@)),
{
    if args.is_empty() {
        Err(ToolError::InvalidArgs { message: usage.to_owned() })
    } else {
        Ok(())
    }
}


/// The fields of the object given to `key`, if an object is given.
pub open spec fn nested_at(params: Seq<(String, ParamValue)>, key: Seq<char>) -> Option<
    Seq<(String, ParamValue)>,
> {
    match assoc_get(params, key) {
        Some(ParamValue::Object { fields, .. }) => Some(fields@),
        _ => None,
    }
}

/// The fields of the object given to `key`, if an object is given.
pub fn param_object<'a>(params: &'a Params, key: &str) -> (r: Option<&'a Params>)
    ensures
        match r {
            Some(fields) => nested_at(params@, key@) == Some(fields@),
            None => nested_at(params@, key@) is None,
        },
{
    match assoc_find(params, key) {
        Some(i) => match &params[i].1 {
            ParamValue::Object { fields, .. } => Some(fields),
            _ => None,
        },
        None => None,
    }
}

/// The boolean given to `key`, or `default` where none is given.
pub open spec fn flag_or(flat: Seq<(Seq<char>, FlatValue)>, key: Seq<char>, default: bool) -> bool {
    match flag_at(flat, key) {
        Some(b) => b,
        None => default,
    }
}

/// The boolean given to `key`, or `default` where none is given.
pub fn param_bool_or(params: &Params, key: &str, default: bool) -> (r: bool)
    ensures
        r == flag_or(flat_view(params@), key@, default),
{
    match param_bool(params, key) {
        Some(b) => b,
        None => default,
    }
}

/// The count given to `key`, or `default` where no number is given.
pub open spec fn count_or(flat: Seq<(Seq<char>, FlatValue)>, key: Seq<char>, default: usize) -> usize {
    match count_at(flat, key) {
        Some(n) => n,
        None => default,
    }
}

/// The count given to `key`, or `default` where no number is given.
pub fn param_count_or(params: &Params, key: &str, default: usize) -> (r: usize)
    ensures
        r == count_or(flat_view(params@), key@, default),
{
    match optional_count(params, key) {
        Some(n) => n,
        None => default,
    }
}

/// The text given to `key`, or `default` where no string is given.
pub open spec fn text_or(flat: Seq<(Seq<char>, FlatValue)>, key: Seq<char>, default: Seq<char>) -> Seq<
    char,
> {
    match text_at(flat, key) {
        Some(t) => t,
        None => default,
    }
}

/// The text given to `key`, or `default` where no string is given.
pub fn param_text_or(params: &Params, key: &str, default: &str) -> (r: String)
    ensures
        r@ == text_or(flat_view(params@), key@, default@),
{
    match param_str(params, key) {
        Some(s) => s.clone(),
        None => default.to_owned(),
    }
}

} // verus!
