//! Conversion of the decoded arguments of a function call into the
//! positional and named arguments that a tool takes.

use crate::params::{flat_get, flat_of, flat_view, param_get, FlatValue};
use crate::text::{decimal, from_chars, push_decimal_wide, string_texts};
use crate::tool_core::{str_eq, ParamValue, Params, ToolArgs};
use vstd::prelude::*;

verus! {

/// What kind of value an argument takes.
#[derive(Debug, Clone, Copy, PartialEq, Eq, Structural)]
pub enum ArgKind {
    Text,
    Number,
    Flag,
}

/// How one positional argument of a tool is taken from the fields of a
/// call: from the field `key`, or else from the field `alt`, whichever
/// holds a value of the kind wanted first. Where `named` is set the
/// argument is passed under the name `key` as well.
pub struct ArgRule {
    pub key: &'static str,
    pub alt: Option<&'static str>,
    pub kind: ArgKind,
    pub named: bool,
}

/// The text that stands for a value among the arguments of a tool.
pub open spec fn rendered(v: FlatValue) -> Seq<char> {
    match v {
        FlatValue::Text(t) => t,
        FlatValue::Flag(b) => if b {
            "true"@
        } else {
            "false"@
        },
        FlatValue::Number(n) => decimal(n as nat),
        FlatValue::Fraction(_, _, text) => text,
        FlatValue::Nested(text) => text,
        FlatValue::Opaque(text) => text,
    }
}

/// Whether a value is of the kind wanted.
pub open spec fn has_kind(v: FlatValue, kind: ArgKind) -> bool {
    match kind {
        ArgKind::Text => v is Text,
        ArgKind::Number => v is Number,
        ArgKind::Flag => v is Flag,
    }
}

/// The text of the value of the kind wanted under `key`, if there is one.
pub open spec fn value_under(flat: Seq<(Seq<char>, FlatValue)>, key: Seq<char>, kind: ArgKind) -> Option<
    Seq<char>,
> {
    match flat_get(flat, key) {
        Some(v) => if has_kind(v, kind) {
            Some(rendered(v))
        } else {
            None
        },
        None => None,
    }
}

/// The argument that a rule takes from the fields, if they hold one.
pub open spec fn rule_value(flat: Seq<(Seq<char>, FlatValue)>, rule: ArgRule) -> Option<Seq<char>> {
    match value_under(flat, rule.key@, rule.kind) {
        Some(t) => Some(t),
        None => match rule.alt {
            Some(alt) => value_under(flat, alt@, rule.kind),
            None => None,
        },
    }
}

/// The positional arguments that the first `upto` rules take from the
/// fields, in order.
pub open spec fn positional_by_rules(
    flat: Seq<(Seq<char>, FlatValue)>,
    rules: Seq<ArgRule>,
    upto: int,
) -> Seq<Seq<char>>
    decreases upto,
{
    if upto <= 0 {
        Seq::empty()
    } else {
        match rule_value(flat, rules[upto - 1]) {
            Some(t) => positional_by_rules(flat, rules, upto - 1).push(t),
            None => positional_by_rules(flat, rules, upto - 1),
        }
    }
}

/// The named arguments that the first `upto` rules take from the fields,
/// in order.
pub open spec fn named_by_rules(
    flat: Seq<(Seq<char>, FlatValue)>,
    rules: Seq<ArgRule>,
    upto: int,
) -> Seq<(Seq<char>, Seq<char>)>
    decreases upto,
{
    if upto <= 0 {
        Seq::empty()
    } else {
        match rule_value(flat, rules[upto - 1]) {
            Some(t) => if rules[upto - 1].named {
                named_by_rules(flat, rules, upto - 1).push((rules[upto - 1].key@, t))
            } else {
                named_by_rules(flat, rules, upto - 1)
            },
            None => named_by_rules(flat, rules, upto - 1),
        }
    }
}

/// Every field as a named argument, its value as text.
pub open spec fn all_named(flat: Seq<(Seq<char>, FlatValue)>) -> Seq<(Seq<char>, Seq<char>)> {
    flat.map_values(|p: (Seq<char>, FlatValue)| (p.0, rendered(p.1)))
}

/// Named arguments as pairs of texts.
pub open spec fn pairs_view(v: Seq<(String, String)>) -> Seq<(Seq<char>, Seq<char>)> {
    v.map_values(|p: (String, String)| (p.0@, p.1@))
}

/// A rule for a text argument.
pub open spec fn text_rule(key: &'static str) -> ArgRule {
    ArgRule { key, alt: None, kind: ArgKind::Text, named: false }
}

/// A rule for a number argument.
pub open spec fn number_rule(key: &'static str) -> ArgRule {
    ArgRule { key, alt: None, kind: ArgKind::Number, named: false }
}

/// A rule for a boolean argument.
pub open spec fn flag_rule(key: &'static str) -> ArgRule {
    ArgRule { key, alt: None, kind: ArgKind::Flag, named: false }
}

/// The rules by which the tool `tool` takes its positional arguments from
/// the fields of a call. `None` for the edit tool and for tools that are
/// not known: they take every field as a named argument.
pub open spec fn rules_for(tool: Seq<char>) -> Option<Seq<ArgRule>> {
    if tool == "open"@ {
        Some(seq![text_rule("path"), number_rule("line_number")])
    } else if tool == "goto"@ {
        Some(seq![number_rule("line_number")])
    } else if tool == "create"@ {
        Some(seq![text_rule("filename")])
    } else if tool == "find_file"@ {
        Some(seq![text_rule("file_name"), text_rule("dir")])
    } else if tool == "search_file"@ {
        Some(seq![text_rule("search_term"), text_rule("file")])
    } else if tool == "search_dir"@ {
        Some(seq![text_rule("search_term"), text_rule("dir")])
    } else if tool == "insert"@ || tool == "insert_text"@ {
        Some(seq![text_rule("path"), number_rule("line_number"), text_rule("text")])
    } else if tool == "run_command"@ {
        Some(seq![text_rule("command")])
    } else if tool == "filemap"@ {
        Some(seq![text_rule("file_path")])
    } else if tool == "create_file"@ || tool == "overwrite_file"@ {
        Some(seq![text_rule("path"), text_rule("content")])
    } else if tool == "replace_text"@ {
        Some(
            seq![
                text_rule("path"),
                text_rule("old_text"),
                text_rule("new_text"),
                number_rule("occurrence"),
            ],
        )
    } else if tool == "delete_function"@ {
        Some(
            seq![
                ArgRule { key: "file_name", alt: Some("path"), kind: ArgKind::Text, named: false },
                text_rule("function_name"),
            ],
        )
    } else if tool == "delete_text"@ {
        Some(
            seq![
                text_rule("path"),
                ArgRule {
                    key: "text_to_delete",
                    alt: Some("text"),
                    kind: ArgKind::Text,
                    named: false,
                },
                number_rule("occurrence"),
            ],
        )
    } else if tool == "delete_line"@ {
        Some(seq![text_rule("path"), number_rule("start_line"), number_rule("end_line")])
    } else if tool == "delete_path"@ || tool == "list_directory"@ {
        Some(seq![text_rule("path"), flag_rule("recursive")])
    } else if tool == "copy_path"@ {
        Some(
            seq![
                ArgRule { key: "source", alt: Some("src"), kind: ArgKind::Text, named: true },
                ArgRule { key: "destination", alt: Some("dest"), kind: ArgKind::Text, named: true },
                ArgRule { key: "recursive", alt: None, kind: ArgKind::Flag, named: true },
            ],
        )
    } else if tool == "move_path"@ {
        Some(
            seq![
                ArgRule { key: "source", alt: Some("src"), kind: ArgKind::Text, named: true },
                ArgRule { key: "destination", alt: Some("dest"), kind: ArgKind::Text, named: true },
            ],
        )
    } else if tool == "get_file_info"@ {
        Some(seq![text_rule("path")])
    } else if tool == "get_current_directory"@ || tool == "submit"@ {
        Some(Seq::empty())
    } else if tool == "find_files"@ {
        Some(seq![text_rule("pattern"), text_rule("dir")])
    } else if tool == "classify_task"@ {
        Some(seq![text_rule("task_type")])
    } else {
        None
    }
}

/// The rules of the edit tool for its positional arguments, which it takes
/// beside every field as a named argument.
pub open spec fn edit_rules() -> Seq<ArgRule> {
    seq![text_rule("path"), text_rule("old_text"), text_rule("new_text")]
}

/// The positional arguments of a call to `tool` with the fields `flat`.
pub open spec fn converted_positional(tool: Seq<char>, flat: Seq<(Seq<char>, FlatValue)>) -> Seq<
    Seq<char>,
> {
    match rules_for(tool) {
        Some(rules) => positional_by_rules(flat, rules, rules.len() as int),
        None => if tool == "edit"@ {
            positional_by_rules(flat, edit_rules(), 3)
        } else {
            Seq::empty()
        },
    }
}

/// The named arguments of a call to `tool` with the fields `flat`.
pub open spec fn converted_named(tool: Seq<char>, flat: Seq<(Seq<char>, FlatValue)>) -> Seq<
    (Seq<char>, Seq<char>),
> {
    match rules_for(tool) {
        Some(rules) => named_by_rules(flat, rules, rules.len() as int),
        None => all_named(flat),
    }
}

fn t(key: &'static str) -> (r: ArgRule)
    ensures
        r == text_rule(key),
{
    ArgRule { key, alt: None, kind: ArgKind::Text, named: false }
}

fn n(key: &'static str) -> (r: ArgRule)
    ensures
        r == number_rule(key),
{
    ArgRule { key, alt: None, kind: ArgKind::Number, named: false }
}

fn f(key: &'static str) -> (r: ArgRule)
    ensures
        r == flag_rule(key),
{
    ArgRule { key, alt: None, kind: ArgKind::Flag, named: false }
}

fn rules_for_exec(tool: &str) -> (r: Option<Vec<ArgRule>>)
    ensures
        match r {
            Some(rules) => rules_for(tool@) == Some(rules@),
            None => rules_for(tool@) is None,
        },
{
    if str_eq(tool, "open") {
        Some(vec![t("path"), n("line_number")])
    } else if str_eq(tool, "goto") {
        Some(vec![n("line_number")])
    } else if str_eq(tool, "create") {
        Some(vec![t("filename")])
    } else if str_eq(tool, "find_file") {
        Some(vec![t("file_name"), t("dir")])
    } else if str_eq(tool, "search_file") {
        Some(vec![t("search_term"), t("file")])
    } else if str_eq(tool, "search_dir") {
        Some(vec![t("search_term"), t("dir")])
    } else if str_eq(tool, "insert") || str_eq(tool, "insert_text") {
        Some(vec![t("path"), n("line_number"), t("text")])
    } else if str_eq(tool, "run_command") {
        Some(vec![t("command")])
    } else if str_eq(tool, "filemap") {
        Some(vec![t("file_path")])
    } else if str_eq(tool, "create_file") || str_eq(tool, "overwrite_file") {
        Some(vec![t("path"), t("content")])
    } else if str_eq(tool, "replace_text") {
        Some(vec![t("path"), t("old_text"), t("new_text"), n("occurrence")])
    } else if str_eq(tool, "delete_function") {
        Some(
            vec![
                ArgRule { key: "file_name", alt: Some("path"), kind: ArgKind::Text, named: false },
                t("function_name"),
            ],
        )
    } else if str_eq(tool, "delete_text") {
        Some(
            vec![
                t("path"),
                ArgRule {
                    key: "text_to_delete",
                    alt: Some("text"),
                    kind: ArgKind::Text,
                    named: false,
                },
                n("occurrence"),
            ],
        )
    } else if str_eq(tool, "delete_line") {
        Some(vec![t("path"), n("start_line"), n("end_line")])
    } else if str_eq(tool, "delete_path") || str_eq(tool, "list_directory") {
        Some(vec![t("path"), f("recursive")])
    } else if str_eq(tool, "copy_path") {
        Some(
            vec![
                ArgRule { key: "source", alt: Some("src"), kind: ArgKind::Text, named: true },
                ArgRule { key: "destination", alt: Some("dest"), kind: ArgKind::Text, named: true },
                ArgRule { key: "recursive", alt: None, kind: ArgKind::Flag, named: true },
            ],
        )
    } else if str_eq(tool, "move_path") {
        Some(
            vec![
                ArgRule { key: "source", alt: Some("src"), kind: ArgKind::Text, named: true },
                ArgRule { key: "destination", alt: Some("dest"), kind: ArgKind::Text, named: true },
            ],
        )
    } else if str_eq(tool, "get_file_info") {
        Some(vec![t("path")])
    } else if str_eq(tool, "get_current_directory") || str_eq(tool, "submit") {
        Some(Vec::new())
    } else if str_eq(tool, "find_files") {
        Some(vec![t("pattern"), t("dir")])
    } else if str_eq(tool, "classify_task") {
        Some(vec![t("task_type")])
    } else {
        None
    }
}

fn render(v: &ParamValue) -> (r: String)
    ensures
        r@ == rendered(flat_of(*v)),
{
    match v {
        ParamValue::Str(s) => s.clone(),
        ParamValue::Bool(b) => if *b {
            "true".to_owned()
        } else {
            "false".to_owned()
        },
        ParamValue::Unsigned(n) => {
            let mut out: Vec<char> = Vec::new();
            push_decimal_wide(&mut out, *n as u128);
            from_chars(out.as_slice())
        },
        ParamValue::Fraction { text, .. } => text.clone(),
        ParamValue::Object { text, .. } => text.clone(),
        ParamValue::Other { text } => text.clone(),
    }
}

fn value_under_exec(fields: &Params, key: &str, kind: ArgKind) -> (r: Option<String>)
    ensures
        match r {
            Some(s) => value_under(flat_view(fields@), key@, kind) == Some(s@),
            None => value_under(flat_view(fields@), key@, kind) is None,
        },
{
    match param_get(fields, key) {
        Some(v) => {
            let fits = match kind {
                ArgKind::Text => match v {
                    ParamValue::Str(_) => true,
                    _ => false,
                },
                ArgKind::Number => match v {
                    ParamValue::Unsigned(_) => true,
                    _ => false,
                },
                ArgKind::Flag => match v {
                    ParamValue::Bool(_) => true,
                    _ => false,
                },
            };
            if fits {
                Some(render(v))
            } else {
                None
            }
        },
        None => None,
    }
}

fn rule_value_exec(fields: &Params, rule: &ArgRule) -> (r: Option<String>)
    ensures
        match r {
            Some(s) => rule_value(flat_view(fields@), *rule) == Some(s@),
            None => rule_value(flat_view(fields@), *rule) is None,
        },
{
    match value_under_exec(fields, rule.key, rule.kind) {
        Some(s) => Some(s),
        None => match rule.alt {
            Some(alt) => value_under_exec(fields, alt, rule.kind),
            None => None,
        },
    }
}

fn apply_rules(fields: &Params, rules: &Vec<ArgRule>) -> (r: (Vec<String>, Vec<(String, String)>))
    ensures
        string_texts(r.0@) == positional_by_rules(flat_view(fields@), rules@, rules.len() as int),
        pairs_view(r.1@) == named_by_rules(flat_view(fields@), rules@, rules.len() as int),
{
    let mut positional: Vec<String> = Vec::new();
    let mut named: Vec<(String, String)> = Vec::new();
    let ghost flat = flat_view(fields@);
    let mut i: usize = 0;
    assert(string_texts(positional@) == Seq::<Seq<char>>::empty());
    assert(pairs_view(named@) == Seq::<(Seq<char>, Seq<char>)>::empty());
    while i < rules.len()
        invariant
            i <= rules.len(),
            flat == flat_view(fields@),
            string_texts(positional@) == positional_by_rules(flat, rules@, i as int),
            pairs_view(named@) == named_by_rules(flat, rules@, i as int),
        decreases rules.len() - i,
    {
        match rule_value_exec(fields, &rules[i]) {
            Some(s) => {
                let ghost p0 = positional@;
                let ghost n0 = named@;
                if rules[i].named {
                    named.push((rules[i].key.to_owned(), s.clone()));
                    assert(pairs_view(named@) == pairs_view(n0).push((rules[i as int].key@, s@)));
                }
                positional.push(s);
                assert(string_texts(positional@) == string_texts(p0).push(s@));
            },
            None => {},
        }
        i += 1;
    }
    (positional, named)
}

fn name_all(fields: &Params) -> (r: Vec<(String, String)>)
    ensures
        pairs_view(r@) == all_named(flat_view(fields@)),
{
    let mut named: Vec<(String, String)> = Vec::new();
    let ghost flat = flat_view(fields@);
    let mut i: usize = 0;
    while i < fields.len()
        invariant
            i <= fields.len(),
            flat == flat_view(fields@),
            named.len() == i,
            forall|j: int|
                0 <= j < i ==> (#[trigger] named[j]).0@ == flat[j].0 && named[j].1@ == rendered(
                    flat[j].1,
                ),
        decreases fields.len() - i,
    {
        named.push((fields[i].0.clone(), render(&fields[i].1)));
        i += 1;
    }
    assert(pairs_view(named@) =~= all_named(flat));
    named
}

/// The fields of decoded arguments: those of an object, and none of
/// anything else.
pub open spec fn fields_of(args: ParamValue) -> Seq<(Seq<char>, FlatValue)> {
    match args {
        ParamValue::Object { fields, .. } => flat_view(fields@),
        _ => Seq::empty(),
    }
}

/// Converts the decoded arguments of a call to `tool_name` into the
/// arguments that the tool takes. Tools that are known take their
/// positional arguments from the fields that their rules name; the edit
/// tool and unknown tools take every field as a named argument. Arguments
/// that are no object give no arguments at all.
pub fn json_to_tool_args(tool_name: &str, args: &ParamValue) -> (r: ToolArgs)
    ensures
        args is Object ==> r.positional() == converted_positional(tool_name@, fields_of(*args))
            && pairs_view(r.named_args@) == converted_named(tool_name@, fields_of(*args)),
        !(args is Object) ==> r.args.len() == 0 && r.named_args.len() == 0,
{
    match args {
        ParamValue::Object { fields, .. } => {
            match rules_for_exec(tool_name) {
                Some(rules) => {
                    let (positional, named) = apply_rules(fields, &rules);
                    ToolArgs::with_named_args(positional, named)
                },
                None => {
                    let named = name_all(fields);
                    if str_eq(tool_name, "edit") {
                        let rules = vec![t("path"), t("old_text"), t("new_text")];
                        assert(rules@ == edit_rules());
                        let (positional, _unused) = apply_rules(fields, &rules);
                        ToolArgs::with_named_args(positional, named)
                    } else {
                        ToolArgs::with_named_args(Vec::new(), named)
                    }
                },
            }
        },
        _ => ToolArgs::with_named_args(Vec::new(), Vec::new()),
    }
}

} // verus!
