//! Handling of tool results that are too large to hand on.

use crate::text::{decimal, from_chars, push_decimal, push_str};
use vstd::prelude::*;
use vstd::string::StringSliceAdditionalSpecFns;
use vstd::utf8::{decode_utf8, encode_utf8, is_char_boundary};

verus! {

/// How large results are handled.
#[derive(Debug, Clone, Copy)]
pub struct ResultHandlerConfig {
    /// The largest result, in bytes, that is handed on as it is.
    pub max_size_bytes: usize,
    /// Whether a larger result is cut (true) or replaced by a warning.
    pub truncate_enabled: bool,
}

impl Default for ResultHandlerConfig {
    fn default() -> (r: Self)
        ensures
            r.max_size_bytes == 256000,
            r.truncate_enabled,
    {
        ResultHandlerConfig { max_size_bytes: 256000, truncate_enabled: true }
    }
}

/// The last character boundary of `bytes` at or before `at`.
pub open spec fn floor_boundary(bytes: Seq<u8>, at: int) -> int
    decreases at,
{
    if at <= 0 || is_char_boundary(bytes, at) {
        at
    } else {
        floor_boundary(bytes, at - 1)
    }
}

/// The warning appended to a result that was cut.
pub open spec fn truncation_warning(size: nat, limit: nat) -> Seq<char> {
    "\n\n⚠️ WARNING: Tool result was truncated due to size limit ("@ + decimal(size)
        + " bytes > "@ + decimal(limit)
        + " bytes). The result may be incomplete. Please refine your query to get more specific information or use more targeted search parameters to reduce result size."@
}

/// The warning that stands in for a result that was left out.
pub open spec fn too_large_warning(tool_name: Seq<char>, size: nat, limit: nat) -> Seq<char> {
    "⚠️ RESULT TOO LARGE: Tool '"@ + tool_name + "' returned "@ + decimal(size)
        + " bytes (limit: "@ + decimal(limit)
        + " bytes). The result was not included to prevent API payload errors. Please refine your query to be more specific and reduce the result size. Consider using:\n- More specific search terms\n- Smaller file ranges\n- Targeted grep patterns\n- Pagination or limited result counts"@
}

/// What `handle_large_result` returns for a result: the result itself
/// while its UTF-8 encoding fits the limit; else its longest prefix of whole
/// characters within the limit, followed by a warning; or, with truncation
/// off, a warning alone. Sizes are byte counts as `str::len` reports them.
pub open spec fn handled_result(
    tool_name: Seq<char>,
    message: Seq<char>,
    config: ResultHandlerConfig,
) -> Seq<char> {
    let bytes = encode_utf8(message);
    let size = bytes.len() as usize;
    if size > config.max_size_bytes {
        if config.truncate_enabled {
            decode_utf8(bytes.subrange(0, floor_boundary(bytes, config.max_size_bytes as int)))
                + truncation_warning(size as nat, config.max_size_bytes as nat)
        } else {
            too_large_warning(tool_name, size as nat, config.max_size_bytes as nat)
        }
    } else {
        message
    }
}

/// Cuts or replaces a tool result that exceeds the size limit.
pub fn handle_large_result(tool_name: &str, result_message: &str, config: &ResultHandlerConfig) -> (r:
    String)
    ensures
        r@ == handled_result(tool_name@, result_message@, *config),
{
    let result_size = result_message.len();
    if result_size > config.max_size_bytes {
        let mut out: Vec<char> = Vec::new();
        if config.truncate_enabled {
            let mut cut: usize = config.max_size_bytes;
            proof {
                broadcast use vstd::utf8::encode_utf8_valid_utf8;

            }
            while cut > 0 && !result_message.is_char_boundary(cut)
                invariant
                    cut <= config.max_size_bytes,
                    floor_boundary(result_message.spec_bytes(), config.max_size_bytes as int)
                        == floor_boundary(result_message.spec_bytes(), cut as int),
                decreases cut,
            {
                cut -= 1;
            }
            proof {
                broadcast use vstd::utf8::encode_utf8_valid_utf8;
                broadcast use vstd::utf8::encode_utf8_decode_utf8;
                broadcast use vstd::utf8::is_char_boundary_start_end_of_seq;

                assert(is_char_boundary(result_message.spec_bytes(), cut as int));
            }
            let (head, _tail) = result_message.split_at(cut);
            proof {
                broadcast use vstd::utf8::encode_utf8_decode_utf8;

                assert(decode_utf8(encode_utf8(head@)) == head@);
            }
            push_str(&mut out, head);
            push_str(
                &mut out,
                "\n\n⚠️ WARNING: Tool result was truncated due to size limit (",
            );
            push_decimal(&mut out, result_size);
            push_str(&mut out, " bytes > ");
            push_decimal(&mut out, config.max_size_bytes);
            push_str(
                &mut out,
                " bytes). The result may be incomplete. Please refine your query to get more specific information or use more targeted search parameters to reduce result size.",
            );
        } else {
            push_str(&mut out, "⚠️ RESULT TOO LARGE: Tool '");
            push_str(&mut out, tool_name);
            push_str(&mut out, "' returned ");
            push_decimal(&mut out, result_size);
            push_str(&mut out, " bytes (limit: ");
            push_decimal(&mut out, config.max_size_bytes);
            push_str(
                &mut out,
                " bytes). The result was not included to prevent API payload errors. Please refine your query to be more specific and reduce the result size. Consider using:\n- More specific search terms\n- Smaller file ranges\n- Targeted grep patterns\n- Pagination or limited result counts",
            );
        }
        from_chars(out.as_slice())
    } else {
        result_message.to_owned()
    }
}

} // verus!
