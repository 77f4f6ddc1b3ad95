//! How long the summaries of tool calls and results are.

use crate::bytes::{ellipsized, lemma_byte_len_bounds, lemma_floor, prefix_within};
use crate::json::JsonView;
use crate::loop_event::{args_summary, failure_text, file_count, result_summary, text_or_empty};
use crate::number::lemma_decimal_of_u64;
use crate::text::lines;
use vstd::prelude::*;

verus! {

proof fn lemma_ellipsized_len(s: Seq<char>, max: int)
    requires
        max >= 0,
    ensures
        ellipsized(s, max).len() <= max + 1,
{
    reveal_strlit("…");
    lemma_byte_len_bounds(s);
    lemma_floor(s, max);
    lemma_byte_len_bounds(prefix_within(s, max));
}

/// The summary of a call's arguments is at most 80 characters long, whatever the tool.
pub proof fn law_args_summary_is_short(tool_name: Seq<char>, args: JsonView)
    ensures
        args_summary(tool_name, args) matches Some(s) ==> 0 < s.len() <= 80,
{
    reveal_strlit("…");
}

/// Only calls of the seven tools that are known have a summary.
pub proof fn law_args_summary_by_tool(tool_name: Seq<char>, args: JsonView)
    requires
        args_summary(tool_name, args) is Some,
    ensures
        tool_name == "Read"@ || tool_name == "Edit"@ || tool_name == "Write"@ || tool_name
            == "Bash"@ || tool_name == "Grep"@ || tool_name == "Glob"@ || tool_name == "Agent"@,
{
}

/// The numbers that a result reports, and the lines that it holds, can be counted.
pub open spec fn countable(data: JsonView) -> bool {
    &&& data.member_unsigned("match_count"@) matches Some(n) ==> n <= u64::MAX
    &&& data.member_unsigned("size"@) matches Some(n) ==> n <= u64::MAX
    &&& data.member_signed("exit_code"@) matches Some(n) ==> i64::MIN <= n <= i64::MAX
    &&& lines(text_or_empty(data, "stdout"@)).len() <= u64::MAX
    &&& data.member_text("content"@) matches Some(content) ==> lines(content).len() <= u64::MAX
    &&& file_count(data) <= u64::MAX
}

/// The summary of a result is at most 80 characters long.
pub proof fn law_result_summary_is_short(tool_name: Seq<char>, ok: bool, data: JsonView)
    requires
        countable(data),
    ensures
        result_summary(tool_name, ok, data) matches Some(s) ==> 0 < s.len() <= 80,
{
    reveal_strlit("error: ");
    reveal_strlit("exit ");
    reveal_strlit(" (");
    reveal_strlit(" lines)");
    reveal_strlit(" matches in ");
    reveal_strlit(" files");
    reveal_strlit(" replacement(s)");
    reveal_strlit("applied");
    reveal_strlit("written");
    reveal_strlit(" lines, ");
    reveal_strlit("KB");
    reveal_strlit(" lines");
    reveal_strlit("-");
    lemma_ellipsized_len(failure_text(data), 72);
    let exit_code = match data.member_signed("exit_code"@) {
        Some(n) => n,
        None => -1,
    };
    let matches = match data.member_unsigned("match_count"@) {
        Some(n) => n,
        None => 0,
    };
    let size = match data.member_unsigned("size"@) {
        Some(n) => n,
        None => 0,
    };
    lemma_decimal_of_u64(
        if exit_code < 0 {
            (-exit_code) as nat
        } else {
            exit_code as nat
        },
    );
    lemma_decimal_of_u64(matches);
    lemma_decimal_of_u64(size / 1024);
    lemma_decimal_of_u64(lines(text_or_empty(data, "stdout"@)).len());
    lemma_decimal_of_u64(file_count(data));
    match data.member_text("content"@) {
        Some(content) => {
            lemma_decimal_of_u64(lines(content).len());
        },
        None => {},
    }
}

} // verus!
