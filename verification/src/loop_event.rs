//! Short summaries of tool calls and their results.

use crate::bytes::{ellipsized, truncate};
use crate::json::{Json, JsonView};
use crate::number::{decimal, decimal_signed, decimal_signed_text, decimal_text, push_decimal};
use crate::split::{lemma_views_push, lines_text, list_has, split_text};
use crate::text::{chars_of, lines, opt_view, split, str_eq, string_from, views};
use vstd::prelude::*;

verus! {

/// The last two components of a path.
pub open spec fn tail_of_path(path: Seq<char>) -> Seq<char> {
    let pieces = split(path, '/');
    if pieces.len() >= 2 {
        pieces[pieces.len() - 2] + "/"@ + pieces[pieces.len() - 1]
    } else {
        pieces[0]
    }
}

pub fn short_path(path: &str) -> (r: String)
    ensures
        r@ == tail_of_path(path@),
{
    let pieces: Vec<String> = split_text(path, '/');
    assert(views(pieces@).len() == pieces@.len());
    let n: usize = pieces.len();
    if n >= 2 {
        let mut out: String = pieces[n - 2].clone();
        out.append("/");
        out.append(pieces[n - 1].as_str());
        out
    } else {
        pieces[0].clone()
    }
}

/// The text of the member, or nothing.
pub open spec fn text_or_empty(args: JsonView, key: Seq<char>) -> Seq<char> {
    match args.member_text(key) {
        Some(s) => s,
        None => ""@,
    }
}

fn json_str_or_empty<'a>(args: &'a Json, key: &str) -> (r: &'a str)
    ensures
        r@ == text_or_empty(args@, key@),
{
    match args.get_str(key) {
        Some(s) => s,
        None => "",
    }
}

/// A summary has at most this many characters.
pub const SUMMARY_CHARS: usize = 80;

/// A summary, cut and marked with an ellipsis where it is too long.
pub open spec fn within_summary(s: Seq<char>) -> Seq<char> {
    if s.len() <= SUMMARY_CHARS {
        s
    } else {
        s.take(SUMMARY_CHARS - 1) + "…"@
    }
}

/// What a call's arguments come down to; an empty summary is none.
pub open spec fn args_summary(tool_name: Seq<char>, args: JsonView) -> Option<Seq<char>> {
    let s = if tool_name == "Read"@ {
        tail_of_path(text_or_empty(args, "path"@))
    } else if tool_name == "Edit"@ || tool_name == "Write"@ {
        tail_of_path(text_or_empty(args, "file_path"@))
    } else if tool_name == "Bash"@ {
        ellipsized(text_or_empty(args, "command"@), 72)
    } else if tool_name == "Grep"@ {
        "\""@ + ellipsized(text_or_empty(args, "pattern"@), 40) + "\" in "@ + tail_of_path(
            match args.member_text("path"@) {
                Some(path) => path,
                None => "."@,
            },
        )
    } else if tool_name == "Glob"@ {
        ellipsized(text_or_empty(args, "pattern"@), 72)
    } else if tool_name == "Agent"@ {
        ellipsized(text_or_empty(args, "description"@), 72)
    } else {
        seq![]
    };
    if s.len() == 0 {
        None
    } else {
        Some(within_summary(s))
    }
}

fn none_if_empty(s: String) -> (r: Option<String>)
    ensures
        opt_view(r) == (if s@.len() == 0 {
            None
        } else {
            Some(s@)
        }),
{
    if s.as_str().is_empty() {
        None
    } else {
        Some(s)
    }
}

fn short_summary(s: String) -> (r: Option<String>)
    ensures
        opt_view(r) == (if s@.len() == 0 {
            None
        } else {
            Some(within_summary(s@))
        }),
{
    let chars: Vec<char> = chars_of(s.as_str());
    if chars.len() <= SUMMARY_CHARS {
        return none_if_empty(s);
    }
    let mut out: String = string_from(&chars, 0, SUMMARY_CHARS - 1);
    out.append("…");
    Some(out)
}

/// A summary of a tool call's arguments.
pub fn summarize_tool_args(tool_name: &str, args: &Json) -> (r: Option<String>)
    ensures
        opt_view(r) == args_summary(tool_name@, args@),
{
    if str_eq(tool_name, "Read") {
        short_summary(short_path(json_str_or_empty(args, "path")))
    } else if str_eq(tool_name, "Edit") || str_eq(tool_name, "Write") {
        short_summary(short_path(json_str_or_empty(args, "file_path")))
    } else if str_eq(tool_name, "Bash") {
        short_summary(truncate(json_str_or_empty(args, "command"), 72))
    } else if str_eq(tool_name, "Grep") {
        let path: &str = match args.get_str("path") {
            Some(path) => path,
            None => ".",
        };
        let mut out: String = "\"".to_owned();
        let pattern: String = truncate(json_str_or_empty(args, "pattern"), 40);
        out.append(pattern.as_str());
        out.append("\" in ");
        let short: String = short_path(path);
        out.append(short.as_str());
        short_summary(out)
    } else if str_eq(tool_name, "Glob") {
        short_summary(truncate(json_str_or_empty(args, "pattern"), 72))
    } else if str_eq(tool_name, "Agent") {
        short_summary(truncate(json_str_or_empty(args, "description"), 72))
    } else {
        None
    }
}

/// The file paths that the matches name, in order.
pub open spec fn match_files(items: Seq<JsonView>) -> Seq<Seq<char>>
    decreases items.len(),
{
    if items.len() == 0 {
        seq![]
    } else {
        match items.last().member_text("file_path"@) {
            Some(f) => match_files(items.drop_last()).push(f),
            None => match_files(items.drop_last()),
        }
    }
}

/// How many different texts the list holds.
pub open spec fn distinct_count(list: Seq<Seq<char>>) -> nat
    decreases list.len(),
{
    if list.len() == 0 {
        0
    } else if list.drop_last().contains(list.last()) {
        distinct_count(list.drop_last())
    } else {
        distinct_count(list.drop_last()) + 1
    }
}

/// How many different files the matches name.
pub open spec fn file_count(data: JsonView) -> nat {
    match data.member_items("matches"@) {
        Some(items) => distinct_count(match_files(items)),
        None => 0,
    }
}

fn count_files(data: &Json) -> (r: usize)
    ensures
        r == file_count(data@),
{
    match data.get("matches") {
        None => 0,
        Some(value) => match value.as_array() {
            None => 0,
            Some(items) => {
                let ghost all = value@->Array_0;
                let mut names: Vec<String> = Vec::new();
                let mut count: usize = 0;
                let mut i: usize = 0;
                assert(views(names@) =~= match_files(all.take(0)));
                while i < items.len()
                    invariant
                        i <= items.len(),
                        *value == Json::Array(*items),
                        all == value@->Array_0,
                        views(names@) == match_files(all.take(i as int)),
                        count == distinct_count(views(names@)),
                        count <= i,
                    decreases items.len() - i,
                {
                    assert(all.take(i + 1).drop_last() =~= all.take(i as int));
                    assert(all.take(i + 1).last() == items@[i as int]@);
                    match items[i].get_str("file_path") {
                        Some(f) => {
                            let owned: String = f.to_owned();
                            proof {
                                lemma_views_push(names@, owned);
                                assert(views(names@).push(owned@).drop_last() =~= views(names@));
                            }
                            if !list_has(&names, f) {
                                count = count + 1;
                            }
                            names.push(owned);
                        },
                        None => {},
                    }
                    i = i + 1;
                }
                assert(all.take(i as int) =~= all);
                count
            },
        },
    }
}

/// What a failed call is summarized with: its error, else its message.
pub open spec fn failure_text(data: JsonView) -> Seq<char> {
    match data.member_text("error"@) {
        Some(s) => s,
        None => match data.member_text("message"@) {
            Some(s) => s,
            None => "failed"@,
        },
    }
}

/// The lines and the size of what was read.
pub open spec fn read_summary(data: JsonView) -> Seq<char> {
    match (data.member_text("content"@), data.member_unsigned("size"@)) {
        (Some(content), Some(size)) => decimal(lines(content).len()) + " lines, "@ + decimal(
            size / 1024,
        ) + "KB"@,
        (Some(content), None) => decimal(lines(content).len()) + " lines"@,
        _ => seq![],
    }
}

/// What a call's result comes down to; an empty summary is none.
pub open spec fn result_summary(tool_name: Seq<char>, ok: bool, data: JsonView) -> Option<Seq<char>> {
    let s = if tool_name == "Read"@ {
        read_summary(data)
    } else if tool_name == "Bash"@ {
        "exit "@ + decimal_signed(
            match data.member_signed("exit_code"@) {
                Some(n) => n,
                None => -1,
            },
        ) + " ("@ + decimal(lines(text_or_empty(data, "stdout"@)).len()) + " lines)"@
    } else if tool_name == "Grep"@ {
        decimal(
            match data.member_unsigned("match_count"@) {
                Some(n) => n,
                None => 0,
            },
        ) + " matches in "@ + decimal(file_count(data)) + " files"@
    } else if tool_name == "Edit"@ {
        match data.member_unsigned("match_count"@) {
            Some(n) => decimal(n) + " replacement(s)"@,
            None => "applied"@,
        }
    } else if tool_name == "Write"@ {
        "written"@
    } else {
        seq![]
    };
    if !ok {
        Some("error: "@ + ellipsized(failure_text(data), 72))
    } else if s.len() == 0 {
        None
    } else {
        Some(s)
    }
}

fn line_count(s: &str) -> (r: u64)
    ensures
        r == lines(s@).len(),
{
    let all: Vec<String> = lines_text(s);
    assert(views(all@).len() == all@.len());
    all.len() as u64
}

fn summarize_read(data: &Json) -> (r: String)
    ensures
        r@ == read_summary(data@),
{
    match data.get_str("content") {
        Some(content) => {
            let mut out: String = decimal_text(line_count(content));
            match data.get_u64("size") {
                Some(size) => {
                    out.append(" lines, ");
                    push_decimal(&mut out, size / 1024);
                    out.append("KB");
                },
                None => {
                    out.append(" lines");
                },
            }
            out
        },
        None => String::new(),
    }
}

/// A summary of a tool call's result.
pub fn summarize_tool_result(tool_name: &str, ok: bool, data: &Json) -> (r: Option<String>)
    ensures
        opt_view(r) == result_summary(tool_name@, ok, data@),
{
    if !ok {
        let text: &str = match data.get_str("error") {
            Some(s) => s,
            None => match data.get_str("message") {
                Some(s) => s,
                None => "failed",
            },
        };
        let mut out: String = "error: ".to_owned();
        let short: String = truncate(text, 72);
        out.append(short.as_str());
        return Some(out);
    }
    if str_eq(tool_name, "Read") {
        none_if_empty(summarize_read(data))
    } else if str_eq(tool_name, "Bash") {
        let exit: i64 = match data.get_i64("exit_code") {
            Some(n) => n,
            None => -1,
        };
        let mut out: String = "exit ".to_owned();
        let code: String = decimal_signed_text(exit);
        out.append(code.as_str());
        out.append(" (");
        push_decimal(&mut out, line_count(json_str_or_empty(data, "stdout")));
        out.append(" lines)");
        none_if_empty(out)
    } else if str_eq(tool_name, "Grep") {
        let count: u64 = match data.get_u64("match_count") {
            Some(n) => n,
            None => 0,
        };
        let mut out: String = decimal_text(count);
        out.append(" matches in ");
        push_decimal(&mut out, count_files(data) as u64);
        out.append(" files");
        none_if_empty(out)
    } else if str_eq(tool_name, "Edit") {
        match data.get_u64("match_count") {
            Some(n) => {
                let mut out: String = decimal_text(n);
                out.append(" replacement(s)");
                none_if_empty(out)
            },
            None => none_if_empty("applied".to_owned()),
        }
    } else if str_eq(tool_name, "Write") {
        none_if_empty("written".to_owned())
    } else {
        None
    }
}

} // verus!
