//! The tool that the words of a request ask for.

use crate::text::{
    ascii_lower, contains, contains_char, contains_text, opt_str_view, replace, views,
};
use crate::trim::{lower_text, replace_text};
use vstd::prelude::*;

verus! {

/// The text with each of the paths blanked out, in lower case.
pub open spec fn without_paths(lowered: Seq<char>, paths: Seq<Seq<char>>) -> Seq<char>
    decreases paths.len(),
{
    if paths.len() == 0 {
        lowered
    } else {
        replace(without_paths(lowered, paths.drop_last()), ascii_lower(paths.last()), " "@)
    }
}

/// The words of a request without the paths that it names.
pub open spec fn action_text(goal: Seq<char>, paths: Seq<Seq<char>>) -> Seq<char> {
    without_paths(ascii_lower(goal), paths)
}

pub fn action_text_without_explicit_paths(goal: &str, paths: &Vec<String>) -> (r: String)
    ensures
        r@ == action_text(goal@, views(paths@)),
{
    let ghost all = views(paths@);
    let mut lowered: String = lower_text(goal);
    let mut i: usize = 0;
    assert(all.take(0) =~= seq![]);
    while i < paths.len()
        invariant
            i <= paths.len(),
            all == views(paths@),
            lowered@ == without_paths(ascii_lower(goal@), all.take(i as int)),
        decreases paths.len() - i,
    {
        assert(all.take(i + 1).drop_last() =~= all.take(i as int));
        assert(all[i as int] == paths@[i as int]@);
        let path: String = lower_text(paths[i].as_str());
        lowered = replace_text(lowered.as_str(), path.as_str(), " ");
        i = i + 1;
    }
    assert(all.take(i as int) =~= all);
    lowered
}

pub open spec fn asks_existence(t: Seq<char>) -> bool {
    contains(t, "does "@) || contains(t, " exist"@) || contains(t, "exists"@) || contains(
        t,
        "is there "@,
    ) || contains(t, "whether "@) || contains(t, "存在吗"@) || contains(t, "是否存在"@)
}

pub open spec fn asks_location(t: Seq<char>) -> bool {
    contains(t, "find "@) || contains(t, "locate "@) || contains(t, "where is"@) || contains(
        t,
        "where are"@,
    ) || contains(t, "在哪"@) || contains(t, "在哪里"@) || contains(t, "path to"@) || contains(
        t,
        "路径"@,
    )
}

pub open spec fn asks_metadata(t: Seq<char>) -> bool {
    contains(t, "inspect"@) || contains(t, "metadata"@) || contains(t, "stat "@) || contains(
        t,
        "file info"@,
    ) || contains(t, "details for"@) || contains(t, "元数据"@)
}

pub open spec fn asks_listing(t: Seq<char>) -> bool {
    contains(t, "list "@) || contains(t, "show files"@) || contains(t, "show directories"@)
        || contains(t, "directory contents"@) || contains(t, "folder contents"@) || contains(
        t,
        "contents of the directory"@,
    ) || contains(t, "列出"@) || contains(t, "目录内容"@)
}

pub open spec fn asks_contents(t: Seq<char>) -> bool {
    contains(t, "read "@) || contains(t, "open "@) || contains(t, "print "@) || contains(
        t,
        "output "@,
    ) || contains(t, "contents of"@) || contains(t, "file contents"@) || contains(t, "first part"@)
        || contains(t, "first lines"@) || contains(t, "line "@) || contains(t, "读取"@) || contains(
        t,
        "打开"@,
    ) || contains(t, "输出"@) || contains(t, "内容"@)
}

/// The filesystem tool that a request asks for, the first that fits.
pub open spec fn filesystem_action(goal: Seq<char>, paths: Seq<Seq<char>>) -> Option<Seq<char>> {
    let t = action_text(goal, paths);
    if asks_existence(t) {
        Some("fs.exists"@)
    } else if asks_location(t) {
        Some("fs.find"@)
    } else if asks_metadata(t) {
        Some("fs.inspect"@)
    } else if asks_listing(t) {
        Some("fs.list_dir"@)
    } else if asks_contents(t) || (goal.contains('第') && goal.contains('行')) {
        Some("fs.read_text"@)
    } else {
        None
    }
}

fn text_asks_existence(t: &str) -> (r: bool)
    ensures
        r == asks_existence(t@),
{
    contains_text(t, "does ") || contains_text(t, " exist") || contains_text(t, "exists")
        || contains_text(t, "is there ") || contains_text(t, "whether ") || contains_text(
        t,
        "存在吗",
    ) || contains_text(t, "是否存在")
}

fn text_asks_location(t: &str) -> (r: bool)
    ensures
        r == asks_location(t@),
{
    contains_text(t, "find ") || contains_text(t, "locate ") || contains_text(t, "where is")
        || contains_text(t, "where are") || contains_text(t, "在哪") || contains_text(
        t,
        "在哪里",
    ) || contains_text(t, "path to") || contains_text(t, "路径")
}

fn text_asks_metadata(t: &str) -> (r: bool)
    ensures
        r == asks_metadata(t@),
{
    contains_text(t, "inspect") || contains_text(t, "metadata") || contains_text(t, "stat ")
        || contains_text(t, "file info") || contains_text(t, "details for") || contains_text(
        t,
        "元数据",
    )
}

fn text_asks_listing(t: &str) -> (r: bool)
    ensures
        r == asks_listing(t@),
{
    contains_text(t, "list ") || contains_text(t, "show files") || contains_text(
        t,
        "show directories",
    ) || contains_text(t, "directory contents") || contains_text(t, "folder contents")
        || contains_text(t, "contents of the directory") || contains_text(t, "列出")
        || contains_text(t, "目录内容")
}

fn text_asks_contents(t: &str) -> (r: bool)
    ensures
        r == asks_contents(t@),
{
    contains_text(t, "read ") || contains_text(t, "open ") || contains_text(t, "print ")
        || contains_text(t, "output ") || contains_text(t, "contents of") || contains_text(
        t,
        "file contents",
    ) || contains_text(t, "first part") || contains_text(t, "first lines") || contains_text(
        t,
        "line ",
    ) || contains_text(t, "读取") || contains_text(t, "打开") || contains_text(
        t,
        "输出",
    ) || contains_text(t, "内容")
}

pub fn explicit_filesystem_action_tool(goal: &str, paths: &Vec<String>) -> (r: Option<&'static str>)
    ensures
        opt_str_view(r) == filesystem_action(goal@, views(paths@)),
{
    let text: String = action_text_without_explicit_paths(goal, paths);
    let t: &str = text.as_str();
    if text_asks_existence(t) {
        Some("fs.exists")
    } else if text_asks_location(t) {
        Some("fs.find")
    } else if text_asks_metadata(t) {
        Some("fs.inspect")
    } else if text_asks_listing(t) {
        Some("fs.list_dir")
    } else if text_asks_contents(t) || (contains_char(goal, '第') && contains_char(
        goal,
        '行',
    )) {
        Some("fs.read_text")
    } else {
        None
    }
}

pub open spec fn asks_schema(t: Seq<char>) -> bool {
    contains(t, "schema"@) || contains(t, "columns"@) || contains(t, "column names"@) || contains(
        t,
        "列"@,
    ) || contains(t, "表头"@)
}

pub open spec fn asks_sheets(t: Seq<char>) -> bool {
    contains(t, "list sheets"@) || contains(t, "show sheets"@) || contains(t, "which sheets"@)
        || contains(t, "sheet names"@) || contains(t, "工作表"@)
}

pub open spec fn asks_preview(t: Seq<char>) -> bool {
    contains(t, "preview"@) || contains(t, "first rows"@) || contains(t, "top rows"@) || contains(
        t,
        "rows of"@,
    ) || contains(t, "前几行"@) || contains(t, "预览"@)
}

pub open spec fn asks_table_details(t: Seq<char>) -> bool {
    contains(t, "inspect"@) || contains(t, "metadata"@) || contains(t, "details"@) || contains(
        t,
        "summary of the table"@,
    )
}

/// The table tool that a request asks for, the first that fits.
pub open spec fn table_action(goal: Seq<char>, paths: Seq<Seq<char>>) -> Option<Seq<char>> {
    let t = action_text(goal, paths);
    if asks_schema(t) {
        Some("table.schema"@)
    } else if asks_sheets(t) {
        Some("table.list_sheets"@)
    } else if asks_preview(t) {
        Some("table.preview"@)
    } else if asks_table_details(t) {
        Some("table.inspect"@)
    } else {
        None
    }
}

pub fn explicit_table_action_tool(goal: &str, paths: &Vec<String>) -> (r: Option<&'static str>)
    ensures
        opt_str_view(r) == table_action(goal@, views(paths@)),
{
    let text: String = action_text_without_explicit_paths(goal, paths);
    let t: &str = text.as_str();
    if contains_text(t, "schema") || contains_text(t, "columns") || contains_text(
        t,
        "column names",
    ) || contains_text(t, "列") || contains_text(t, "表头") {
        Some("table.schema")
    } else if contains_text(t, "list sheets") || contains_text(t, "show sheets") || contains_text(
        t,
        "which sheets",
    ) || contains_text(t, "sheet names") || contains_text(t, "工作表") {
        Some("table.list_sheets")
    } else if contains_text(t, "preview") || contains_text(t, "first rows") || contains_text(
        t,
        "top rows",
    ) || contains_text(t, "rows of") || contains_text(t, "前几行") || contains_text(
        t,
        "预览",
    ) {
        Some("table.preview")
    } else if contains_text(t, "inspect") || contains_text(t, "metadata") || contains_text(
        t,
        "details",
    ) || contains_text(t, "summary of the table") {
        Some("table.inspect")
    } else {
        None
    }
}

} // verus!
