//! What the words of a request are taken for.

use crate::action_words::{action_text, filesystem_action, table_action};
use crate::grounding::{
    clean_words, cleaned, first_number, first_table, has_extension, is_path_char, is_table_path,
    is_web_link, row_limit, sheet_name, standalone_path, web_query,
};
use crate::snippet::{
    announced_upto, announces_command, begins_with_keyword, block_lines, drop_blank, fenced_python,
    fenced_shell, first_code_line, inline_code, is_program_char, normalized_command,
    prompted_command, python_code, python_snippet, python_statement, python_suffix_upto, shell_code,
    shell_command, skip_blank,
};
use crate::text::{
    ascii_lower, contains, ends_with, find, first_at, in_set, is_ascii_alnum, join, lemma_find,
    lines, occurs_at, space_fn, starts_with, strip_prefix, trim, trim_by, trim_end, trim_end_by,
    words,
};
use crate::text_laws::law_trimmed;
use crate::tokens::{command_chain, source_words};
use vstd::prelude::*;

verus! {

/// The text asks whether something is there.
pub open spec fn existence_words(t: Seq<char>) -> bool {
    contains(t, "does "@) || contains(t, " exist"@) || contains(t, "exists"@) || contains(
        t,
        "is there "@,
    ) || contains(t, "whether "@) || contains(t, "存在吗"@) || contains(t, "是否存在"@)
}

/// The text asks where something is.
pub open spec fn location_words(t: Seq<char>) -> bool {
    contains(t, "find "@) || contains(t, "locate "@) || contains(t, "where is"@) || contains(
        t,
        "where are"@,
    ) || contains(t, "在哪"@) || contains(t, "在哪里"@) || contains(t, "path to"@) || contains(
        t,
        "路径"@,
    )
}

/// The text asks what is known of a file.
pub open spec fn metadata_words(t: Seq<char>) -> bool {
    contains(t, "inspect"@) || contains(t, "metadata"@) || contains(t, "stat "@) || contains(
        t,
        "file info"@,
    ) || contains(t, "details for"@) || contains(t, "元数据"@)
}

/// The text asks what a directory holds.
pub open spec fn listing_words(t: Seq<char>) -> bool {
    contains(t, "list "@) || contains(t, "show files"@) || contains(t, "show directories"@)
        || contains(t, "directory contents"@) || contains(t, "folder contents"@) || contains(
        t,
        "contents of the directory"@,
    ) || contains(t, "列出"@) || contains(t, "目录内容"@)
}

/// The text asks what a file holds.
pub open spec fn reading_words(t: Seq<char>) -> bool {
    contains(t, "read "@) || contains(t, "open "@) || contains(t, "print "@) || contains(
        t,
        "output "@,
    ) || contains(t, "contents of"@) || contains(t, "file contents"@) || contains(t, "first part"@)
        || contains(t, "first lines"@) || contains(t, "line "@) || contains(t, "读取"@) || contains(
        t,
        "打开"@,
    ) || contains(t, "输出"@) || contains(t, "内容"@)
}

/// Each filesystem tool is chosen by its own words, the earlier question first: whether,
/// where, what is known, what a directory holds, what a file holds.
pub proof fn law_filesystem_words(goal: Seq<char>, paths: Seq<Seq<char>>)
    ensures
        ({
            let t = action_text(goal, paths);
            let tool = filesystem_action(goal, paths);
            &&& existence_words(t) <==> tool == Some("fs.exists"@)
            &&& !existence_words(t) ==> (location_words(t) <==> tool == Some("fs.find"@))
            &&& !existence_words(t) && !location_words(t) ==> (metadata_words(t) <==> tool == Some(
                "fs.inspect"@,
            ))
            &&& !existence_words(t) && !location_words(t) && !metadata_words(t) ==> (listing_words(
                t,
            ) <==> tool == Some("fs.list_dir"@))
            &&& !existence_words(t) && !location_words(t) && !metadata_words(t) && !listing_words(t)
                ==> tool == (if reading_words(t) || (goal.contains('第') && goal.contains('行')) {
                Some("fs.read_text"@)
            } else {
                None
            })
        }),
{
    reveal_strlit("fs.exists");
    reveal_strlit("fs.find");
    reveal_strlit("fs.inspect");
    reveal_strlit("fs.list_dir");
    reveal_strlit("fs.read_text");
    assert("fs.exists"@[3] == 'e' && "fs.find"@[3] == 'f' && "fs.inspect"@[3] == 'i'
        && "fs.list_dir"@[3] == 'l' && "fs.read_text"@[3] == 'r');
}

/// Each table tool is chosen by its own words: the columns, the sheets, the first rows,
/// the details, in that order.
pub proof fn law_table_words(goal: Seq<char>, paths: Seq<Seq<char>>)
    ensures
        ({
            let t = action_text(goal, paths);
            let tool = table_action(goal, paths);
            let schema = contains(t, "schema"@) || contains(t, "columns"@) || contains(
                t,
                "column names"@,
            ) || contains(t, "列"@) || contains(t, "表头"@);
            let sheets = contains(t, "list sheets"@) || contains(t, "show sheets"@) || contains(
                t,
                "which sheets"@,
            ) || contains(t, "sheet names"@) || contains(t, "工作表"@);
            let preview = contains(t, "preview"@) || contains(t, "first rows"@) || contains(
                t,
                "top rows"@,
            ) || contains(t, "rows of"@) || contains(t, "前几行"@) || contains(t, "预览"@);
            let details = contains(t, "inspect"@) || contains(t, "metadata"@) || contains(
                t,
                "details"@,
            ) || contains(t, "summary of the table"@);
            tool == (if schema {
                Some("table.schema"@)
            } else if sheets {
                Some("table.list_sheets"@)
            } else if preview {
                Some("table.preview"@)
            } else if details {
                Some("table.inspect"@)
            } else {
                None
            })
        }),
{
}

/// The words are looked for in lower case, and not in the paths that the request names.
pub proof fn law_paths_are_no_words(goal: Seq<char>, path: Seq<char>)
    ensures
        action_text(goal, seq![]) == ascii_lower(goal),
        path.len() > 0 && goal == path ==> action_text(goal, seq![path]) == seq![' '],
{
    reveal_with_fuel(crate::action_words::without_paths, 2);
    reveal_strlit(" ");
    assert(" "@ =~= seq![' ']);
    let one = seq![path];
    assert(one.drop_last() =~= seq![]);
    if path.len() > 0 && goal == path {
        let lower = ascii_lower(path);
        reveal_with_fuel(crate::text::replace, 2);
        assert(lower.take(lower.len() as int) =~= lower);
        assert(lower.skip(lower.len() as int) =~= seq![]);
        assert(crate::text::replace(lower, lower, " "@) =~= seq![' ']);
    }
}

/// Lower case changes the letters of ASCII and nothing else, and changes them once.
pub proof fn law_lower_case(s: Seq<char>, i: int)
    requires
        0 <= i < s.len(),
    ensures
        ascii_lower(s).len() == s.len(),
        'A' <= s[i] <= 'Z' ==> ascii_lower(s)[i] as u32 == s[i] as u32 + 32,
        !('A' <= s[i] <= 'Z') ==> ascii_lower(s)[i] == s[i],
        ascii_lower(ascii_lower(s)) == ascii_lower(s),
{
    assert forall|k: int| 0 <= k < s.len() implies ascii_lower(ascii_lower(s))[k] == ascii_lower(
        s,
    )[k] by {
        if 'A' <= s[k] <= 'Z' {
            assert(ascii_lower(s)[k] as u32 == s[k] as u32 + 32);
        }
    }
    assert(ascii_lower(ascii_lower(s)) =~= ascii_lower(s));
}

/// Several commands in one request are told by what joins them.
pub proof fn law_chained_commands(goal: Seq<char>)
    ensures
        command_chain(goal) <==> contains(goal, "&&"@) || contains(goal, "||"@) || goal.contains(
            ';',
        ),
{
}

/// A table is told by the end of its name, in any letter case.
pub proof fn law_table_files(path: Seq<char>)
    ensures
        is_table_path(path) <==> ends_with(ascii_lower(path), ".csv"@) || ends_with(
            ascii_lower(path),
            ".tsv"@,
        ) || ends_with(ascii_lower(path), ".xlsx"@),
        is_table_path(ascii_lower(path)) == is_table_path(path),
{
    if path.len() > 0 {
        law_lower_case(path, 0);
    } else {
        assert(ascii_lower(path) =~= path);
    }
}

/// The first table is the first of the paths that is one.
pub proof fn law_first_table(paths: Seq<Seq<char>>)
    ensures
        match first_table(paths) {
            Some(path) => exists|i: int|
                0 <= i < paths.len() && #[trigger] paths[i] == path && is_table_path(path)
                    && forall|j: int| 0 <= j < i ==> !is_table_path(#[trigger] paths[j]),
            None => forall|i: int| 0 <= i < paths.len() ==> !is_table_path(#[trigger] paths[i]),
        },
    decreases paths.len(),
{
    if paths.len() > 0 {
        if is_table_path(paths[0]) {
            assert(paths[0] == first_table(paths)->0);
        } else {
            let rest = paths.skip(1);
            law_first_table(rest);
            match first_table(rest) {
                Some(path) => {
                    let i = choose|i: int|
                        0 <= i < rest.len() && #[trigger] rest[i] == path && is_table_path(path)
                            && forall|j: int| 0 <= j < i ==> !is_table_path(#[trigger] rest[j]);
                    assert(paths[i + 1] == path);
                    assert forall|j: int| 0 <= j < i + 1 implies !is_table_path(
                        #[trigger] paths[j],
                    ) by {
                        if j > 0 {
                            assert(rest[j - 1] == paths[j]);
                        }
                    }
                },
                None => {
                    assert forall|i: int| 0 <= i < paths.len() implies !is_table_path(
                        #[trigger] paths[i],
                    ) by {
                        if i > 0 {
                            assert(rest[i - 1] == paths[i]);
                        }
                    }
                },
            }
        }
    }
}

/// The number of rows is the first number of the request, kept between 1 and 50.
pub proof fn law_row_limit(goal: Seq<char>)
    ensures
        row_limit(goal) is Some <==> first_number(clean_words(goal)) is Some,
        row_limit(goal) matches Some(n) ==> 1 <= n <= 50,
        first_number(clean_words(goal)) matches Some(n) ==> {
            &&& 1 <= n <= 50 ==> row_limit(goal) == Some(n)
            &&& n == 0 ==> row_limit(goal) == Some(1nat)
            &&& n > 50 ==> row_limit(goal) == Some(50nat)
        },
{
}

/// A link into the web is no path.
pub proof fn law_web_links(rest: Seq<char>)
    ensures
        is_web_link("http://"@ + rest),
        is_web_link("https://"@ + rest),
{
    crate::text_laws::lemma_begins("http://"@, rest);
    crate::text_laws::lemma_begins("https://"@, rest);
}

/// The query of a lookup is not empty, and is the request without what stands around it.
pub proof fn law_web_query(goal: Seq<char>)
    ensures
        web_query(goal) matches Some(query) ==> query.len() > 0,
        web_query(goal) is None <==> trim_by(trim(goal), in_set("\"'.!?"@)).len() == 0,
        web_query(goal) matches Some(query) ==> query == trim_by(trim(goal), in_set("\"'.!?"@)),
{
}

/// A fence comes first: `before` and `body` hold no backquote.
proof fn lemma_first_fence(before: Seq<char>, fence: Seq<char>, rest: Seq<char>)
    requires
        !before.contains('`'),
        fence.len() > 0,
        fence[0] == '`',
    ensures
        find(before + fence + rest, fence) == Some(before.len() as int),
{
    let s = before + fence + rest;
    assert(s.subrange(before.len() as int, (before.len() + fence.len()) as int) =~= fence);
    assert(occurs_at(s, fence, before.len() as int));
    assert forall|j: int| 0 <= j < before.len() implies !occurs_at(s, fence, j) by {
        if occurs_at(s, fence, j) {
            assert(s.subrange(j, j + fence.len())[0] == s[j]);
            assert(before[j] == '`');
        }
    }
    assert(first_at(s, fence, before.len() as int));
    lemma_find(s, fence, before.len() as int);
}

/// Python code in a fence is taken as it stands there, without the blanks around it.
pub proof fn law_fenced_python(before: Seq<char>, code: Seq<char>, rest: Seq<char>)
    requires
        !before.contains('`'),
        !code.contains('`'),
        trim(code).len() > 0,
    ensures
        python_code(before + "```"@ + ("python\n"@ + code + "```"@ + rest)) == Some(trim(code)),
{
    reveal_strlit("```");
    reveal_strlit("python");
    reveal_strlit("\n");
    reveal_strlit("python\n");
    let tail = "python\n"@ + code + "```"@ + rest;
    let goal = before + "```"@ + tail;
    lemma_first_fence(before, "```"@, tail);
    assert(goal.skip((before.len() + 3) as int) =~= tail);
    assert("python\n"@ =~= "python"@ + "\n"@);
    let inner = "\n"@ + code + "```"@ + rest;
    assert(tail =~= "python"@ + inner);
    crate::text_laws::lemma_begins("python"@, inner);
    assert(tail.skip("python"@.len() as int) =~= inner);
    let body = code + "```"@ + rest;
    assert(inner =~= "\n"@ + body);
    crate::text_laws::lemma_begins("\n"@, body);
    assert(inner.skip("\n"@.len() as int) =~= body);
    lemma_first_fence(code, "```"@, rest);
    assert(body.take(code.len() as int) =~= code);
}

/// What stands between the first two backquotes is the code that the request gives.
pub proof fn law_inline_code(before: Seq<char>, code: Seq<char>, rest: Seq<char>)
    requires
        !before.contains('`'),
        !code.contains('`'),
    ensures
        inline_code(before + "`"@ + (code + "`"@ + rest)) == (if trim(code).len() > 0 {
            Some(trim(code))
        } else {
            None
        }),
{
    reveal_strlit("`");
    let tail = code + "`"@ + rest;
    let goal = before + "`"@ + tail;
    lemma_first_fence(before, "`"@, tail);
    assert(goal.skip((before.len() + 1) as int) =~= tail);
    lemma_first_fence(code, "`"@, rest);
    assert(tail.take(code.len() as int) =~= code);
}

/// A command in a fence goes before one that stands elsewhere, and Python code in a
/// fence before any other.
pub proof fn law_fences_go_first(goal: Seq<char>)
    ensures
        fenced_shell(goal) is Some ==> shell_code(goal) == fenced_shell(goal),
        fenced_python(goal) is Some ==> python_code(goal) == fenced_python(goal),
{
}

/// A line of Python begins with one of its words, or holds two of its marks; a link and a
/// full-width comma are no code.
pub proof fn law_python_lines(line: Seq<char>)
    ensures
        python_statement(line) ==> trim(line).len() > 0 && !contains(trim(line), "://"@) && !trim(
            line,
        ).contains('，'),
        trim(line).len() > 0 && !contains(trim(line), "://"@) && !trim(line).contains('，') && (
        starts_with(trim(line), "print"@) || starts_with(trim(line), "for "@) || starts_with(
            trim(line),
            "if "@,
        ) || starts_with(trim(line), "while "@) || starts_with(trim(line), "def "@) || starts_with(
            trim(line),
            "class "@,
        ) || starts_with(trim(line), "import "@) || starts_with(trim(line), "from "@)
            || starts_with(trim(line), "return "@)) ==> python_statement(line),
        trim(line).len() > 0 && !contains(trim(line), "://"@) && !trim(line).contains('，') && trim(
            line,
        ).contains('(') && trim(line).contains(')') ==> python_statement(line),
        python_statement(line) && !begins_with_keyword(trim(line)) ==> trim(line).contains('(')
            || trim(line).contains(')') || trim(line).contains(':') || trim(line).contains('=')
            || trim(line).contains('[') || trim(line).contains(']'),
{
}

/// What announces a command before a colon.
pub proof fn law_announcements(prefix: Seq<char>)
    ensures
        ({
            let s = ascii_lower(trim(prefix));
            announces_command(prefix) <==> contains(s, "command"@) || contains(s, "cmd"@)
                || contains(s, "shell"@) || contains(s, "bash"@) || ends_with(s, "run this"@)
                || ends_with(s, "execute this"@)
        }),
{
}

/// A command is one line whose first word could be a program's name; the prompt sign and
/// the backquotes around it are taken off.
pub proof fn law_commands(value: Seq<char>)
    ensures
        shell_command(value) ==> trim(value).len() > 0 && !trim(value).contains('\n') && !trim(
            value,
        ).contains('\r') && words(trim(value)).len() > 0 && (forall|i: int|
            0 <= i < words(trim(value))[0].len() ==> {
                let c = #[trigger] words(trim(value))[0][i];
                is_ascii_alnum(c) || c == '.' || c == '_' || c == '-'
            }),
        normalized_command(value) matches Some(line) ==> shell_command(line),
{
    if shell_command(value) {
        let first = words(trim(value))[0];
        assert forall|i: int| 0 <= i < first.len() implies {
            let c = #[trigger] first[i];
            is_ascii_alnum(c) || c == '.' || c == '_' || c == '-'
        } by {
            assert(is_program_char(first[i]));
        }
    }
}

/// A command in a fence is found.
pub proof fn law_fenced_commands(before: Seq<char>, code: Seq<char>, rest: Seq<char>)
    requires
        !before.contains('`'),
        !code.contains('`'),
        normalized_command(trim(code)) is Some,
    ensures
        shell_code(before + "```bash\n"@ + (code + "```"@ + rest)) == normalized_command(
            trim(code),
        ),
{
    reveal_strlit("```bash\n");
    reveal_strlit("```");
    let tail = code + "```"@ + rest;
    let goal = before + "```bash\n"@ + tail;
    lemma_first_fence(before, "```bash\n"@, tail);
    assert(goal.skip((before.len() + "```bash\n"@.len()) as int) =~= tail);
    lemma_first_fence(code, "```"@, rest);
    assert(tail.take(code.len() as int) =~= code);
}

/// The sheet that a text names stands behind the word, without quotes, and is one word.
pub proof fn law_sheet_names(goal: Seq<char>)
    ensures
        sheet_name(goal) matches Some(name) ==> name.len() > 0 && !name.contains(' ') && contains(
            ascii_lower(goal),
            "sheet "@,
        ),
        !contains(ascii_lower(goal), "sheet "@) ==> sheet_name(goal) is None,
{
}

/// A path is told by a slash, a file's ending or a dot of its own, and holds only the
/// characters of paths.
pub proof fn law_paths_by_form(token: Seq<char>)
    ensures
        standalone_path("."@),
        standalone_path(".."@),
        token.len() > 0 && token.contains('/') && (forall|i: int|
            0 <= i < token.len() ==> is_path_char(#[trigger] token[i])) ==> standalone_path(token),
        standalone_path(token) && token != "."@ && token != ".."@ ==> (forall|i: int|
            0 <= i < token.len() ==> is_path_char(#[trigger] token[i])) && (token.contains('/')
            || token.contains('\\') || has_extension(token)),
{
}

/// The characters of paths.
pub proof fn law_path_characters(c: char)
    ensures
        is_path_char(c) <==> '0' <= c <= '9' || 'A' <= c <= 'Z' || 'a' <= c <= 'z' || c == '.' || c
            == '/' || c == '\\' || c == '_' || c == '-',
{
}

/// The other names of a shell's fence count too, where no earlier one stands in the text.
pub proof fn law_other_fences(before: Seq<char>, code: Seq<char>, rest: Seq<char>)
    requires
        !before.contains('`'),
        !code.contains('`'),
        normalized_command(trim(code)) is Some,
    ensures
        ({
            let goal = before + "```sh\n"@ + (code + "```"@ + rest);
            !contains(goal, "```bash\n"@) ==> shell_code(goal) == normalized_command(trim(code))
        }),
        ({
            let goal = before + "```shell\n"@ + (code + "```"@ + rest);
            !contains(goal, "```bash\n"@) && !contains(goal, "```sh\n"@) ==> shell_code(goal)
                == normalized_command(trim(code))
        }),
        ({
            let goal = before + "```zsh\n"@ + (code + "```"@ + rest);
            !contains(goal, "```bash\n"@) && !contains(goal, "```sh\n"@) && !contains(
                goal,
                "```shell\n"@,
            ) ==> shell_code(goal) == normalized_command(trim(code))
        }),
{
    reveal_strlit("```sh\n");
    reveal_strlit("```shell\n");
    reveal_strlit("```zsh\n");
    reveal_strlit("```");
    let tail = code + "```"@ + rest;
    lemma_first_fence(before, "```sh\n"@, tail);
    lemma_first_fence(before, "```shell\n"@, tail);
    lemma_first_fence(before, "```zsh\n"@, tail);
    assert((before + "```sh\n"@ + tail).skip((before.len() + "```sh\n"@.len()) as int) =~= tail);
    assert((before + "```shell\n"@ + tail).skip((before.len() + "```shell\n"@.len()) as int)
        =~= tail);
    assert((before + "```zsh\n"@ + tail).skip((before.len() + "```zsh\n"@.len()) as int)
        =~= tail);
    lemma_first_fence(code, "```"@, rest);
    assert(tail.take(code.len() as int) =~= code);
}

proof fn lemma_bare(s: Seq<char>, set: Seq<char>)
    requires
        s.len() > 0,
        !set.contains(s[0]),
        !set.contains(s.last()),
    ensures
        trim_by(s, in_set(set)) == s,
{
    law_trimmed(s, in_set(set));
}

proof fn lemma_wrapped(open: char, s: Seq<char>, close: char, set: Seq<char>)
    requires
        s.len() > 0,
        set.contains(open),
        set.contains(close),
        !set.contains(s[0]),
        !set.contains(s.last()),
    ensures
        trim_by(seq![open] + s + seq![close], in_set(set)) == s,
{
    let whole = seq![open] + s + seq![close];
    let drop = in_set(set);
    law_trimmed(whole, drop);
    let r = trim_by(whole, drop);
    let k = choose|k: int|
        0 <= k && k + r.len() <= whole.len() && r == #[trigger] whole.subrange(k, k + r.len()) && (
        forall|i: int| 0 <= i < k ==> drop(#[trigger] whole[i])) && (forall|i: int|
            k + r.len() <= i < whole.len() ==> drop(#[trigger] whole[i]));
    assert(whole[1] == s[0]);
    assert(whole[s.len() as int] == s.last());
    assert(!drop(whole[1]));
    assert(!drop(whole[s.len() as int]));
    if k >= 2 {
        assert(drop(whole[1]));
    }
    if k + r.len() <= s.len() {
        assert(drop(whole[s.len() as int]));
    }
    if k == 0 {
        assert(r[0] == whole[0]);
    }
    if k + r.len() == whole.len() {
        assert(r.last() == whole[whole.len() - 1]);
    }
    assert(r =~= s);
}

/// A word is taken without the quotes and brackets around it; one that has none, and ends
/// in neither a colon nor a point, stays as it is.
pub proof fn law_cleaned_words(word: Seq<char>, open: char, close: char)
    requires
        word.len() > 0,
        is_ascii_alnum(word[0]),
        is_ascii_alnum(word.last()),
        open == '"' || open == '(' || open == '[' || open == '{' || open == '<' || open == '\'',
        close == '"' || close == ')' || close == ']' || close == '}' || close == '>' || close == '\''
            || close == ',' || close == ';' || close == '!' || close == '?',
    ensures
        cleaned(word) == word,
        cleaned(seq![open] + word + seq![close]) == word,
        cleaned(word + seq![':']) == word,
        cleaned(word + seq!['.']) == word,
        cleaned("."@) == "."@,
        cleaned(".."@) == ".."@,
{
    let set = "\"'()[]{}<>,;!?"@;
    reveal_strlit("\"'()[]{}<>,;!?");
    reveal_strlit(":");
    reveal_strlit(".");
    reveal_strlit("..");
    assert(set =~= seq!['"', '\'', '(', ')', '[', ']', '{', '}', '<', '>', ',', ';', '!', '?']);
    assert(":"@ =~= seq![':']);
    assert("."@ =~= seq!['.']);
    assert(".."@ =~= seq!['.', '.']);
    assert(set.contains(open) && set.contains(close)) by {
        assert(set[0] == '"' && set[1] == '\'' && set[2] == '(' && set[3] == ')' && set[4] == '['
            && set[5] == ']' && set[6] == '{' && set[7] == '}' && set[8] == '<' && set[9] == '>'
            && set[10] == ',' && set[11] == ';' && set[12] == '!' && set[13] == '?');
    }
    assert forall|c: char| is_ascii_alnum(c) implies !(#[trigger] set.contains(c)) by {}
    assert(!(":"@.contains(word.last())) && !("."@.contains(word.last())));
    lemma_bare(word, set);
    lemma_wrapped(open, word, close, set);
    let wrapped = seq![open] + word + seq![close];
    assert(wrapped[0] == open);
    assert(word[0] != '.');
    assert(wrapped != "."@ && wrapped != ".."@ && word != "."@ && word != ".."@);
    let coloned = word + seq![':'];
    let pointed = word + seq!['.'];
    assert(!set.contains(':')) by {}
    assert(!set.contains('.')) by {}
    assert(coloned[0] == word[0] && pointed[0] == word[0]);
    lemma_bare(coloned, set);
    lemma_bare(pointed, set);
    assert(coloned.drop_last() =~= word && pointed.drop_last() =~= word);
    assert(":"@[0] == ':' && "."@[0] == '.');
    assert(":"@.contains(':') && "."@.contains('.'));
    assert(!"."@.contains(':') && !":"@.contains('.'));
    reveal_with_fuel(trim_end_by, 3);
}

/// A command that is announced before the last colon is found.
pub proof fn law_announced_commands(prefix: Seq<char>, command: Seq<char>)
    requires
        announces_command(prefix),
        !command.contains(':'),
        normalized_command(trim(command)) is Some,
    ensures
        announced_upto(
            prefix + seq![':'] + command,
            (prefix + seq![':'] + command).len() as int,
        ) == normalized_command(trim(command)),
{
    let goal = prefix + seq![':'] + command;
    assert(goal.take(prefix.len() as int) =~= prefix);
    assert(goal.skip(prefix.len() as int + 1) =~= command);
    lemma_no_later_colon(prefix, command, goal.len() as int);
}

proof fn lemma_no_later_colon(prefix: Seq<char>, command: Seq<char>, k: int)
    requires
        !command.contains(':'),
        prefix.len() < k <= prefix.len() + 1 + command.len(),
    ensures
        announced_upto(prefix + seq![':'] + command, k) == announced_upto(
            prefix + seq![':'] + command,
            prefix.len() as int + 1,
        ),
    decreases k,
{
    let goal = prefix + seq![':'] + command;
    if k > prefix.len() + 1 {
        assert(goal[k - 1] == command[k - 2 - prefix.len()]);
        assert(command.contains(command[k - 2 - prefix.len()]));
        lemma_no_later_colon(prefix, command, k - 1);
    }
}

/// A line behind a prompt sign is a command; other lines are passed over.
pub proof fn law_prompted_commands(line: Seq<char>, rest: Seq<Seq<char>>)
    ensures
        ({
            let list = seq![line] + rest;
            match strip_prefix(trim(line), "$ "@) {
                Some(command) => normalized_command(command) is Some ==> prompted_command(list)
                    == normalized_command(command),
                None => prompted_command(list) == prompted_command(rest),
            }
        }),
        prompted_command(seq![]) is None,
{
    let list = seq![line] + rest;
    assert(list[0] == line);
    assert(list.skip(1) =~= rest);
}

/// Several lines are Python where each of them is, or is blank; nothing is none.
pub proof fn law_python_snippets(value: Seq<char>)
    ensures
        trim(value).len() == 0 ==> !python_snippet(value),
        trim(value).len() > 0 && lines(trim(value)).len() <= 1 ==> python_snippet(value)
            == python_statement(trim(value)),
        trim(value).len() > 0 && lines(trim(value)).len() > 1 ==> (python_snippet(value) <==> (
        forall|i: int|
            0 <= i < lines(trim(value)).len() ==> trim(#[trigger] lines(trim(value))[i]).len() == 0
                || python_statement(trim(lines(trim(value))[i])))),
{
}

/// Code that stands alone is taken as it is, where nothing in it stands behind a colon as
/// code of its own.
pub proof fn law_bare_python(goal: Seq<char>)
    requires
        fenced_python(goal) is None,
        inline_code(goal) is None,
        python_suffix_upto(trim(goal), trim(goal).len() as int) is None,
        python_snippet(trim(goal)),
    ensures
        python_code(goal) == Some(trim(goal)),
{
}

/// Between two texts that are dropped altogether, what begins and ends with something
/// that is not is left.
proof fn lemma_trimmed_between(
    left: Seq<char>,
    name: Seq<char>,
    right: Seq<char>,
    drop: spec_fn(char) -> bool,
)
    requires
        name.len() > 0,
        !drop(name[0]),
        !drop(name.last()),
        forall|i: int| 0 <= i < left.len() ==> drop(#[trigger] left[i]),
        forall|i: int| 0 <= i < right.len() ==> drop(#[trigger] right[i]),
    ensures
        trim_by(left + name + right, drop) == name,
{
    let tail = left + name + right;
    law_trimmed(tail, drop);
    let r = trim_by(tail, drop);
    let k = choose|k: int|
        0 <= k && k + r.len() <= tail.len() && r == #[trigger] tail.subrange(k, k + r.len()) && (
        forall|i: int| 0 <= i < k ==> drop(#[trigger] tail[i])) && (forall|i: int|
            k + r.len() <= i < tail.len() ==> drop(#[trigger] tail[i]));
    let a = left.len() as int;
    let b = a + name.len();
    assert(tail[a] == name[0]);
    assert(tail[b - 1] == name.last());
    assert(k <= a && b <= k + r.len());
    if k < a {
        assert(r[0] == left[k]);
    }
    if b < k + r.len() {
        assert(r.last() == right[k + r.len() - 1 - b]);
    }
    assert(r =~= name);
}

/// A name of letters and digits behind the first `sheet ` of a request, bare or between
/// quotes, with or without punctuation behind it, is the sheet's name.
pub proof fn law_sheet_is_named(
    before: Seq<char>,
    left: Seq<char>,
    name: Seq<char>,
    right: Seq<char>,
)
    requires
        name.len() > 0,
        forall|i: int| 0 <= i < name.len() ==> is_ascii_alnum(#[trigger] name[i]),
        forall|i: int| 0 <= i < left.len() ==> beside_a_sheet(#[trigger] left[i]),
        forall|i: int| 0 <= i < right.len() ==> beside_a_sheet(#[trigger] right[i]),
        forall|i: int|
            0 <= i < before.len() ==> !#[trigger] occurs_at(
                ascii_lower(before + "sheet "@ + (left + name + right)),
                "sheet "@,
                i,
            ),
    ensures
        sheet_name(before + "sheet "@ + (left + name + right)) == Some(name),
{
    let tail = left + name + right;
    let goal = before + "sheet "@ + tail;
    let lower = ascii_lower(goal);
    let n = before.len() as int;
    lemma_sheet_stands(before, tail);
    assert(first_at(lower, "sheet "@, n));
    lemma_find(lower, "sheet "@, n);
    assert(goal.skip(n + "sheet "@.len()) =~= tail);
    assert(trim(tail) == tail) by {
        assert(tail[0] == (if left.len() > 0 {
            left[0]
        } else {
            name[0]
        }));
        assert(tail.last() == (if right.len() > 0 {
            right.last()
        } else {
            name.last()
        }));
        law_trimmed(tail, space_fn());
    }
    let set = "\"'`,.;"@;
    lemma_sheet_set();
    lemma_trimmed_between(left, name, right, in_set(set));
    assert(!name.contains(' '));
}

/// A quote or a sign that may stand around the name of a sheet.
pub open spec fn beside_a_sheet(c: char) -> bool {
    c == '"' || c == '\'' || c == '`' || c == ',' || c == '.' || c == ';'
}

proof fn lemma_sheet_set()
    ensures
        forall|c: char| #[trigger] in_set("\"'`,.;"@)(c) == beside_a_sheet(c),
{
    reveal_strlit("\"'`,.;");
    let set = "\"'`,.;"@;
    assert(set[0] == '"' && set[1] == '\'' && set[2] == '`' && set[3] == ',' && set[4] == '.'
        && set[5] == ';' && set.len() == 6);
    assert forall|c: char| #[trigger] in_set(set)(c) == beside_a_sheet(c) by {
        assert(in_set(set)(c) == set.contains(c));
    }
}

proof fn lemma_sheet_stands(before: Seq<char>, tail: Seq<char>)
    ensures
        occurs_at(ascii_lower(before + "sheet "@ + tail), "sheet "@, before.len() as int),
{
    reveal_strlit("sheet ");
    let lower = ascii_lower(before + "sheet "@ + tail);
    let n = before.len() as int;
    assert(lower.subrange(n, n + 6) =~= "sheet "@);
}

/// The words that may be the address of a skill are the words of the request in order,
/// each without brackets, quotes and punctuation at its ends, and otherwise whole.
pub proof fn law_source_words(goal: Seq<char>, i: int)
    requires
        0 <= i < words(goal).len(),
    ensures
        source_words(goal).len() == words(goal).len(),
        ({
            let word = words(goal)[i];
            let left = source_words(goal)[i];
            &&& left.len() > 0 ==> !beside_an_address(left[0]) && !beside_an_address(left.last())
            &&& word.len() > 0 && !beside_an_address(word[0]) && !beside_an_address(word.last())
                ==> left == word
            &&& exists|k: int|
                0 <= k && k + left.len() <= word.len() && left == #[trigger] word.subrange(
                    k,
                    k + left.len(),
                ) && (forall|j: int| 0 <= j < k ==> beside_an_address(#[trigger] word[j])) && (
                forall|j: int|
                    k + left.len() <= j < word.len() ==> beside_an_address(#[trigger] word[j]))
        }),
{
    reveal_strlit("()[]{}<>\"',;.");
    let set = "()[]{}<>\"',;."@;
    let word = words(goal)[i];
    let drop = in_set(set);
    assert(set[0] == '(' && set[1] == ')' && set[2] == '[' && set[3] == ']' && set[4] == '{'
        && set[5] == '}' && set[6] == '<' && set[7] == '>' && set[8] == '"' && set[9] == '\''
        && set[10] == ',' && set[11] == ';' && set[12] == '.' && set.len() == 13);
    assert forall|c: char| #[trigger] drop(c) == beside_an_address(c) by {
        assert(drop(c) == set.contains(c));
    }
    law_trimmed(word, drop);
    let left = trim_by(word, drop);
    let k = choose|k: int|
        0 <= k && k + left.len() <= word.len() && left == #[trigger] word.subrange(
            k,
            k + left.len(),
        ) && (forall|j: int| 0 <= j < k ==> drop(#[trigger] word[j])) && (forall|j: int|
            k + left.len() <= j < word.len() ==> drop(#[trigger] word[j]));
    assert(left == word.subrange(k, k + left.len()));
}

/// A character that may stand around an address and is no part of it.
pub open spec fn beside_an_address(c: char) -> bool {
    c == '(' || c == ')' || c == '[' || c == ']' || c == '{' || c == '}' || c == '<' || c == '>'
        || c == '"' || c == '\'' || c == ',' || c == ';' || c == '.'
}

/// A sign that code is written with.
pub open spec fn code_sign(c: char) -> bool {
    c == '(' || c == ')' || c == ':' || c == '=' || c == '[' || c == ']'
}

/// A line that holds two different signs of code, or begins with a keyword, is a
/// statement, unless it holds an address or a full-width comma; nothing else is.
pub proof fn law_statements(line: Seq<char>, a: char, b: char)
    ensures
        ({
            let s = trim(line);
            let clean = s.len() > 0 && !contains(s, "://"@) && !s.contains('，');
            &&& python_statement(line) ==> clean
            &&& clean && begins_with_keyword(s) ==> python_statement(line)
            &&& clean && a != b && code_sign(a) && code_sign(b) && s.contains(a) && s.contains(b)
                ==> python_statement(line)
            &&& python_statement(line) && !begins_with_keyword(s) ==> exists|c: char, d: char|
                #![trigger s.contains(c), s.contains(d)]
                c != d && code_sign(c) && code_sign(d) && s.contains(c) && s.contains(d)
        }),
{
    let s = trim(line);
    if python_statement(line) && !begins_with_keyword(s) {
        let c = if s.contains('(') {
            '('
        } else if s.contains(')') {
            ')'
        } else if s.contains(':') {
            ':'
        } else if s.contains('=') {
            '='
        } else {
            '['
        };
        let d = if s.contains(']') {
            ']'
        } else if s.contains('[') {
            '['
        } else if s.contains('=') {
            '='
        } else if s.contains(':') {
            ':'
        } else {
            ')'
        };
        assert(c != d && code_sign(c) && code_sign(d) && s.contains(c) && s.contains(d));
    }
}

/// Code behind the last colon, where what stands before it is no code, is what is run.
pub proof fn law_python_behind_a_colon(prefix: Seq<char>, code: Seq<char>)
    requires
        !code.contains(':'),
        python_snippet(trim(code)),
        !python_snippet(trim(prefix)),
        trim(code).len() > 0,
    ensures
        python_suffix_upto(
            prefix + seq![':'] + code,
            (prefix + seq![':'] + code).len() as int,
        ) == Some(trim(code)),
{
    let goal = prefix + seq![':'] + code;
    assert(goal.take(prefix.len() as int) =~= prefix);
    assert(goal.skip(prefix.len() as int + 1) =~= code);
    lemma_no_later_suffix(prefix, code, goal.len() as int);
}

proof fn lemma_no_later_suffix(prefix: Seq<char>, code: Seq<char>, k: int)
    requires
        !code.contains(':'),
        prefix.len() < k <= prefix.len() + 1 + code.len(),
    ensures
        python_suffix_upto(prefix + seq![':'] + code, k) == python_suffix_upto(
            prefix + seq![':'] + code,
            prefix.len() as int + 1,
        ),
    decreases k,
{
    let goal = prefix + seq![':'] + code;
    if k > prefix.len() + 1 {
        assert(goal[k - 1] == code[k - 2 - prefix.len()]);
        assert(code.contains(code[k - 2 - prefix.len()]));
        lemma_no_later_suffix(prefix, code, k - 1);
    }
}

proof fn lemma_first_code(list: Seq<Seq<char>>, i: int, n: int)
    requires
        0 <= i <= n < list.len(),
        forall|j: int| 0 <= j < n ==> !python_snippet(trim(#[trigger] list[j])),
        python_snippet(trim(list[n])),
    ensures
        first_code_line(list, i) == n,
    decreases n - i,
{
    if i < n {
        assert(!python_snippet(trim(list[i])));
        lemma_first_code(list, i + 1, n);
    }
}

/// Below lines of prose, the lines from the first one of code on are what is run.
pub proof fn law_python_below_prose(
    goal: Seq<char>,
    prose: Seq<Seq<char>>,
    code: Seq<Seq<char>>,
)
    requires
        fenced_python(goal) is None,
        inline_code(goal) is None,
        python_suffix_upto(trim(goal), trim(goal).len() as int) is None,
        !python_snippet(trim(goal)),
        prose.len() > 0,
        code.len() > 0,
        lines(trim(goal)) == prose + code,
        forall|i: int|
            0 <= i < (prose + code).len() ==> trim_end(#[trigger] (prose + code)[i]) == (prose
                + code)[i],
        trim(prose[0]).len() > 0,
        trim(code.last()).len() > 0,
        forall|i: int| 0 <= i < prose.len() ==> !python_snippet(trim(#[trigger] prose[i])),
        python_snippet(trim(code[0])),
        lines(trim(join(code, "\n"@))).len() > 0,
        python_snippet(lines(trim(join(code, "\n"@)))[0]),
        trim(join(code, "\n"@)).len() > 0,
    ensures
        python_code(goal) == Some(trim(join(code, "\n"@))),
{
    let s = trim(goal);
    let all = prose + code;
    let ends = all.map_values(|l: Seq<char>| trim_end(l));
    assert(ends =~= all);
    assert(all[0] == prose[0]);
    assert(all.last() == code.last());
    assert(block_lines(s) == all);
    let n = prose.len() as int;
    assert forall|j: int| 0 <= j < n implies !python_snippet(trim(#[trigger] all[j])) by {
        assert(all[j] == prose[j]);
    }
    assert(all[n] == code[0]);
    lemma_first_code(all, 0, n);
    assert(all.skip(n) =~= code);
}

/// A single line that is no code, with none behind a colon, holds none.
pub proof fn law_prose_is_no_python(goal: Seq<char>)
    requires
        fenced_python(goal) is None,
        inline_code(goal) is None,
        python_suffix_upto(trim(goal), trim(goal).len() as int) is None,
        !python_snippet(trim(goal)),
        lines(trim(goal)).len() <= 1,
    ensures
        python_code(goal) is None,
{
    let ends = lines(trim(goal)).map_values(|l: Seq<char>| trim_end(l));
    lemma_skip_blank_shortens(ends);
    lemma_drop_blank_shortens(skip_blank(ends));
}

proof fn lemma_skip_blank_shortens(list: Seq<Seq<char>>)
    ensures
        skip_blank(list).len() <= list.len(),
    decreases list.len(),
{
    if list.len() > 0 {
        lemma_skip_blank_shortens(list.skip(1));
    }
}

proof fn lemma_drop_blank_shortens(list: Seq<Seq<char>>)
    ensures
        drop_blank(list).len() <= list.len(),
    decreases list.len(),
{
    if list.len() > 0 {
        lemma_drop_blank_shortens(list.drop_last());
    }
}

} // verus!
