//! What the risk of a call promises.

use crate::approval::{command_of, command_risk, denial, tool_risk, ToolRiskLevel};
use crate::json::{lookup, FieldView, JsonView};
use crate::text::{contains, occurs_at, starts_with};
use vstd::prelude::*;

verus! {

/// A command is never run exactly where it holds one of the destructive patterns.
pub proof fn law_denied_patterns(lower: Seq<char>)
    ensures
        command_risk(lower) == ToolRiskLevel::Denied <==> (
            contains(lower, "rm -rf /"@)
            || contains(lower, "rm -rf ~"@)
            || contains(lower, "mkfs."@)
            || contains(lower, "dd if="@)
            || contains(lower, "> /dev/sd"@)
            || contains(lower, ":(){ :|:& };:"@)
        ),
{
}

/// A command runs without being asked for only where it begins like one of the
/// commands that only read, and each of those is run unless it is denied.
pub proof fn law_safe_commands_only_read(lower: Seq<char>)
    ensures
        command_risk(lower) != ToolRiskLevel::Denied ==> (command_risk(lower)
            == ToolRiskLevel::Safe <==> (
            starts_with(lower, "ls"@)
            || starts_with(lower, "cat "@)
            || starts_with(lower, "head "@)
            || starts_with(lower, "tail "@)
            || starts_with(lower, "wc "@)
            || starts_with(lower, "file "@)
            || starts_with(lower, "echo "@)
            || starts_with(lower, "printf "@)
            || starts_with(lower, "git status"@)
            || starts_with(lower, "git log"@)
            || starts_with(lower, "git diff"@)
            || starts_with(lower, "git show"@)
            || starts_with(lower, "git branch"@)
            || starts_with(lower, "git remote"@)
            || starts_with(lower, "git rev-parse"@)
            || starts_with(lower, "git describe"@)
            || starts_with(lower, "cargo check"@)
            || starts_with(lower, "cargo test"@)
            || starts_with(lower, "cargo build"@)
            || starts_with(lower, "cargo clippy"@)
            || starts_with(lower, "cargo fmt"@)
            || starts_with(lower, "cargo doc"@)
            || starts_with(lower, "grep "@)
            || starts_with(lower, "rg "@)
            || starts_with(lower, "find "@)
            || starts_with(lower, "which "@)
            || starts_with(lower, "type "@)
            || starts_with(lower, "pwd"@)
            || starts_with(lower, "whoami"@)
            || starts_with(lower, "uname"@)
            || starts_with(lower, "date"@)
            || starts_with(lower, "env"@)
            || starts_with(lower, "gh repo view"@)
            || starts_with(lower, "gh issue list"@)
            || starts_with(lower, "gh pr list"@)
            || starts_with(lower, "gh pr view"@)
            || starts_with(lower, "just "@)
            || starts_with(lower, "make -n"@)
            || starts_with(lower, "node --version"@)
            || starts_with(lower, "python3 --version"@)
            || starts_with(lower, "rustc --version"@)
            || starts_with(lower, "curl -s"@)
            || starts_with(lower, "wget -q"@)
        )),
{
}

proof fn lemma_spelled(s: Seq<char>, p: Seq<char>)
    ensures
        starts_with(s, p) ==> s.len() >= p.len() && forall|k: int|
            0 <= k < p.len() ==> #[trigger] s[k] == p[k],
{
    if starts_with(s, p) {
        assert forall|k: int| 0 <= k < p.len() implies #[trigger] s[k] == p[k] by {
            assert(s.subrange(0, p.len() as int)[k] == s[k]);
        }
    }
}

/// A command that writes, deletes, installs, sends or starts something is never run
/// without being asked for, whatever follows.
pub proof fn law_writing_commands_are_not_safe(lower: Seq<char>)
    requires
        starts_with(lower, "mv"@)
        || starts_with(lower, "cp"@)
        || starts_with(lower, "rm"@)
        || starts_with(lower, "touch"@)
        || starts_with(lower, "mkdir"@)
        || starts_with(lower, "chmod"@)
        || starts_with(lower, "chown"@)
        || starts_with(lower, "ln"@)
        || starts_with(lower, "dd"@)
        || starts_with(lower, "tee"@)
        || starts_with(lower, "sed"@)
        || starts_with(lower, "awk"@)
        || starts_with(lower, "sudo"@)
        || starts_with(lower, "su "@)
        || starts_with(lower, "sh "@)
        || starts_with(lower, "bash"@)
        || starts_with(lower, "zsh"@)
        || starts_with(lower, "kill"@)
        || starts_with(lower, "pkill"@)
        || starts_with(lower, "python "@)
        || starts_with(lower, "pip"@)
        || starts_with(lower, "npm"@)
        || starts_with(lower, "docker"@)
        || starts_with(lower, "ssh"@)
        || starts_with(lower, "scp"@)
        || starts_with(lower, "rsync"@)
        || starts_with(lower, "tar"@)
        || starts_with(lower, "unzip"@)
        || starts_with(lower, "make\n"@)
        || starts_with(lower, "git commit"@)
        || starts_with(lower, "git push"@)
        || starts_with(lower, "git pull"@)
        || starts_with(lower, "git add"@)
        || starts_with(lower, "git checkout"@)
        || starts_with(lower, "git reset"@)
        || starts_with(lower, "git merge"@)
        || starts_with(lower, "git rebase"@)
        || starts_with(lower, "git clean"@)
        || starts_with(lower, "git stash"@)
        || starts_with(lower, "git tag"@)
        || starts_with(lower, "git apply"@)
        || starts_with(lower, "cargo run"@)
        || starts_with(lower, "cargo install"@)
        || starts_with(lower, "cargo publish"@)
        || starts_with(lower, "cargo update"@)
        || starts_with(lower, "cargo add"@)
        || starts_with(lower, "cargo clean"@)
        || starts_with(lower, "gh pr create"@)
        || starts_with(lower, "gh pr merge"@)
        || starts_with(lower, "gh issue create"@)
        || starts_with(lower, "curl -x"@)
        || starts_with(lower, "curl http"@)
        || starts_with(lower, "wget http"@)
        || starts_with(lower, "python3 -c"@),
    ensures
        command_risk(lower) != ToolRiskLevel::Safe,
{
    law_safe_commands_only_read(lower);
    reveal_strlit("ls");
    lemma_spelled(lower, "ls"@);
    reveal_strlit("cat ");
    lemma_spelled(lower, "cat "@);
    reveal_strlit("head ");
    lemma_spelled(lower, "head "@);
    reveal_strlit("tail ");
    lemma_spelled(lower, "tail "@);
    reveal_strlit("wc ");
    lemma_spelled(lower, "wc "@);
    reveal_strlit("file ");
    lemma_spelled(lower, "file "@);
    reveal_strlit("echo ");
    lemma_spelled(lower, "echo "@);
    reveal_strlit("printf ");
    lemma_spelled(lower, "printf "@);
    reveal_strlit("git status");
    lemma_spelled(lower, "git status"@);
    reveal_strlit("git log");
    lemma_spelled(lower, "git log"@);
    reveal_strlit("git diff");
    lemma_spelled(lower, "git diff"@);
    reveal_strlit("git show");
    lemma_spelled(lower, "git show"@);
    reveal_strlit("git branch");
    lemma_spelled(lower, "git branch"@);
    reveal_strlit("git remote");
    lemma_spelled(lower, "git remote"@);
    reveal_strlit("git rev-parse");
    lemma_spelled(lower, "git rev-parse"@);
    reveal_strlit("git describe");
    lemma_spelled(lower, "git describe"@);
    reveal_strlit("cargo check");
    lemma_spelled(lower, "cargo check"@);
    reveal_strlit("cargo test");
    lemma_spelled(lower, "cargo test"@);
    reveal_strlit("cargo build");
    lemma_spelled(lower, "cargo build"@);
    reveal_strlit("cargo clippy");
    lemma_spelled(lower, "cargo clippy"@);
    reveal_strlit("cargo fmt");
    lemma_spelled(lower, "cargo fmt"@);
    reveal_strlit("cargo doc");
    lemma_spelled(lower, "cargo doc"@);
    reveal_strlit("grep ");
    lemma_spelled(lower, "grep "@);
    reveal_strlit("rg ");
    lemma_spelled(lower, "rg "@);
    reveal_strlit("find ");
    lemma_spelled(lower, "find "@);
    reveal_strlit("which ");
    lemma_spelled(lower, "which "@);
    reveal_strlit("type ");
    lemma_spelled(lower, "type "@);
    reveal_strlit("pwd");
    lemma_spelled(lower, "pwd"@);
    reveal_strlit("whoami");
    lemma_spelled(lower, "whoami"@);
    reveal_strlit("uname");
    lemma_spelled(lower, "uname"@);
    reveal_strlit("date");
    lemma_spelled(lower, "date"@);
    reveal_strlit("env");
    lemma_spelled(lower, "env"@);
    reveal_strlit("gh repo view");
    lemma_spelled(lower, "gh repo view"@);
    reveal_strlit("gh issue list");
    lemma_spelled(lower, "gh issue list"@);
    reveal_strlit("gh pr list");
    lemma_spelled(lower, "gh pr list"@);
    reveal_strlit("gh pr view");
    lemma_spelled(lower, "gh pr view"@);
    reveal_strlit("just ");
    lemma_spelled(lower, "just "@);
    reveal_strlit("make -n");
    lemma_spelled(lower, "make -n"@);
    reveal_strlit("node --version");
    lemma_spelled(lower, "node --version"@);
    reveal_strlit("python3 --version");
    lemma_spelled(lower, "python3 --version"@);
    reveal_strlit("rustc --version");
    lemma_spelled(lower, "rustc --version"@);
    reveal_strlit("curl -s");
    lemma_spelled(lower, "curl -s"@);
    reveal_strlit("wget -q");
    lemma_spelled(lower, "wget -q"@);
    reveal_strlit("mv");
    lemma_spelled(lower, "mv"@);
    reveal_strlit("cp");
    lemma_spelled(lower, "cp"@);
    reveal_strlit("rm");
    lemma_spelled(lower, "rm"@);
    reveal_strlit("touch");
    lemma_spelled(lower, "touch"@);
    reveal_strlit("mkdir");
    lemma_spelled(lower, "mkdir"@);
    reveal_strlit("chmod");
    lemma_spelled(lower, "chmod"@);
    reveal_strlit("chown");
    lemma_spelled(lower, "chown"@);
    reveal_strlit("ln");
    lemma_spelled(lower, "ln"@);
    reveal_strlit("dd");
    lemma_spelled(lower, "dd"@);
    reveal_strlit("tee");
    lemma_spelled(lower, "tee"@);
    reveal_strlit("sed");
    lemma_spelled(lower, "sed"@);
    reveal_strlit("awk");
    lemma_spelled(lower, "awk"@);
    reveal_strlit("sudo");
    lemma_spelled(lower, "sudo"@);
    reveal_strlit("su ");
    lemma_spelled(lower, "su "@);
    reveal_strlit("sh ");
    lemma_spelled(lower, "sh "@);
    reveal_strlit("bash");
    lemma_spelled(lower, "bash"@);
    reveal_strlit("zsh");
    lemma_spelled(lower, "zsh"@);
    reveal_strlit("kill");
    lemma_spelled(lower, "kill"@);
    reveal_strlit("pkill");
    lemma_spelled(lower, "pkill"@);
    reveal_strlit("python ");
    lemma_spelled(lower, "python "@);
    reveal_strlit("pip");
    lemma_spelled(lower, "pip"@);
    reveal_strlit("npm");
    lemma_spelled(lower, "npm"@);
    reveal_strlit("docker");
    lemma_spelled(lower, "docker"@);
    reveal_strlit("ssh");
    lemma_spelled(lower, "ssh"@);
    reveal_strlit("scp");
    lemma_spelled(lower, "scp"@);
    reveal_strlit("rsync");
    lemma_spelled(lower, "rsync"@);
    reveal_strlit("tar");
    lemma_spelled(lower, "tar"@);
    reveal_strlit("unzip");
    lemma_spelled(lower, "unzip"@);
    reveal_strlit("make\n");
    lemma_spelled(lower, "make\n"@);
    reveal_strlit("git commit");
    lemma_spelled(lower, "git commit"@);
    reveal_strlit("git push");
    lemma_spelled(lower, "git push"@);
    reveal_strlit("git pull");
    lemma_spelled(lower, "git pull"@);
    reveal_strlit("git add");
    lemma_spelled(lower, "git add"@);
    reveal_strlit("git checkout");
    lemma_spelled(lower, "git checkout"@);
    reveal_strlit("git reset");
    lemma_spelled(lower, "git reset"@);
    reveal_strlit("git merge");
    lemma_spelled(lower, "git merge"@);
    reveal_strlit("git rebase");
    lemma_spelled(lower, "git rebase"@);
    reveal_strlit("git clean");
    lemma_spelled(lower, "git clean"@);
    reveal_strlit("git stash");
    lemma_spelled(lower, "git stash"@);
    reveal_strlit("git tag");
    lemma_spelled(lower, "git tag"@);
    reveal_strlit("git apply");
    lemma_spelled(lower, "git apply"@);
    reveal_strlit("cargo run");
    lemma_spelled(lower, "cargo run"@);
    reveal_strlit("cargo install");
    lemma_spelled(lower, "cargo install"@);
    reveal_strlit("cargo publish");
    lemma_spelled(lower, "cargo publish"@);
    reveal_strlit("cargo update");
    lemma_spelled(lower, "cargo update"@);
    reveal_strlit("cargo add");
    lemma_spelled(lower, "cargo add"@);
    reveal_strlit("cargo clean");
    lemma_spelled(lower, "cargo clean"@);
    reveal_strlit("gh pr create");
    lemma_spelled(lower, "gh pr create"@);
    reveal_strlit("gh pr merge");
    lemma_spelled(lower, "gh pr merge"@);
    reveal_strlit("gh issue create");
    lemma_spelled(lower, "gh issue create"@);
    reveal_strlit("curl -x");
    lemma_spelled(lower, "curl -x"@);
    reveal_strlit("curl http");
    lemma_spelled(lower, "curl http"@);
    reveal_strlit("wget http");
    lemma_spelled(lower, "wget http"@);
    reveal_strlit("python3 -c");
    lemma_spelled(lower, "python3 -c"@);
    let c0 = lower[0];
    let c1 = lower[1];
    let c2 = lower[2];
    let c3 = lower[3];
    let c4 = lower[4];
    let c5 = lower[5];
    let c6 = lower[6];
    let c7 = lower[7];
    let c8 = lower[8];
    let c9 = lower[9];
}

/// A destructive pattern decides wherever it stands in a command, and a command that
/// is safe stays safe or becomes denied when more is written behind it.
pub proof fn law_longer_commands(before: Seq<char>, lower: Seq<char>, after: Seq<char>)
    ensures
        command_risk(lower) == ToolRiskLevel::Denied ==> command_risk(before + lower + after)
            == ToolRiskLevel::Denied,
        command_risk(lower) == ToolRiskLevel::Safe ==> command_risk(lower + after)
            != ToolRiskLevel::RequiresApproval,
{
    let whole = before + lower + after;
    law_denied_patterns(lower);
    law_denied_patterns(whole);
    assert forall|p: Seq<char>| #[trigger] contains(lower, p) implies contains(whole, p) by {
        let i = choose|i: int| occurs_at(lower, p, i);
        assert(whole.subrange(before.len() + i, before.len() + i + p.len()) =~= lower.subrange(
            i,
            i + p.len(),
        ));
        assert(occurs_at(whole, p, before.len() + i));
    }
    if command_risk(lower) == ToolRiskLevel::Safe {
        law_safe_commands_only_read(lower);
        law_safe_commands_only_read(lower + after);
        assert forall|p: Seq<char>| #[trigger] starts_with(lower, p) implies starts_with(
            lower + after,
            p,
        ) by {
            assert((lower + after).subrange(0, p.len() as int) =~= lower.subrange(
                0,
                p.len() as int,
            ));
        }
    }
}

/// The tools that run without being asked for, whatever their arguments are: those that
/// read files and directories, look things up on the web or in tables, and those that
/// only speak to the user. Only a command can be denied, and only its text decides.
pub proof fn law_tools_by_name(name: Seq<char>, lower: Seq<char>, other: Seq<char>)
    ensures
        name != "command.run"@ ==> tool_risk(name, lower) == tool_risk(name, other),
        name != "command.run"@ ==> (tool_risk(name, lower) == ToolRiskLevel::Safe <==> (
            name == "fs.read_text"@
            || name == "fs.glob"@
            || name == "fs.exists"@
            || name == "fs.inspect"@
            || name == "fs.list_dir"@
            || name == "fs.find"@
            || name == "fs.grep"@
            || name == "web.search"@
            || name == "web.fetch"@
            || starts_with(name, "table."@)
            || name == "final_answer"@
            || name == "ask_user"@
            || name == "fail"@
        )),
        name != "command.run"@ ==> tool_risk(name, lower) != ToolRiskLevel::Denied,
        tool_risk("command.run"@, lower) == command_risk(lower),
{
    reveal_strlit("command.run");
    reveal_strlit("table.");
    reveal_strlit("fs.read_text");
    reveal_strlit("fs.glob");
    reveal_strlit("fs.exists");
    reveal_strlit("fs.inspect");
    reveal_strlit("fs.list_dir");
    reveal_strlit("fs.find");
    reveal_strlit("fs.grep");
    reveal_strlit("web.search");
    reveal_strlit("web.fetch");
    reveal_strlit("final_answer");
    reveal_strlit("ask_user");
    reveal_strlit("fail");
    let command = "command.run"@;
    assert(command[0] == 'c');
    assert("fs.read_text"@[0] == 'f' && "fs.glob"@[0] == 'f' && "fs.exists"@[0] == 'f'
        && "fs.inspect"@[0] == 'f' && "fs.list_dir"@[0] == 'f' && "fs.find"@[0] == 'f'
        && "fs.grep"@[0] == 'f' && "web.search"@[0] == 'w' && "web.fetch"@[0] == 'w'
        && "final_answer"@[0] == 'f' && "ask_user"@[0] == 'a' && "fail"@[0] == 'f');
    assert("table."@.len() == 6 && "table."@[0] == 't');
    if starts_with(command, "table."@) {
        assert(command.subrange(0, "table."@.len() as int)[0] == command[0]);
    }
}

/// A tool that changes files, runs code or handles skills is not run without being
/// asked for.
pub proof fn law_acting_tools_are_asked_for(name: Seq<char>, lower: Seq<char>)
    requires
        name == "fs.write_text"@ || name == "fs.edit"@ || name == "fs.delete"@ || name
            == "python.run"@ || name == "skill.install"@ || name == "skill.execute"@ || name
            == "agent"@,
    ensures
        tool_risk(name, lower) == ToolRiskLevel::RequiresApproval,
{
    law_tools_by_name(name, lower, lower);
    reveal_strlit("command.run");
    reveal_strlit("table.");
    reveal_strlit("fs.read_text");
    reveal_strlit("fs.glob");
    reveal_strlit("fs.exists");
    reveal_strlit("fs.inspect");
    reveal_strlit("fs.list_dir");
    reveal_strlit("fs.find");
    reveal_strlit("fs.grep");
    reveal_strlit("web.search");
    reveal_strlit("web.fetch");
    reveal_strlit("final_answer");
    reveal_strlit("ask_user");
    reveal_strlit("fail");
    reveal_strlit("fs.write_text");
    reveal_strlit("fs.edit");
    reveal_strlit("fs.delete");
    reveal_strlit("python.run");
    reveal_strlit("skill.install");
    reveal_strlit("skill.execute");
    reveal_strlit("agent");
    let all = seq![
        "command.run"@,
        "fs.read_text"@,
        "fs.glob"@,
        "fs.exists"@,
        "fs.inspect"@,
        "fs.list_dir"@,
        "fs.find"@,
        "fs.grep"@,
        "web.search"@,
        "web.fetch"@,
        "final_answer"@,
        "ask_user"@,
        "fail"@,
    ];
    assert forall|i: int| 0 <= i < all.len() implies name != #[trigger] all[i] by {
        if name[0] == 'f' {
            assert(name[3] == 'w' || name[3] == 'e' || name[3] == 'd');
            assert("fs.exists"@[4] == 'x' && "fs.edit"@[4] == 'd');
            assert("fs.read_text"@[3] == 'r' && "fs.glob"@[3] == 'g' && "fs.exists"@[3] == 'e'
                && "fs.inspect"@[3] == 'i' && "fs.list_dir"@[3] == 'l' && "fs.find"@[3] == 'f'
                && "fs.grep"@[3] == 'g' && "final_answer"@[3] == 'a' && "fail"@[3] == 'l');
        } else {
            assert("agent"@[1] == 'g' && "ask_user"@[1] == 's');
            assert(name[0] == 'p' || name[0] == 's' || name[0] == 'a');
            assert(all[0][0] == 'c' && all[8][0] == 'w' && all[9][0] == 'w');
        }
    }
    assert(name != all[0] && name != all[1] && name != all[2] && name != all[3] && name != all[4]
        && name != all[5] && name != all[6] && name != all[7] && name != all[8] && name != all[9]
        && name != all[10] && name != all[11] && name != all[12]);
    if starts_with(name, "table."@) {
        assert(name.subrange(0, "table."@.len() as int)[0] == name[0]);
        assert("table."@[0] == 't');
    }
}

/// The command that decides is the text of the member `command`; other members do not
/// matter, and without it the command is empty.
pub proof fn law_command_member(
    before: Seq<FieldView>,
    command: Seq<char>,
    after: Seq<FieldView>,
    other: JsonView,
)
    requires
        forall|i: int| 0 <= i < before.len() ==> (#[trigger] before[i]).name != "command"@,
    ensures
        command_of(
            JsonView::Object(
                before + seq![FieldView { name: "command"@, value: JsonView::Text(command) }]
                    + after,
            ),
        ) == command,
        !(other is Object) ==> command_of(other) == ""@,
    decreases before.len(),
{
    let own = FieldView { name: "command"@, value: JsonView::Text(command) };
    let fields = before + seq![own] + after;
    if before.len() > 0 {
        assert forall|i: int| 0 <= i < before.skip(1).len() implies (#[trigger] before.skip(1)[i]).name
            != "command"@ by {
            assert(before[i + 1].name != "command"@);
        }
        law_command_member(before.skip(1), command, after, other);
        assert(fields.skip(1) =~= before.skip(1) + seq![own] + after);
        assert(fields[0] == before[0]);
        assert(lookup(fields, "command"@) == lookup(fields.skip(1), "command"@));
    } else {
        assert(fields[0] == own);
    }
}

/// A denied call is answered with the tool's name and the policy.
pub proof fn law_denial_names_the_tool(name: Seq<char>)
    ensures
        starts_with(denial(name), "Tool `"@ + name + "`"@),
        contains(denial(name), "is denied by the current security policy."@),
{
    let start = "Tool `"@ + name + "`"@;
    let said = "is denied by the current security policy."@;
    reveal_strlit("` is denied by the current security policy.");
    reveal_strlit("`");
    reveal_strlit("is denied by the current security policy.");
    let rest = "` is denied by the current security policy."@;
    assert(rest =~= "`"@ + seq![' '] + said);
    assert(denial(name) =~= start + seq![' '] + said);
    assert(denial(name).subrange(0, start.len() as int) =~= start);
    let at = start.len() + 1;
    assert(denial(name).subrange(at as int, (at + said.len()) as int) =~= said);
    assert(occurs_at(denial(name), said, at as int));
}

} // verus!
