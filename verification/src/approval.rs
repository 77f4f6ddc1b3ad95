//! Whether a tool call may run.

use crate::json::{Json, JsonView};
use crate::text::{ascii_lower, contains, contains_text, starts_with, starts_with_text, str_eq};
use vstd::prelude::*;
use vstd::utf8::is_ascii_chars;

verus! {

/// The answer of an approval gate.
#[derive(Debug)]
pub enum ApprovalDecision {
    /// Run the tool.
    Approve,
    /// Do not run the tool; the model gets the message as the tool's result.
    Deny(String),
}

/// Decides on a tool call before it runs.
pub trait ToolApprovalGate {
    fn check(&self, tool_name: &str, arguments: &Json) -> ApprovalDecision;
}

/// Approves every call.
#[derive(Debug, Clone, Copy)]
pub struct AutoApproveGate;

impl ToolApprovalGate for AutoApproveGate {
    fn check(&self, _tool_name: &str, _arguments: &Json) -> (r: ApprovalDecision)
        ensures
            r is Approve,
    {
        ApprovalDecision::Approve
    }
}

/// The risk of a tool call.
#[derive(Debug, Clone, Copy, PartialEq, Eq, Structural)]
pub enum ToolRiskLevel {
    /// Reads only.
    Safe,
    /// Writes, or acts outside.
    RequiresApproval,
    /// Never run.
    Denied,
}

/// A tool that only reads.
pub open spec fn is_read_only_tool(name: Seq<char>) -> bool {
    name == "fs.read_text"@
    || name == "fs.glob"@
    || name == "fs.exists"@
    || name == "fs.inspect"@
    || name == "fs.list_dir"@
    || name == "fs.find"@
    || name == "fs.grep"@
    || name == "web.search"@
    || name == "web.fetch"@
    || starts_with(name, "table."@)
    || name == "final_answer"@
    || name == "ask_user"@
    || name == "fail"@
}

/// A command, in lower case, that is never run.
pub open spec fn is_denied_command(lower: Seq<char>) -> bool {
    contains(lower, "rm -rf /"@)
    || contains(lower, "rm -rf ~"@)
    || contains(lower, "mkfs."@)
    || contains(lower, "dd if="@)
    || contains(lower, "> /dev/sd"@)
    || contains(lower, ":(){ :|:& };:"@)
}

/// A command, in lower case, that only reads.
pub open spec fn is_safe_command(lower: Seq<char>) -> bool {
    starts_with(lower, "ls"@)
    || starts_with(lower, "cat "@)
    || starts_with(lower, "head "@)
    || starts_with(lower, "tail "@)
    || starts_with(lower, "wc "@)
    || starts_with(lower, "file "@)
    || starts_with(lower, "echo "@)
    || starts_with(lower, "printf "@)
    || starts_with(lower, "git status"@)
    || starts_with(lower, "git log"@)
    || starts_with(lower, "git diff"@)
    || starts_with(lower, "git show"@)
    || starts_with(lower, "git branch"@)
    || starts_with(lower, "git remote"@)
    || starts_with(lower, "git rev-parse"@)
    || starts_with(lower, "git describe"@)
    || starts_with(lower, "cargo check"@)
    || starts_with(lower, "cargo test"@)
    || starts_with(lower, "cargo build"@)
    || starts_with(lower, "cargo clippy"@)
    || starts_with(lower, "cargo fmt"@)
    || starts_with(lower, "cargo doc"@)
    || starts_with(lower, "grep "@)
    || starts_with(lower, "rg "@)
    || starts_with(lower, "find "@)
    || starts_with(lower, "which "@)
    || starts_with(lower, "type "@)
    || starts_with(lower, "pwd"@)
    || starts_with(lower, "whoami"@)
    || starts_with(lower, "uname"@)
    || starts_with(lower, "date"@)
    || starts_with(lower, "env"@)
    || starts_with(lower, "gh repo view"@)
    || starts_with(lower, "gh issue list"@)
    || starts_with(lower, "gh pr list"@)
    || starts_with(lower, "gh pr view"@)
    || starts_with(lower, "just "@)
    || starts_with(lower, "make -n"@)
    || starts_with(lower, "node --version"@)
    || starts_with(lower, "python3 --version"@)
    || starts_with(lower, "rustc --version"@)
    || starts_with(lower, "curl -s"@)
    || starts_with(lower, "wget -q"@)
}

/// The risk of a command in lower case.
pub open spec fn command_risk(lower: Seq<char>) -> ToolRiskLevel {
    if is_denied_command(lower) {
        ToolRiskLevel::Denied
    } else if is_safe_command(lower) {
        ToolRiskLevel::Safe
    } else {
        ToolRiskLevel::RequiresApproval
    }
}

/// The lower-case form of a text.
pub uninterp spec fn lower_case(s: Seq<char>) -> Seq<char>;

/// Calls `str::to_lowercase`, which maps a text to its lower-case form as Unicode
/// defines it. On a text within ASCII that form has each of `A` to `Z` replaced by
/// its small letter and nothing else changed.
#[verifier::external_body]
fn to_lower_case(s: &str) -> (r: String)
    ensures
        r@ == lower_case(s@),
        is_ascii_chars(s@) ==> r@ == ascii_lower(s@),
{
    s.to_lowercase()
}

/// The command that the arguments carry.
pub open spec fn command_of(arguments: JsonView) -> Seq<char> {
    match arguments.member_text("command"@) {
        Some(command) => command,
        None => ""@,
    }
}

/// The risk of a tool call, given the lower-case form of its command.
pub open spec fn tool_risk(tool_name: Seq<char>, lower_command: Seq<char>) -> ToolRiskLevel {
    if is_read_only_tool(tool_name) {
        ToolRiskLevel::Safe
    } else if tool_name == "command.run"@ {
        command_risk(lower_command)
    } else {
        ToolRiskLevel::RequiresApproval
    }
}

/// The risk of a command in lower case.
pub fn classify_lower_command(lower: &str) -> (r: ToolRiskLevel)
    ensures
        r == command_risk(lower@),
{
    if contains_text(lower, "rm -rf /")
        || contains_text(lower, "rm -rf ~")
        || contains_text(lower, "mkfs.")
        || contains_text(lower, "dd if=")
        || contains_text(lower, "> /dev/sd")
        || contains_text(lower, ":(){ :|:& };:") {
        return ToolRiskLevel::Denied;
    }
    if starts_with_text(lower, "ls")
        || starts_with_text(lower, "cat ")
        || starts_with_text(lower, "head ")
        || starts_with_text(lower, "tail ")
        || starts_with_text(lower, "wc ")
        || starts_with_text(lower, "file ")
        || starts_with_text(lower, "echo ")
        || starts_with_text(lower, "printf ")
        || starts_with_text(lower, "git status")
        || starts_with_text(lower, "git log")
        || starts_with_text(lower, "git diff")
        || starts_with_text(lower, "git show")
        || starts_with_text(lower, "git branch")
        || starts_with_text(lower, "git remote")
        || starts_with_text(lower, "git rev-parse")
        || starts_with_text(lower, "git describe")
        || starts_with_text(lower, "cargo check")
        || starts_with_text(lower, "cargo test")
        || starts_with_text(lower, "cargo build")
        || starts_with_text(lower, "cargo clippy")
        || starts_with_text(lower, "cargo fmt")
        || starts_with_text(lower, "cargo doc")
        || starts_with_text(lower, "grep ")
        || starts_with_text(lower, "rg ")
        || starts_with_text(lower, "find ")
        || starts_with_text(lower, "which ")
        || starts_with_text(lower, "type ")
        || starts_with_text(lower, "pwd")
        || starts_with_text(lower, "whoami")
        || starts_with_text(lower, "uname")
        || starts_with_text(lower, "date")
        || starts_with_text(lower, "env")
        || starts_with_text(lower, "gh repo view")
        || starts_with_text(lower, "gh issue list")
        || starts_with_text(lower, "gh pr list")
        || starts_with_text(lower, "gh pr view")
        || starts_with_text(lower, "just ")
        || starts_with_text(lower, "make -n")
        || starts_with_text(lower, "node --version")
        || starts_with_text(lower, "python3 --version")
        || starts_with_text(lower, "rustc --version")
        || starts_with_text(lower, "curl -s")
        || starts_with_text(lower, "wget -q") {
        return ToolRiskLevel::Safe;
    }
    ToolRiskLevel::RequiresApproval
}

/// The risk of the command that the arguments carry.
pub fn classify_command_risk(arguments: &Json) -> (r: ToolRiskLevel)
    ensures
        r == command_risk(lower_case(command_of(arguments@))),
        is_ascii_chars(command_of(arguments@)) ==> r == command_risk(
            ascii_lower(command_of(arguments@)),
        ),
{
    let command: &str = match arguments.get_str("command") {
        Some(command) => command,
        None => "",
    };
    let lower: String = to_lower_case(command);
    classify_lower_command(lower.as_str())
}

/// The risk of a tool call.
pub fn classify_tool_risk(tool_name: &str, arguments: &Json) -> (r: ToolRiskLevel)
    ensures
        r == tool_risk(tool_name@, lower_case(command_of(arguments@))),
        is_ascii_chars(command_of(arguments@)) ==> r == tool_risk(
            tool_name@,
            ascii_lower(command_of(arguments@)),
        ),
{
    if str_eq(tool_name, "fs.read_text")
        || str_eq(tool_name, "fs.glob")
        || str_eq(tool_name, "fs.exists")
        || str_eq(tool_name, "fs.inspect")
        || str_eq(tool_name, "fs.list_dir")
        || str_eq(tool_name, "fs.find")
        || str_eq(tool_name, "fs.grep")
        || str_eq(tool_name, "web.search")
        || str_eq(tool_name, "web.fetch")
        || starts_with_text(tool_name, "table.")
        || str_eq(tool_name, "final_answer")
        || str_eq(tool_name, "ask_user")
        || str_eq(tool_name, "fail") {
        return ToolRiskLevel::Safe;
    }
    if str_eq(tool_name, "command.run") {
        return classify_command_risk(arguments);
    }
    ToolRiskLevel::RequiresApproval
}

/// The message on a denied tool.
pub open spec fn denial(tool_name: Seq<char>) -> Seq<char> {
    "Tool `"@ + tool_name + "` is denied by the current security policy."@
}

/// Goes by risk: safe calls run, denied ones do not, and the prompt
/// function decides on the rest.
#[verifier::reject_recursive_types(F)]
pub struct RiskBasedGate<F> {
    prompt_fn: F,
}

impl<F: Fn(&str, &Json) -> ApprovalDecision> RiskBasedGate<F> {
    /// The function that is asked where approval is needed.
    pub closed spec fn prompt(self) -> F {
        self.prompt_fn
    }

    pub fn new(prompt_fn: F) -> (r: Self)
        ensures
            r.prompt() == prompt_fn,
    {
        RiskBasedGate { prompt_fn }
    }

    /// The decision on a call, unless the prompt function has to be asked for it.
    pub fn check_unprompted(&self, tool_name: &str, arguments: &Json) -> (r: Option<
        ApprovalDecision,
    >)
        ensures
            match tool_risk(tool_name@, lower_case(command_of(arguments@))) {
                ToolRiskLevel::Safe => r matches Some(decision) && decision is Approve,
                ToolRiskLevel::RequiresApproval => r is None,
                ToolRiskLevel::Denied => r matches Some(ApprovalDecision::Deny(message))
                    && message@ == denial(tool_name@),
            },
    {
        match classify_tool_risk(tool_name, arguments) {
            ToolRiskLevel::RequiresApproval => None,
            _ => Some(self.check(tool_name, arguments)),
        }
    }

    pub fn check(&self, tool_name: &str, arguments: &Json) -> (r: ApprovalDecision)
        requires
            tool_risk(tool_name@, lower_case(command_of(arguments@)))
                == ToolRiskLevel::RequiresApproval ==> call_requires(
                self.prompt(),
                (tool_name, arguments),
            ),
        ensures
            match tool_risk(tool_name@, lower_case(command_of(arguments@))) {
                ToolRiskLevel::Safe => r is Approve,
                ToolRiskLevel::RequiresApproval => call_ensures(
                    self.prompt(),
                    (tool_name, arguments),
                    r,
                ),
                ToolRiskLevel::Denied => r matches ApprovalDecision::Deny(message) && message@
                    == denial(tool_name@),
            },
    {
        match classify_tool_risk(tool_name, arguments) {
            ToolRiskLevel::Safe => ApprovalDecision::Approve,
            ToolRiskLevel::RequiresApproval => (self.prompt_fn)(tool_name, arguments),
            ToolRiskLevel::Denied => {
                let mut message: String = "Tool `".to_owned();
                message.append(tool_name);
                message.append("` is denied by the current security policy.");
                ApprovalDecision::Deny(message)
            },
        }
    }
}

/// A denied pattern decides: a command that holds one is denied however it begins.
pub proof fn law_denied_pattern_decides(lower: Seq<char>)
    requires
        is_denied_command(lower),
    ensures
        command_risk(lower) == ToolRiskLevel::Denied,
{
}

/// A tool that only reads is safe whatever its arguments hold, every table tool among
/// them, and a tool that is neither that nor a command always needs approval.
pub proof fn law_tool_risk_without_command(tool_name: Seq<char>, lower: Seq<char>)
    ensures
        starts_with(tool_name, "table."@) ==> tool_risk(tool_name, lower) == ToolRiskLevel::Safe,
        is_read_only_tool(tool_name) ==> tool_risk(tool_name, lower) == ToolRiskLevel::Safe,
        !is_read_only_tool(tool_name) && tool_name != "command.run"@ ==> tool_risk(tool_name, lower)
            == ToolRiskLevel::RequiresApproval,
        tool_risk(tool_name, lower) == ToolRiskLevel::Denied ==> tool_name == "command.run"@,
{
}

} // verus!
