//! What the prompt says about the environment.

use crate::split::{join_text, lemma_views_push};
use crate::text::{
    chars_of, ends_with, ends_with_text, find, find_chars, join, opt_view, string_from,
    strip_prefix, strip_prefix_text, trim, views,
};
use crate::trim::trim_text;
use vstd::prelude::*;

verus! {

/// The probed environment.
#[derive(Debug)]
pub struct EnvironmentSnapshot {
    pub working_directory: String,
    /// The command-line tools that were found.
    pub available_tools: Vec<String>,
    /// The repository, where the working directory is in one.
    pub git_context: Option<GitContext>,
}

#[derive(Debug)]
pub struct GitContext {
    pub branch: String,
    pub remote_url: String,
    pub repo_name: String,
}

pub struct GitContextView {
    pub branch: Seq<char>,
    pub remote_url: Seq<char>,
    pub repo_name: Seq<char>,
}

impl View for GitContext {
    type V = GitContextView;

    open spec fn view(&self) -> GitContextView {
        GitContextView {
            branch: self.branch@,
            remote_url: self.remote_url@,
            repo_name: self.repo_name@,
        }
    }
}

/// The line on the repository.
pub open spec fn git_line(git: GitContextView) -> Seq<char> {
    "Git repository: "@ + git.repo_name + " (branch: "@ + git.branch + ", remote: "@
        + git.remote_url + ")"@
}

/// The lines on the environment.
pub open spec fn environment_lines(
    working_directory: Seq<char>,
    git: Option<GitContextView>,
    tools: Seq<Seq<char>>,
) -> Seq<Seq<char>> {
    let first = seq!["Working directory: "@ + working_directory];
    let second = match git {
        Some(git) => seq![git_line(git)],
        None => seq![],
    };
    let third = if tools.len() > 0 {
        seq!["Available CLI tools: "@ + join(tools, ", "@)]
    } else {
        seq![]
    };
    first + second + third
}

impl EnvironmentSnapshot {
    pub open spec fn git(self) -> Option<GitContextView> {
        match self.git_context {
            Some(git) => Some(git@),
            None => None,
        }
    }
}

/// The section of the prompt on the environment.
pub fn format_environment_context(snapshot: &EnvironmentSnapshot) -> (r: String)
    ensures
        r@ == join(
            environment_lines(
                snapshot.working_directory@,
                snapshot.git(),
                views(snapshot.available_tools@),
            ),
            "\n"@,
        ),
{
    let mut sections: Vec<String> = Vec::new();
    let mut first: String = "Working directory: ".to_owned();
    first.append(snapshot.working_directory.as_str());
    proof {
        lemma_views_push(sections@, first);
    }
    sections.push(first);
    match &snapshot.git_context {
        Some(git) => {
            let mut line: String = "Git repository: ".to_owned();
            line.append(git.repo_name.as_str());
            line.append(" (branch: ");
            line.append(git.branch.as_str());
            line.append(", remote: ");
            line.append(git.remote_url.as_str());
            line.append(")");
            proof {
                lemma_views_push(sections@, line);
            }
            sections.push(line);
        },
        None => {},
    }
    assert(views(snapshot.available_tools@).len() == snapshot.available_tools@.len());
    if snapshot.available_tools.len() > 0 {
        let mut line: String = "Available CLI tools: ".to_owned();
        let names: String = join_text(&snapshot.available_tools, ", ");
        line.append(names.as_str());
        proof {
            lemma_views_push(sections@, line);
        }
        sections.push(line);
    }
    assert(views(sections@) =~= environment_lines(
        snapshot.working_directory@,
        snapshot.git(),
        views(snapshot.available_tools@),
    ));
    join_text(&sections, "\n")
}

/// The text behind the first `separator`.
pub open spec fn after_first(s: Seq<char>, separator: Seq<char>) -> Option<Seq<char>> {
    match find(s, separator) {
        Some(i) => Some(s.skip(i + separator.len())),
        None => None,
    }
}

fn after_first_text(s: &str, separator: &str) -> (r: Option<String>)
    ensures
        opt_view(r) == after_first(s@, separator@),
{
    let chars: Vec<char> = chars_of(s);
    let pattern: Vec<char> = chars_of(separator);
    match find_chars(&chars, &pattern) {
        Some(i) => {
            let end: usize = chars.len();
            let rest: String = string_from(&chars, i + pattern.len(), end);
            assert(rest@ =~= s@.skip(i + separator@.len()));
            Some(rest)
        },
        None => None,
    }
}

/// `s` without any `.git` at its end.
pub open spec fn without_git(s: Seq<char>) -> Seq<char>
    decreases s.len(),
{
    if s.len() >= 4 && ends_with(s, ".git"@) {
        without_git(s.take(s.len() - 4))
    } else {
        s
    }
}

/// The part of a remote address behind the host.
pub open spec fn remote_path(url: Seq<char>) -> Option<Seq<char>> {
    match strip_prefix(url, "git@"@) {
        Some(rest) => after_first(rest, ":"@),
        None => match strip_prefix(url, "https://"@) {
            Some(rest) => after_first(rest, "/"@),
            None => match strip_prefix(url, "http://"@) {
                Some(rest) => after_first(rest, "/"@),
                None => None,
            },
        },
    }
}

/// The name of the repository that a remote address points to.
pub open spec fn repo_name(url: Seq<char>) -> Seq<char> {
    match remote_path(url) {
        Some(path) => without_git(path),
        None => without_git(url),
    }
}

fn without_git_text(s: String) -> (r: String)
    ensures
        r@ == without_git(s@),
{
    let chars: Vec<char> = chars_of(s.as_str());
    let mut end: usize = chars.len();
    let mut out: String = string_from(&chars, 0, end);
    assert(chars@.take(end as int) =~= chars@);
    assert(out@ =~= chars@.take(end as int));
    while end >= 4 && ends_with_text(out.as_str(), ".git")
        invariant
            end <= chars.len(),
            chars@ == s@,
            out@ == chars@.take(end as int),
            without_git(s@) == without_git(chars@.take(end as int)),
        decreases end,
    {
        assert(chars@.take(end as int).take(end - 4) =~= chars@.take(end - 4));
        end = end - 4;
        out = string_from(&chars, 0, end);
        assert(out@ =~= chars@.take(end as int));
    }
    out
}

/// The name of the repository that a remote address points to.
pub fn extract_repo_name(remote_url: &str) -> (r: String)
    ensures
        r@ == repo_name(remote_url@),
{
    let path: Option<String> = match strip_prefix_text(remote_url, "git@") {
        Some(rest) => after_first_text(rest.as_str(), ":"),
        None => match strip_prefix_text(remote_url, "https://") {
            Some(rest) => after_first_text(rest.as_str(), "/"),
            None => match strip_prefix_text(remote_url, "http://") {
                Some(rest) => after_first_text(rest.as_str(), "/"),
                None => None,
            },
        },
    };
    match path {
        Some(path) => without_git_text(path),
        None => without_git_text(remote_url.to_owned()),
    }
}

/// The repository, given what git printed for the branch and for the remote
/// address; there is none where git failed on the branch.
pub fn git_context_from_output(branch: Option<String>, remote: Option<String>) -> (r: Option<
    GitContext,
>)
    ensures
        match branch {
            None => r is None,
            Some(branch) => {
                let url = match remote {
                    Some(remote) => trim(remote@),
                    None => ""@,
                };
                &&& r is Some
                &&& r->0@ == (GitContextView {
                    branch: trim(branch@),
                    remote_url: url,
                    repo_name: repo_name(url),
                })
            },
        },
{
    match branch {
        None => None,
        Some(branch) => {
            let remote_url: String = match remote {
                Some(remote) => trim_text(remote.as_str()),
                None => "".to_owned(),
            };
            let repo_name: String = extract_repo_name(remote_url.as_str());
            Some(GitContext { branch: trim_text(branch.as_str()), remote_url, repo_name })
        },
    }
}

} // verus!
