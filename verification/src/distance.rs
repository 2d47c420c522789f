//! The queries that are answered by running git beside the repository, and
//! the reading of what git prints.
use crate::model::{distance_view, Repo};
use crate::scan::{Reply, ReplyView, Request};
use crate::text::{parse_u32, parse_u32_spec, text_views, trim, trimmed};
use vstd::prelude::*;
use vstd::string::*;

verus! {

/// How a program ended, and what it printed before.
#[derive(Debug)]
pub struct CommandOutput {
    /// The text on standard output.
    pub stdout: String,
    /// The text on standard error.
    pub stderr: String,
    /// Whether the program ended with success, that is with exit status 0.
    pub success: bool,
}

/// A program to run: its name, its arguments and the directory to run it in.
#[derive(Debug)]
pub struct Query {
    pub program: String,
    pub args: Vec<String>,
    pub dir: String,
}

/// The mathematical value of a [`Query`].
pub struct QueryView {
    pub program: Seq<char>,
    pub args: Seq<Seq<char>>,
    pub dir: Seq<char>,
}

impl View for Query {
    type V = QueryView;

    open spec fn view(&self) -> QueryView {
        QueryView { program: self.program@, args: text_views(self.args@), dir: self.dir@ }
    }
}

/// The message for a query that failed: it quotes what was printed on
/// standard output, without the white space around it, and on standard
/// error.
pub open spec fn parse_failure_text(stdout: Seq<char>, stderr: Seq<char>) -> Seq<char> {
    "Parsing git output failed: "@ + stdout + " "@ + stderr
}

/// The number that a git command gave. A command that ended with success
/// gives the number on its standard output, read as a decimal number
/// without the white space around it. A command that ended with failure
/// gives no number, whatever it printed, nor does one whose output is no
/// number: both give the message that quotes the output.
pub open spec fn numeric_output(stdout: Seq<char>, stderr: Seq<char>, success: bool) -> Result<
    u32,
    Seq<char>,
> {
    match parse_u32_spec(trimmed(stdout)) {
        Some(n) if success => Ok(n),
        _ => Err(parse_failure_text(trimmed(stdout), stderr)),
    }
}

/// The distance that the outcome of a query gives: that of the command if
/// it ran, its error text if it could not be run.
pub open spec fn distance_of(output: Result<CommandOutput, String>) -> Result<u32, Seq<char>> {
    match output {
        Ok(ended) => numeric_output(ended.stdout@, ended.stderr@, ended.success),
        Err(error) => Err(error@),
    }
}

/// Reads the number that a git command gave. A command that could not be
/// run hands its error text on.
pub fn parse_git_numeric_output(output: Result<CommandOutput, String>) -> (r: Result<u32, String>)
    ensures
        distance_view(r) == distance_of(output),
{
    match output {
        Ok(ended) => {
            let stdout = trim(ended.stdout.as_str());
            let number = if ended.success {
                parse_u32(stdout.as_str())
            } else {
                None
            };
            match number {
                Some(n) => Ok(n),
                None => {
                    let mut message = String::from_str("Parsing git output failed: ");
                    message.append(stdout.as_str());
                    message.append(" ");
                    message.append(ended.stderr.as_str());
                    Err(message)
                },
            }
        },
        Err(error) => Err(error),
    }
}

/// A command that ended with failure gives an error, whatever it printed,
/// and the text of the error that a command gives is never empty.
pub proof fn lemma_failed_query_gives_text(stdout: Seq<char>, stderr: Seq<char>, success: bool)
    ensures
        !success ==> numeric_output(stdout, stderr, success) is Err,
        parse_u32_spec(trimmed(stdout)) is None ==> numeric_output(stdout, stderr, success) is Err,
        numeric_output(stdout, stderr, success) matches Err(text) ==> text.len() > 0,
        numeric_output(stdout, stderr, success) matches Ok(n) ==> success && parse_u32_spec(
            trimmed(stdout),
        ) == Some(n),
{
    reveal_strlit("Parsing git output failed: ");
}

/// The shell command that counts the commits between the merge base of HEAD
/// and `branch` and HEAD.
pub open spec fn head_distance_command(branch: Seq<char>) -> Seq<char> {
    "git rev-list --count `git merge-base HEAD "@ + branch + "`..HEAD"@
}

/// The shell command that counts the commits between the merge base of HEAD
/// and `branch` and the tip of `branch`.
pub open spec fn target_distance_command(branch: Seq<char>) -> Seq<char> {
    "git rev-list --count `git merge-base HEAD "@ + branch + "`.."@ + branch
}

/// The query for the distance from the merge base to HEAD: a shell command
/// run in the repository.
pub fn head_distance_query(repo: &Repo, branch_name: &str) -> (q: Query)
    ensures
        q@ == (QueryView {
            program: "sh"@,
            args: seq!["-c"@, head_distance_command(branch_name@)],
            dir: repo.abs_path@,
        }),
{
    let mut command = String::from_str("git rev-list --count `git merge-base HEAD ");
    command.append(branch_name);
    command.append("`..HEAD");
    let mut args: Vec<String> = Vec::new();
    args.push(String::from_str("-c"));
    args.push(command);
    let q = Query { program: String::from_str("sh"), args, dir: repo.abs_path.clone() };
    assert(q@.args =~= seq!["-c"@, head_distance_command(branch_name@)]);
    q
}

/// The query for the distance from the merge base to the tip of the branch:
/// a shell command run in the repository.
pub fn target_distance_query(repo: &Repo, branch_name: &str) -> (q: Query)
    ensures
        q@ == (QueryView {
            program: "sh"@,
            args: seq!["-c"@, target_distance_command(branch_name@)],
            dir: repo.abs_path@,
        }),
{
    let mut command = String::from_str("git rev-list --count `git merge-base HEAD ");
    command.append(branch_name);
    command.append("`..");
    command.append(branch_name);
    let mut args: Vec<String> = Vec::new();
    args.push(String::from_str("-c"));
    args.push(command);
    let q = Query { program: String::from_str("sh"), args, dir: repo.abs_path.clone() };
    assert(q@.args =~= seq!["-c"@, target_distance_command(branch_name@)]);
    q
}

/// The query whether HEAD is an ancestor of the branch: git's merge-base
/// test, run in the repository. It holds if git ends with success.
pub fn ancestry_query(repo: &Repo, branch_name: &str) -> (q: Query)
    ensures
        q@ == (QueryView {
            program: "git"@,
            args: seq!["merge-base"@, "--is-ancestor"@, "HEAD"@, branch_name@],
            dir: repo.abs_path@,
        }),
{
    let mut args: Vec<String> = Vec::new();
    args.push(String::from_str("merge-base"));
    args.push(String::from_str("--is-ancestor"));
    args.push(String::from_str("HEAD"));
    args.push(String::from_str(branch_name));
    let q = Query { program: String::from_str("git"), args, dir: repo.abs_path.clone() };
    assert(q@.args =~= seq!["merge-base"@, "--is-ancestor"@, "HEAD"@, branch_name@]);
    q
}

/// The program to run for `request` on the branch `branch_name`; none for an
/// inspection, which is answered from the repository itself.
pub fn query_for(request: Request, repo: &Repo, branch_name: &str) -> (q: Option<Query>)
    ensures
        match request {
            Request::Inspect => q is None,
            Request::Ancestry => q is Some && q.unwrap()@ == (QueryView {
                program: "git"@,
                args: seq!["merge-base"@, "--is-ancestor"@, "HEAD"@, branch_name@],
                dir: repo.abs_path@,
            }),
            Request::HeadDistance => q is Some && q.unwrap()@ == (QueryView {
                program: "sh"@,
                args: seq!["-c"@, head_distance_command(branch_name@)],
                dir: repo.abs_path@,
            }),
            Request::TargetDistance => q is Some && q.unwrap()@ == (QueryView {
                program: "sh"@,
                args: seq!["-c"@, target_distance_command(branch_name@)],
                dir: repo.abs_path@,
            }),
        },
{
    match request {
        Request::Inspect => None,
        Request::Ancestry => Some(ancestry_query(repo, branch_name)),
        Request::HeadDistance => Some(head_distance_query(repo, branch_name)),
        Request::TargetDistance => Some(target_distance_query(repo, branch_name)),
    }
}

/// The reply to a distance request from how the command ended.
pub fn distance_reply(output: Result<CommandOutput, String>) -> (reply: Reply)
    ensures
        reply@ == ReplyView::Measured(distance_of(output)),
{
    Reply::Measured(parse_git_numeric_output(output))
}

/// Whether HEAD can be fast-forwarded to the branch, from how git's
/// merge-base test ended: it can if the test ran and ended with success.
/// A test that ended with failure and one that could not be run count as
/// no ancestry.
pub fn fast_forwardable(ended: Result<bool, String>) -> (reply: Reply)
    ensures
        reply@ == ReplyView::Ancestor(
            match ended {
                Ok(success) => success,
                Err(_) => false,
            },
        ),
{
    match ended {
        Ok(success) => Reply::Ancestor(success),
        Err(_) => Reply::Ancestor(false),
    }
}

} // verus!
