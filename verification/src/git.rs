//! The Git commands the tool runs, what their output means, and the error text
//! each failure gives. Running them is left to the caller.

use vstd::prelude::*;
use crate::config::views;
use crate::text::{
    contains_seq, decode_lossy, is_empty_str, lossy_utf8, non_empty_lines, owned, split_non_empty_lines,
    split_words, str_contains, trim, trim_str, words,
};

verus! {

/// What `git merge` did.
#[derive(Debug, Clone)]
pub enum MergeResult {
    /// The merge made a commit or fast-forwarded.
    Success,
    /// Nothing was left to merge.
    AlreadyUpToDate,
    /// The merge stopped on conflicts in these files and was aborted.
    Conflict { files: Vec<String> },
}

/// A Git step of a branch operation.
#[derive(Debug, Clone)]
pub enum GitCommand {
    /// Whether the branch exists locally or on `origin`.
    BranchExists(String),
    /// `git checkout <branch>`.
    Checkout(String),
    /// `git checkout -b <new_branch> <from>`.
    CheckoutNewBranch { new_branch: String, from: String },
    /// `git pull origin <branch>`.
    Pull(String),
    /// `git merge <source> --no-edit`.
    Merge(String),
    /// `git push origin <branch>`.
    Push(String),
}

/// Views of the arguments that `git` receives for a command; empty for the
/// existence check, which runs `show-ref` twice (see [`local_ref`] and
/// [`remote_ref`]).
pub open spec fn command_args(c: GitCommand) -> Seq<Seq<char>> {
    match c {
        GitCommand::BranchExists(_) => seq![],
        GitCommand::Checkout(b) => seq!["checkout"@, b@],
        GitCommand::CheckoutNewBranch { new_branch, from } => seq![
            "checkout"@,
            "-b"@,
            new_branch@,
            from@,
        ],
        GitCommand::Pull(b) => seq!["pull"@, "origin"@, b@],
        GitCommand::Merge(s) => seq!["merge"@, s@, "--no-edit"@],
        GitCommand::Push(b) => seq!["push"@, "origin"@, b@],
    }
}

/// The text of the error when a command ran and failed with `stderr`.
pub open spec fn failure_text(c: GitCommand, stderr: Seq<char>) -> Seq<char> {
    match c {
        GitCommand::BranchExists(b) => "分支 "@ + b@ + " 不存在"@,
        GitCommand::Checkout(b) => "切换分支失败 "@ + b@ + ": "@ + stderr,
        GitCommand::CheckoutNewBranch { new_branch, from } => "创建分支失败 "@ + new_branch@ + ": "@
            + stderr,
        GitCommand::Pull(b) => "拉取代码失败 "@ + b@ + ": "@ + stderr,
        GitCommand::Merge(s) => "合并失败 "@ + s@ + ": "@ + stderr,
        GitCommand::Push(b) => "推送失败 "@ + b@ + ": "@ + stderr,
    }
}

/// The text of the error when `git` could not be started for a command.
pub open spec fn spawn_failure_text(c: GitCommand) -> Seq<char> {
    match c {
        GitCommand::BranchExists(_) => "执行 git show-ref 失败"@,
        GitCommand::Checkout(_) => "执行 git checkout 失败"@,
        GitCommand::CheckoutNewBranch { .. } => "执行 git checkout -b 失败"@,
        GitCommand::Pull(_) => "执行 git pull 失败"@,
        GitCommand::Merge(_) => "执行 git merge 失败"@,
        GitCommand::Push(_) => "执行 git push 失败"@,
    }
}

fn text_of(parts: Vec<&str>) -> (r: String)
    ensures
        r@ == parts@.fold_left(Seq::<char>::empty(), |acc: Seq<char>, p: &str| acc + p@),
{
    let mut r = String::new();
    let mut i: usize = 0;
    while i < parts.len()
        invariant
            i <= parts@.len(),
            r@ == parts@.subrange(0, i as int).fold_left(
                Seq::<char>::empty(),
                |acc: Seq<char>, p: &str| acc + p@,
            ),
        decreases parts@.len() - i,
    {
        assert(parts@.subrange(0, i + 1).drop_last() =~= parts@.subrange(0, i as int));
        r.append(parts[i]);
        i = i + 1;
    }
    assert(parts@.subrange(0, parts@.len() as int) =~= parts@);
    r
}

fn strings_of(parts: Vec<&str>) -> (r: Vec<String>)
    ensures
        views(r@) == parts@.map_values(|p: &str| p@),
{
    let mut r: Vec<String> = Vec::new();
    let mut i: usize = 0;
    while i < parts.len()
        invariant
            i <= parts@.len(),
            views(r@) == parts@.subrange(0, i as int).map_values(|p: &str| p@),
        decreases parts@.len() - i,
    {
        let ghost before = r@;
        r.push(owned(parts[i]));
        assert(r@ == before.push(r@.last()));
        assert(views(r@) =~= views(before).push(parts@[i as int]@));
        i = i + 1;
        assert(views(r@) =~= parts@.subrange(0, i as int).map_values(|p: &str| p@));
    }
    assert(parts@.subrange(0, parts@.len() as int) =~= parts@);
    r
}

impl GitCommand {
    /// The arguments that `git` receives for this command.
    pub fn args(&self) -> (r: Vec<String>)
        ensures
            views(r@) == command_args(*self),
    {
        let r = match self {
            GitCommand::BranchExists(_) => strings_of(vec![]),
            GitCommand::Checkout(b) => strings_of(vec!["checkout", b.as_str()]),
            GitCommand::CheckoutNewBranch { new_branch, from } => strings_of(
                vec!["checkout", "-b", new_branch.as_str(), from.as_str()],
            ),
            GitCommand::Pull(b) => strings_of(vec!["pull", "origin", b.as_str()]),
            GitCommand::Merge(s) => strings_of(vec!["merge", s.as_str(), "--no-edit"]),
            GitCommand::Push(b) => strings_of(vec!["push", "origin", b.as_str()]),
        };
        assert(views(r@) =~= command_args(*self));
        r
    }

    /// The error text when the command ran and failed, reporting `stderr`.
    pub fn failure_message(&self, stderr: &str) -> (r: String)
        ensures
            r@ == failure_text(*self, stderr@),
    {
        let r = match self {
            GitCommand::BranchExists(b) => text_of(vec!["分支 ", b.as_str(), " 不存在"]),
            GitCommand::Checkout(b) => text_of(vec!["切换分支失败 ", b.as_str(), ": ", stderr]),
            GitCommand::CheckoutNewBranch { new_branch, .. } => text_of(
                vec!["创建分支失败 ", new_branch.as_str(), ": ", stderr],
            ),
            GitCommand::Pull(b) => text_of(vec!["拉取代码失败 ", b.as_str(), ": ", stderr]),
            GitCommand::Merge(s) => text_of(vec!["合并失败 ", s.as_str(), ": ", stderr]),
            GitCommand::Push(b) => text_of(vec!["推送失败 ", b.as_str(), ": ", stderr]),
        };
        proof {
            reveal_with_fuel(Seq::fold_left, 5);
        }
        assert(r@ =~= failure_text(*self, stderr@));
        r
    }

    /// The error text when `git` could not be started for this command.
    pub fn spawn_failure_message(&self) -> (r: String)
        ensures
            r@ == spawn_failure_text(*self),
    {
        match self {
            GitCommand::BranchExists(_) => owned("执行 git show-ref 失败"),
            GitCommand::Checkout(_) => owned("执行 git checkout 失败"),
            GitCommand::CheckoutNewBranch { .. } => owned("执行 git checkout -b 失败"),
            GitCommand::Pull(_) => owned("执行 git pull 失败"),
            GitCommand::Merge(_) => owned("执行 git merge 失败"),
            GitCommand::Push(_) => owned("执行 git push 失败"),
        }
    }
}

/// `refs/heads/<branch>`, the ref that a local branch has.
pub fn local_ref(branch: &str) -> (r: String)
    ensures
        r@ == "refs/heads/"@ + branch@,
{
    let mut r = owned("refs/heads/");
    r.append(branch);
    r
}

/// `refs/remotes/origin/<branch>`, the ref that a branch on `origin` has.
pub fn remote_ref(branch: &str) -> (r: String)
    ensures
        r@ == "refs/remotes/origin/"@ + branch@,
{
    let mut r = owned("refs/remotes/origin/");
    r.append(branch);
    r
}

/// Arguments that check a ref quietly: `show-ref --verify --quiet <ref>`.
pub fn show_ref_args(refname: &str) -> (r: Vec<String>)
    ensures
        views(r@) == seq!["show-ref"@, "--verify"@, "--quiet"@, refname@],
{
    let r = strings_of(vec!["show-ref", "--verify", "--quiet", refname]);
    assert(views(r@) =~= seq!["show-ref"@, "--verify"@, "--quiet"@, refname@]);
    r
}

/// Arguments that print the checked-out branch: `symbolic-ref --quiet --short HEAD`.
pub fn current_branch_args() -> (r: Vec<String>)
    ensures
        views(r@) == seq!["symbolic-ref"@, "--quiet"@, "--short"@, "HEAD"@],
{
    let r = strings_of(vec!["symbolic-ref", "--quiet", "--short", "HEAD"]);
    assert(views(r@) =~= seq!["symbolic-ref"@, "--quiet"@, "--short"@, "HEAD"@]);
    r
}

/// Arguments that list local branches by name.
pub fn list_branches_args() -> (r: Vec<String>)
    ensures
        views(r@) == seq![
            "for-each-ref"@,
            "--format=%(refname:short)"@,
            "--sort=refname"@,
            "refs/heads"@,
        ],
{
    let r = strings_of(vec!["for-each-ref", "--format=%(refname:short)", "--sort=refname", "refs/heads"]);
    assert(views(r@) =~= seq![
        "for-each-ref"@,
        "--format=%(refname:short)"@,
        "--sort=refname"@,
        "refs/heads"@,
    ]);
    r
}

/// Arguments that list the files left unmerged by a conflict.
pub fn conflict_files_args() -> (r: Vec<String>)
    ensures
        views(r@) == seq!["diff"@, "--name-only"@, "--diff-filter=U"@],
{
    let r = strings_of(vec!["diff", "--name-only", "--diff-filter=U"]);
    assert(views(r@) =~= seq!["diff"@, "--name-only"@, "--diff-filter=U"@]);
    r
}

/// Arguments that abort a merge in progress.
pub fn merge_abort_args() -> (r: Vec<String>)
    ensures
        views(r@) == seq!["merge"@, "--abort"@],
{
    let r = strings_of(vec!["merge", "--abort"]);
    assert(views(r@) =~= seq!["merge"@, "--abort"@]);
    r
}

/// The checked-out branch from the output of `symbolic-ref`: the trimmed text
/// when the command succeeded, none (a detached HEAD) when it failed.
pub fn parse_current_branch(success: bool, stdout: &[u8]) -> (r: Option<String>)
    ensures
        match r {
            Some(b) => success && b@ == trim(lossy_utf8(stdout@)),
            None => !success,
        },
{
    if success {
        let text = decode_lossy(stdout);
        Some(trim_str(text.as_str()))
    } else {
        None
    }
}

/// The non-empty lines of a command's output, one name per line.
pub fn parse_name_lines(stdout: &[u8]) -> (r: Vec<String>)
    ensures
        views(r@) == non_empty_lines(lossy_utf8(stdout@)),
{
    let text = decode_lossy(stdout);
    let r = split_non_empty_lines(text.as_str());
    assert(views(r@) =~= r@.map_values(|w: String| w@));
    r
}

/// What a successful `git merge` did, from its output: nothing when it says
/// `Already up to date`, a merge otherwise.
pub fn merge_result_from_output(stdout: &[u8]) -> (r: MergeResult)
    ensures
        r is AlreadyUpToDate <==> contains_seq(lossy_utf8(stdout@), "Already up to date"@),
        r is Success <==> !contains_seq(lossy_utf8(stdout@), "Already up to date"@),
{
    let text = decode_lossy(stdout);
    if str_contains(text.as_str(), "Already up to date") {
        MergeResult::AlreadyUpToDate
    } else {
        MergeResult::Success
    }
}

/// A result with its error taken by its view.
pub open spec fn err_view<T>(r: Result<T, String>) -> Result<T, Seq<char>> {
    match r {
        Ok(x) => Ok(x),
        Err(e) => Err(e@),
    }
}

/// The error text when the local branches cannot be listed.
pub fn list_branches_failure(stderr: &[u8]) -> (r: String)
    ensures
        r@ == "获取分支列表失败: "@ + lossy_utf8(stderr@),
{
    let mut r = owned("获取分支列表失败: ");
    let text = decode_lossy(stderr);
    r.append(text.as_str());
    r
}

/// Arguments that list the uncommitted changes: `status --porcelain`.
pub fn status_args() -> (r: Vec<String>)
    ensures
        views(r@) == seq!["status"@, "--porcelain"@],
{
    let r = strings_of(vec!["status", "--porcelain"]);
    assert(views(r@) =~= seq!["status"@, "--porcelain"@]);
    r
}

/// Whether the working tree has uncommitted changes, from how `git status
/// --porcelain` went: it could not start, it failed, or it printed something
/// other than whitespace.
pub open spec fn worktree_result(ran: bool, success: bool, stdout: Seq<u8>, stderr: Seq<u8>) -> Result<
    bool,
    Seq<char>,
> {
    if !ran {
        Err("执行 git status 失败"@)
    } else if !success {
        Err("检查工作区状态失败: "@ + lossy_utf8(stderr))
    } else {
        Ok(trim(lossy_utf8(stdout)).len() > 0)
    }
}

/// Whether the working tree has uncommitted changes, from how `git status
/// --porcelain` went.
pub fn worktree_reply(ran: bool, success: bool, stdout: &[u8], stderr: &[u8]) -> (r: Result<bool, String>)
    ensures
        err_view(r) == worktree_result(ran, success, stdout@, stderr@),
{
    if !ran {
        return Err(owned("执行 git status 失败"));
    }
    if !success {
        let mut e = owned("检查工作区状态失败: ");
        let text = decode_lossy(stderr);
        e.append(text.as_str());
        return Err(e);
    }
    let text = decode_lossy(stdout);
    let t = trim_str(text.as_str());
    Ok(!is_empty_str(t.as_str()))
}

/// Arguments that count the commits a branch has that its `origin`
/// counterpart lacks, and the other way round:
/// `rev-list --left-right --count refs/heads/<b>...refs/remotes/origin/<b>`.
pub fn ahead_behind_args(branch: &str) -> (r: Vec<String>)
    ensures
        views(r@) == seq![
            "rev-list"@,
            "--left-right"@,
            "--count"@,
            "refs/heads/"@ + branch@ + "..."@ + "refs/remotes/origin/"@ + branch@,
        ],
{
    let mut range = local_ref(branch);
    range.append("...");
    let remote = remote_ref(branch);
    range.append(remote.as_str());
    assert(range@ =~= "refs/heads/"@ + branch@ + "..."@ + "refs/remotes/origin/"@ + branch@);
    let r = strings_of(vec!["rev-list", "--left-right", "--count", range.as_str()]);
    assert(views(r@) =~= seq![
        "rev-list"@,
        "--left-right"@,
        "--count"@,
        "refs/heads/"@ + branch@ + "..."@ + "refs/remotes/origin/"@ + branch@,
    ]);
    r
}

/// The name of what `u64::from_str` gives for a text.
pub uninterp spec fn parsed_u64(s: Seq<char>) -> Option<u64>;

/// Calls `u64::from_str`: the result is the name [`parsed_u64`] applied to
/// the text; which texts it accepts (optional `+`, decimal digits, no
/// overflow) is not written out here.
#[verifier::external_body]
fn parse_u64(s: &str) -> (r: Option<u64>)
    ensures
        r == parsed_u64(s@),
{
    match <u64 as std::str::FromStr>::from_str(s) {
        Ok(n) => Some(n),
        Err(_) => None,
    }
}

/// The two counts `rev-list --left-right --count` prints, when its output is
/// exactly two numbers.
pub open spec fn counts_of(stdout: Seq<u8>) -> Option<(u64, u64)> {
    let w = words(lossy_utf8(stdout));
    if w.len() == 2 && parsed_u64(w[0]) is Some && parsed_u64(w[1]) is Some {
        Some((parsed_u64(w[0])->0, parsed_u64(w[1])->0))
    } else {
        None
    }
}

/// How far a branch is ahead of and behind `origin`: none when it lacks the
/// local or the remote side (`both` false), else from how the count went.
pub open spec fn ahead_behind_result(
    both: bool,
    ran: bool,
    success: bool,
    stdout: Seq<u8>,
    stderr: Seq<u8>,
) -> Result<Option<(u64, u64)>, Seq<char>> {
    if !both {
        Ok(None)
    } else if !ran {
        Err("执行 git rev-list 失败"@)
    } else if !success {
        Err("获取 ahead/behind 失败: "@ + lossy_utf8(stderr))
    } else {
        match counts_of(stdout) {
            Some(c) => Ok(Some(c)),
            None => Err("无法解析 ahead/behind 输出: "@ + lossy_utf8(stdout)),
        }
    }
}

/// How far a branch is ahead of and behind `origin`.
pub fn ahead_behind_reply(both: bool, ran: bool, success: bool, stdout: &[u8], stderr: &[u8]) -> (r: Result<
    Option<(u64, u64)>,
    String,
>)
    ensures
        err_view(r) == ahead_behind_result(both, ran, success, stdout@, stderr@),
{
    if !both {
        return Ok(None);
    }
    if !ran {
        return Err(owned("执行 git rev-list 失败"));
    }
    if !success {
        let mut e = owned("获取 ahead/behind 失败: ");
        let text = decode_lossy(stderr);
        e.append(text.as_str());
        return Err(e);
    }
    let text = decode_lossy(stdout);
    let w = split_words(text.as_str());
    if w.len() == 2 {
        let a = parse_u64(w[0].as_str());
        let b = parse_u64(w[1].as_str());
        if let (Some(x), Some(y)) = (a, b) {
            return Ok(Some((x, y)));
        }
    }
    let mut e = owned("无法解析 ahead/behind 输出: ");
    e.append(text.as_str());
    Err(e)
}

} // verus!
