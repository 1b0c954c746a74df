//! Local repositories and the per-branch operations on them: refreshing the
//! environment branches, syncing them into their merge branches and merging a
//! source branch into chosen targets.
//!
//! Each operation is a [`BranchRun`]: the caller asks it for the next Git
//! command, runs that command and feeds the outcome back, until the run is
//! finished and holds one [`BranchOpResult`] per branch.

use vstd::prelude::*;
use crate::config::{merge_branch_name, views, Config};
use crate::git::{failure_text, merge_result_from_output, spawn_failure_text, GitCommand, MergeResult};
use crate::text::{contains_seq, decode_lossy, lossy_utf8};
use crate::order::{lemma_seq_lt_total, lemma_seq_lt_transitive, seq_lt, sort_by_lt, sorted_by, str_lt, strict_weak_order};
use crate::text::{join, join_strings, owned};

verus! {

/// A local Git repository found under the project root.
#[derive(Debug, Clone)]
pub struct Project {
    pub name: String,
    pub path: String,
    /// The project root it was found under.
    pub source_root: String,
}

/// The outcome of one branch of an operation.
#[derive(Debug, Clone)]
pub struct BranchOpResult {
    pub branch: String,
    pub target: String,
    pub success: bool,
    pub message: String,
}

/// A directory entry under the project root, as the caller observed it.
#[derive(Debug, Clone)]
pub struct RepoCandidate {
    pub name: String,
    pub path: String,
    pub is_dir: bool,
    pub has_git_dir: bool,
}

/// Why no project list could be built.
#[derive(Debug, Clone)]
pub enum ScanError {
    /// The root directory does not exist.
    RootMissing(String),
    /// The root directory holds no Git repository.
    NoRepositories(String),
}

/// The text of a scan error.
pub open spec fn scan_error_text(e: ScanError) -> Seq<char> {
    match e {
        ScanError::RootMissing(root) => "项目根目录不存在: "@ + root@,
        ScanError::NoRepositories(root) => "在目录 "@ + root@ + " 中未找到任何 Git 仓库"@,
    }
}

impl ScanError {
    /// The error text.
    pub fn message(&self) -> (r: String)
        ensures
            r@ == scan_error_text(*self),
    {
        match self {
            ScanError::RootMissing(root) => {
                let mut r = owned("项目根目录不存在: ");
                r.append(root.as_str());
                r
            },
            ScanError::NoRepositories(root) => {
                let mut r = owned("在目录 ");
                r.append(root.as_str());
                r.append(" 中未找到任何 Git 仓库");
                r
            },
        }
    }
}

/// A directory entry that is a repository: a directory with a `.git` directory.
pub open spec fn is_repo(c: RepoCandidate) -> bool {
    c.is_dir && c.has_git_dir
}

/// The projects that the repository entries under `root` describe, in entry
/// order.
pub open spec fn repo_projects(root: String, cs: Seq<RepoCandidate>) -> Seq<Project>
    decreases cs.len(),
{
    if cs.len() == 0 {
        seq![]
    } else if is_repo(cs.last()) {
        repo_projects(root, cs.drop_last()).push(
            Project { name: cs.last().name, path: cs.last().path, source_root: root },
        )
    } else {
        repo_projects(root, cs.drop_last())
    }
}

/// Projects ordered by name.
pub open spec fn project_lt(a: Project, b: Project) -> bool {
    seq_lt(a.name@, b.name@)
}

proof fn lemma_project_order()
    ensures
        strict_weak_order(|a: Project, b: Project| project_lt(a, b)),
{
    let lt = |a: Project, b: Project| project_lt(a, b);
    assert forall|a: Project, b: Project| #[trigger] lt(a, b) implies !lt(b, a) by {
        lemma_seq_lt_total(a.name@, b.name@);
    }
    assert forall|a: Project, b: Project, c: Project|
        #[trigger] lt(a, b) && #[trigger] lt(b, c) implies lt(a, c) by {
        lemma_seq_lt_transitive(a.name@, b.name@, c.name@);
    }
    assert forall|a: Project, b: Project, c: Project|
        !#[trigger] lt(a, b) && !#[trigger] lt(b, c) implies !lt(a, c) by {
        lemma_seq_lt_total(a.name@, b.name@);
        lemma_seq_lt_total(b.name@, c.name@);
        lemma_seq_lt_total(a.name@, c.name@);
        if seq_lt(a.name@, c.name@) && a.name@ != b.name@ && b.name@ != c.name@ {
            lemma_seq_lt_transitive(c.name@, b.name@, a.name@);
        }
    }
}

/// The projects found under one root: at least one, ordered by name, exactly
/// the repositories among its entries.
pub open spec fn root_projects_ok(root: String, cs: Seq<RepoCandidate>, ps: Seq<Project>) -> bool {
    &&& ps.len() > 0
    &&& sorted_by(ps, |a: Project, b: Project| project_lt(a, b))
    &&& ps.to_multiset() == repo_projects(root, cs).to_multiset()
}

/// Why a root yields no project list, if it does not: it is not a directory,
/// or it holds no repository.
pub open spec fn root_failure(root: String, is_dir: bool, cs: Seq<RepoCandidate>) -> Option<ScanError> {
    if !is_dir {
        Some(ScanError::RootMissing(root))
    } else if repo_projects(root, cs).len() == 0 {
        Some(ScanError::NoRepositories(root))
    } else {
        None
    }
}

/// The repositories under a project root, ordered by name: refused when the
/// root is not a directory or holds no repository.
pub fn select_projects(root_dir: &String, root_is_dir: bool, candidates: &Vec<RepoCandidate>) -> (r:
    Result<Vec<Project>, ScanError>)
    ensures
        match r {
            Ok(ps) => root_failure(*root_dir, root_is_dir, candidates@) is None && root_projects_ok(
                *root_dir,
                candidates@,
                ps@,
            ),
            Err(e) => root_failure(*root_dir, root_is_dir, candidates@) == Some(e),
        },
{
    if !root_is_dir {
        return Err(ScanError::RootMissing(root_dir.clone()));
    }
    let ghost cs = candidates@;
    let ghost n = cs.len();
    let mut projects: Vec<Project> = Vec::new();
    let mut i: usize = 0;
    while i < candidates.len()
        invariant
            n == cs.len(),
            cs == candidates@,
            i <= n,
            projects@ == repo_projects(*root_dir, cs.subrange(0, i as int)),
        decreases n - i,
    {
        let c = &candidates[i];
        assert(cs.subrange(0, i + 1).drop_last() =~= cs.subrange(0, i as int));
        if c.is_dir && c.has_git_dir {
            projects.push(Project { name: c.name.clone(), path: c.path.clone(), source_root: root_dir.clone() });
        }
        i = i + 1;
    }
    assert(cs.subrange(0, n as int) =~= cs);
    if projects.len() == 0 {
        return Err(ScanError::NoRepositories(root_dir.clone()));
    }
    proof {
        lemma_project_order();
    }
    let lt = |a: &Project, b: &Project| -> (x: bool)
        ensures
            x == project_lt(*a, *b),
        { str_lt(a.name.as_str(), b.name.as_str()) };
    let ghost before_sort = projects@;
    let sorted = sort_by_lt(projects, &lt, Ghost(|a: Project, b: Project| project_lt(a, b)));
    proof {
        sorted@.to_multiset_ensures();
        before_sort.to_multiset_ensures();
    }
    Ok(sorted)
}

/// What was observed of one project root: its path, whether it is a
/// directory, and its entries.
pub struct RootScan {
    pub root: String,
    pub is_dir: bool,
    pub candidates: Vec<RepoCandidate>,
}

/// The lists joined in order.
pub open spec fn concat_all(parts: Seq<Seq<Project>>) -> Seq<Project>
    decreases parts.len(),
{
    if parts.len() == 0 {
        seq![]
    } else {
        concat_all(parts.drop_last()) + parts.last()
    }
}

/// Whether root scan `s` yields a project list.
pub open spec fn scan_ok(s: RootScan) -> bool {
    root_failure(s.root, s.is_dir, s.candidates@) is None
}

/// The repositories under all project roots, root by root in root order and
/// each root's ordered by name; refused with the error of the first root that
/// is not a directory or holds no repository.
pub fn select_projects_in_roots(scans: &Vec<RootScan>) -> (r: Result<Vec<Project>, ScanError>)
    ensures
        match r {
            Ok(ps) => (forall|i: int| 0 <= i < scans@.len() ==> #[trigger] scan_ok(scans@[i]))
                && exists|parts: Seq<Seq<Project>>|
                parts.len() == scans@.len() && ps@ == concat_all(parts) && forall|i: int|
                    0 <= i < parts.len() ==> root_projects_ok(
                        scans@[i].root,
                        scans@[i].candidates@,
                        #[trigger] parts[i],
                    ),
            Err(e) => exists|i: int|
                0 <= i < scans@.len() && (forall|j: int| 0 <= j < i ==> #[trigger] scan_ok(scans@[j]))
                    && root_failure(scans@[i].root, scans@[i].is_dir, scans@[i].candidates@) == Some(e),
        },
{
    let mut projects: Vec<Project> = Vec::new();
    let ghost mut parts: Seq<Seq<Project>> = seq![];
    let mut i: usize = 0;
    while i < scans.len()
        invariant
            i <= scans@.len(),
            parts.len() == i,
            projects@ == concat_all(parts),
            forall|j: int| 0 <= j < i ==> #[trigger] scan_ok(scans@[j]),
            forall|j: int|
                0 <= j < i ==> root_projects_ok(scans@[j].root, scans@[j].candidates@, #[trigger] parts[j]),
        decreases scans@.len() - i,
    {
        let s = &scans[i];
        match select_projects(&s.root, s.is_dir, &s.candidates) {
            Ok(ps) => {
                let ghost before = parts;
                proof {
                    parts = parts.push(ps@);
                    assert(parts.drop_last() =~= before);
                }
                let mut ps = ps;
                projects.append(&mut ps);
            },
            Err(e) => {
                assert(0 <= i < scans@.len() && (forall|j: int| 0 <= j < i ==> #[trigger] scan_ok(scans@[j]))
                    && root_failure(scans@[i as int].root, scans@[i as int].is_dir, scans@[i as int].candidates@) == Some(e));
                return Err(e);
            },
        }
        i = i + 1;
    }
    Ok(projects)
}

/// The environment branches of the configuration paired with their merge
/// branches in a project, in configuration order.
pub fn get_target_merge_branches(config: &Config, project_name: &str) -> (r: Vec<(String, String)>)
    ensures
        r@.len() == config.project.env_branches@.len(),
        forall|i: int|
            0 <= i < r@.len() ==> (#[trigger] r@[i]).0@ == config.project.env_branches@[i]@
                && r@[i].1@ == merge_branch_name(
                config.project.merge_branch_middle@,
                config.project.env_branches@[i]@,
                project_name@,
            ),
{
    let mut r: Vec<(String, String)> = Vec::new();
    let mut i: usize = 0;
    while i < config.project.env_branches.len()
        invariant
            i <= config.project.env_branches@.len(),
            r@.len() == i,
            forall|k: int|
                0 <= k < i ==> (#[trigger] r@[k]).0@ == config.project.env_branches@[k]@
                    && r@[k].1@ == merge_branch_name(
                    config.project.merge_branch_middle@,
                    config.project.env_branches@[k]@,
                    project_name@,
                ),
        decreases config.project.env_branches@.len() - i,
    {
        let env = &config.project.env_branches[i];
        let merge = config.get_merge_branch_name(env.as_str(), project_name);
        r.push((env.clone(), merge));
        i = i + 1;
    }
    r
}


/// Where a branch task stands: the next Git step it waits for.
#[derive(Clone, Copy, PartialEq, Eq, Structural)]
pub enum Phase {
    /// Does the branch to refresh exist?
    CheckSource,
    /// Check out the branch to refresh.
    CheckoutSource,
    /// Pull the branch to refresh from `origin`.
    PullSource,
    /// Does the target branch exist?
    CheckTarget,
    /// Create the target from the source branch.
    CreateTarget,
    /// Push the newly created target.
    PushCreated,
    /// Check out the existing target.
    CheckoutTarget,
    /// Merge the source branch into the target.
    MergeSource,
    /// Push the merged target.
    PushMerged,
}

/// A reply to a Git step, as the caller observed it.
#[derive(Debug, Clone)]
pub enum GitReply {
    /// The branch exists (locally or on `origin`) or not.
    Exists(bool),
    /// The command succeeded.
    Done,
    /// The command failed; the error text.
    Failed(String),
    /// `git merge` finished with this result.
    Merged(MergeResult),
}

/// The reply to a command other than a branch lookup, from how running it
/// went: `ran` is whether `git` could be started, `success` its exit status,
/// and `conflict_files` the conflicted files when a failed merge left
/// `.git/MERGE_HEAD` behind (the merge then having been aborted). A merge
/// that succeeded is classified by its output; a failed merge with
/// `MERGE_HEAD` is a conflict; any other failure carries the command's
/// failure text with the error output.
pub open spec fn run_reply(
    c: GitCommand,
    ran: bool,
    success: bool,
    stdout: Seq<u8>,
    stderr: Seq<u8>,
    conflict_files: Option<Seq<String>>,
) -> ReplyView {
    if !ran {
        ReplyView::Failed(spawn_failure_text(c))
    } else if success {
        if c is Merge {
            if contains_seq(lossy_utf8(stdout), "Already up to date"@) {
                ReplyView::Merged(MergeView::AlreadyUpToDate)
            } else {
                ReplyView::Merged(MergeView::Success)
            }
        } else {
            ReplyView::Done
        }
    } else if c is Merge && conflict_files is Some {
        ReplyView::Merged(MergeView::Conflict(views(conflict_files->0)))
    } else {
        ReplyView::Failed(failure_text(c, lossy_utf8(stderr)))
    }
}

/// The reply to a command other than a branch lookup, from how running it
/// went.
pub fn reply_of_run(
    command: &GitCommand,
    ran: bool,
    success: bool,
    stdout: &[u8],
    stderr: &[u8],
    conflict_files: Option<Vec<String>>,
) -> (r: GitReply)
    ensures
        r@ == run_reply(
            *command,
            ran,
            success,
            stdout@,
            stderr@,
            match conflict_files {
                Some(f) => Some(f@),
                None => None,
            },
        ),
{
    if !ran {
        return GitReply::Failed(command.spawn_failure_message());
    }
    let is_merge = match command {
        GitCommand::Merge(_) => true,
        _ => false,
    };
    if success {
        if is_merge {
            GitReply::Merged(merge_result_from_output(stdout))
        } else {
            GitReply::Done
        }
    } else {
        match conflict_files {
            Some(files) => if is_merge {
                GitReply::Merged(MergeResult::Conflict { files })
            } else {
                let text = decode_lossy(stderr);
                GitReply::Failed(command.failure_message(text.as_str()))
            },
            None => {
                let text = decode_lossy(stderr);
                GitReply::Failed(command.failure_message(text.as_str()))
            },
        }
    }
}

/// The view of a merge result.
pub enum MergeView {
    Success,
    AlreadyUpToDate,
    Conflict(Seq<Seq<char>>),
}

/// The view of a reply.
pub enum ReplyView {
    Exists(bool),
    Done,
    Failed(Seq<char>),
    Merged(MergeView),
}

impl View for GitReply {
    type V = ReplyView;

    open spec fn view(&self) -> ReplyView {
        match self {
            GitReply::Exists(b) => ReplyView::Exists(*b),
            GitReply::Done => ReplyView::Done,
            GitReply::Failed(e) => ReplyView::Failed(e@),
            GitReply::Merged(m) => ReplyView::Merged(
                match m {
                    MergeResult::Success => MergeView::Success,
                    MergeResult::AlreadyUpToDate => MergeView::AlreadyUpToDate,
                    MergeResult::Conflict { files } => MergeView::Conflict(views(files@)),
                },
            ),
        }
    }
}

/// The view of one branch's outcome.
pub struct OpView {
    pub branch: Seq<char>,
    pub target: Seq<char>,
    pub success: bool,
    pub message: Seq<char>,
}

/// The view of an outcome.
pub open spec fn op_view(r: BranchOpResult) -> OpView {
    OpView { branch: r.branch@, target: r.target@, success: r.success, message: r.message@ }
}

/// The view of a run: its tasks (source branch, target branch), whether each
/// task first refreshes its source, the task in progress, its phase, and the
/// outcomes of the tasks done.
pub struct RunView {
    pub tasks: Seq<(Seq<char>, Seq<char>)>,
    pub update_first: bool,
    pub current: nat,
    pub phase: Phase,
    pub results: Seq<OpView>,
}

/// The kind of a Git step and the branches it names.
pub enum CommandView {
    BranchExists(Seq<char>),
    Checkout(Seq<char>),
    CheckoutNewBranch(Seq<char>, Seq<char>),
    Pull(Seq<char>),
    Merge(Seq<char>),
    Push(Seq<char>),
}

/// The view of a Git step.
pub open spec fn command_view(c: GitCommand) -> CommandView {
    match c {
        GitCommand::BranchExists(b) => CommandView::BranchExists(b@),
        GitCommand::Checkout(b) => CommandView::Checkout(b@),
        GitCommand::CheckoutNewBranch { new_branch, from } => CommandView::CheckoutNewBranch(
            new_branch@,
            from@,
        ),
        GitCommand::Pull(b) => CommandView::Pull(b@),
        GitCommand::Merge(b) => CommandView::Merge(b@),
        GitCommand::Push(b) => CommandView::Push(b@),
    }
}

/// The phase a task starts in.
pub open spec fn start_phase(update_first: bool) -> Phase {
    if update_first {
        Phase::CheckSource
    } else {
        Phase::CheckTarget
    }
}

/// Every task is done.
pub open spec fn finished(v: RunView) -> bool {
    v.current >= v.tasks.len()
}

/// The Git step that a phase of task `(source, target)` waits for.
pub open spec fn phase_command(phase: Phase, source: Seq<char>, target: Seq<char>) -> CommandView {
    match phase {
        Phase::CheckSource => CommandView::BranchExists(source),
        Phase::CheckoutSource => CommandView::Checkout(source),
        Phase::PullSource => CommandView::Pull(source),
        Phase::CheckTarget => CommandView::BranchExists(target),
        Phase::CreateTarget => CommandView::CheckoutNewBranch(target, source),
        Phase::PushCreated => CommandView::Push(target),
        Phase::CheckoutTarget => CommandView::Checkout(target),
        Phase::MergeSource => CommandView::Merge(source),
        Phase::PushMerged => CommandView::Push(target),
    }
}

/// The Git step that an unfinished run waits for.
pub open spec fn expected_command(v: RunView) -> CommandView {
    phase_command(v.phase, v.tasks[v.current as int].0, v.tasks[v.current as int].1)
}

/// Whether a reply answers the step of a phase: an existence check gets
/// `Exists`, a merge gets `Merged` or `Failed`, any other step `Done` or
/// `Failed`.
pub open spec fn reply_fits(phase: Phase, r: ReplyView) -> bool {
    match phase {
        Phase::CheckSource | Phase::CheckTarget => r is Exists,
        Phase::MergeSource => r is Merged || r is Failed,
        _ => r is Done || r is Failed,
    }
}

/// The task in progress ends with this outcome; the run moves to the next task.
pub open spec fn finish_task(v: RunView, success: bool, message: Seq<char>) -> RunView {
    RunView {
        current: v.current + 1,
        phase: start_phase(v.update_first),
        results: v.results.push(
            OpView {
                branch: v.tasks[v.current as int].0,
                target: v.tasks[v.current as int].1,
                success,
                message,
            },
        ),
        ..v
    }
}

/// The run moves on within its task.
pub open spec fn advance(v: RunView, phase: Phase) -> RunView {
    RunView { phase, ..v }
}

/// The message of a refresh that failed.
pub open spec fn update_failure(error: Seq<char>) -> Seq<char> {
    "更新分支失败: "@ + error
}

/// The message of a merge that stopped on conflicts.
pub open spec fn conflict_message(source: Seq<char>, target: Seq<char>, files: Seq<Seq<char>>) -> Seq<
    char,
> {
    "合并冲突已自动中止: "@ + source + " -> "@ + target + "，冲突文件: "@ + (if files.len() == 0 {
        "（无法获取冲突文件）"@
    } else {
        join(files, ", "@)
    })
}

/// What a run becomes when the step it waits for replies `r`.
pub open spec fn step(v: RunView, r: ReplyView) -> RunView {
    let source = v.tasks[v.current as int].0;
    let target = v.tasks[v.current as int].1;
    match v.phase {
        Phase::CheckSource => match r {
            ReplyView::Exists(true) => advance(v, Phase::CheckoutSource),
            _ => finish_task(v, false, update_failure("分支 "@ + source + " 不存在"@)),
        },
        Phase::CheckoutSource => match r {
            ReplyView::Failed(e) => finish_task(v, false, update_failure(e)),
            _ => advance(v, Phase::PullSource),
        },
        Phase::PullSource => match r {
            ReplyView::Failed(e) => finish_task(v, false, update_failure(e)),
            _ => advance(v, Phase::CheckTarget),
        },
        Phase::CheckTarget => match r {
            ReplyView::Exists(true) => advance(v, Phase::CheckoutTarget),
            _ => advance(v, Phase::CreateTarget),
        },
        Phase::CreateTarget => match r {
            ReplyView::Failed(e) => finish_task(v, false, e),
            _ => advance(v, Phase::PushCreated),
        },
        Phase::PushCreated => match r {
            ReplyView::Failed(e) => finish_task(v, false, e),
            _ => finish_task(v, true, "创建并推送新分支: "@ + target),
        },
        Phase::CheckoutTarget => match r {
            ReplyView::Failed(e) => finish_task(v, false, e),
            _ => advance(v, Phase::MergeSource),
        },
        Phase::MergeSource => match r {
            ReplyView::Failed(e) => finish_task(v, false, e),
            ReplyView::Merged(MergeView::AlreadyUpToDate) => finish_task(
                v,
                true,
                "已是最新: "@ + source + " -> "@ + target,
            ),
            ReplyView::Merged(MergeView::Conflict(files)) => finish_task(
                v,
                false,
                conflict_message(source, target, files),
            ),
            _ => advance(v, Phase::PushMerged),
        },
        Phase::PushMerged => match r {
            ReplyView::Failed(e) => finish_task(v, false, e),
            _ => finish_task(v, true, "同步完成: "@ + source + " -> "@ + target),
        },
    }
}

/// A run is consistent: the tasks done each have their outcome, in task
/// order, and the phase is one its kind of task passes through.
pub open spec fn run_wf(v: RunView) -> bool {
    &&& v.current <= v.tasks.len()
    &&& v.results.len() == v.current
    &&& forall|k: int|
        0 <= k < v.current ==> (#[trigger] v.results[k]).branch == v.tasks[k].0
            && v.results[k].target == v.tasks[k].1
    &&& !v.update_first ==> !(v.phase == Phase::CheckSource || v.phase == Phase::CheckoutSource
        || v.phase == Phase::PullSource)
}

/// How far a phase is into its task.
pub open spec fn phase_rank(p: Phase) -> nat {
    match p {
        Phase::CheckSource => 0,
        Phase::CheckoutSource => 1,
        Phase::PullSource => 2,
        Phase::CheckTarget => 3,
        Phase::CreateTarget => 4,
        Phase::PushCreated => 5,
        Phase::CheckoutTarget => 6,
        Phase::MergeSource => 7,
        Phase::PushMerged => 8,
    }
}

/// A measure of the work a run has left: nine per task not done, plus the
/// phases its current task has still to pass.
pub open spec fn steps_left(v: RunView) -> int {
    (v.tasks.len() - v.current) * 9 + 8 - phase_rank(v.phase)
}

/// Every reply keeps a run consistent and lowers [`steps_left`], which never
/// goes below zero, so every run finishes.
pub proof fn law_run_progress(v: RunView, r: ReplyView)
    requires
        run_wf(v),
        !finished(v),
        reply_fits(v.phase, r),
    ensures
        run_wf(step(v, r)),
        0 <= steps_left(step(v, r)) < steps_left(v),
        step(v, r).tasks == v.tasks,
        step(v, r).results.subrange(0, v.results.len() as int) == v.results,
{
    let w = step(v, r);
    assert(w.results.subrange(0, v.results.len() as int) =~= v.results);
    assert forall|k: int| 0 <= k < w.current implies (#[trigger] w.results[k]).branch
        == w.tasks[k].0 && w.results[k].target == w.tasks[k].1 by {
        if k < v.current {
            assert(w.results[k] == v.results[k]);
        }
    }
    let n: int = v.tasks.len() as int;
    let c: int = v.current as int;
    assert(n - c >= 1);
    assert((n - c) * 9 == (n - c - 1) * 9 + 9);
}

/// A finished run holds exactly one outcome per task, in task order, for the
/// task's own source and target.
pub proof fn law_finished_run_outcomes(v: RunView)
    requires
        run_wf(v),
        finished(v),
    ensures
        v.results.len() == v.tasks.len(),
        forall|k: int|
            0 <= k < v.tasks.len() ==> (#[trigger] v.results[k]).branch == v.tasks[k].0
                && v.results[k].target == v.tasks[k].1,
{
}

/// A task whose source branch is missing or cannot be refreshed ends failed
/// without touching its target, and the run goes on with the next task.
pub proof fn law_refresh_failure_skips_sync(v: RunView, r: ReplyView)
    requires
        run_wf(v),
        !finished(v),
        v.phase == Phase::CheckSource || v.phase == Phase::CheckoutSource || v.phase
            == Phase::PullSource,
        r == ReplyView::Exists(false) || r is Failed,
        reply_fits(v.phase, r),
    ensures
        step(v, r).current == v.current + 1,
        !step(v, r).results.last().success,
        step(v, r).results.last().message.subrange(0, 8) == "更新分支失败: "@,
{
    reveal_strlit("更新分支失败: ");
    let w = step(v, r);
    let m = w.results.last().message;
    assert(m.subrange(0, 8) =~= "更新分支失败: "@);
}

/// A Git step that fails ends its task at once: the task is reported failed
/// with that step's error (behind `更新分支失败: ` when the step was
/// refreshing the source branch), and the run goes on with the next task, so
/// nothing more is run for a task after one of its steps failed.
pub proof fn law_failed_step_ends_task(v: RunView, e: Seq<char>)
    requires
        run_wf(v),
        !finished(v),
        reply_fits(v.phase, ReplyView::Failed(e)),
    ensures
        step(v, ReplyView::Failed(e)).current == v.current + 1,
        step(v, ReplyView::Failed(e)).phase == start_phase(v.update_first),
        step(v, ReplyView::Failed(e)).results == v.results.push(
            OpView {
                branch: v.tasks[v.current as int].0,
                target: v.tasks[v.current as int].1,
                success: false,
                message: if v.phase == Phase::CheckoutSource || v.phase == Phase::PullSource {
                    "更新分支失败: "@ + e
                } else {
                    e
                },
            },
        ),
{
}

/// A task is reported successful only when the step that ended it succeeded:
/// the push of a created or merged target went through, or the merge found
/// nothing to do.
pub proof fn law_success_needs_ok_reply(v: RunView, r: ReplyView)
    requires
        run_wf(v),
        !finished(v),
        reply_fits(v.phase, r),
        step(v, r).results.len() > v.results.len(),
        step(v, r).results.last().success,
    ensures
        !(r is Failed),
        v.phase == Phase::PushCreated || v.phase == Phase::PushMerged || (v.phase == Phase::MergeSource
            && r == ReplyView::Merged(MergeView::AlreadyUpToDate)),
{
}

/// A run of Git steps over a list of branch tasks.
pub struct BranchRun {
    tasks: Vec<(String, String)>,
    update_first: bool,
    current: usize,
    phase: Phase,
    results: Vec<BranchOpResult>,
}

impl View for BranchRun {
    type V = RunView;

    closed spec fn view(&self) -> RunView {
        RunView {
            tasks: self.tasks@.map_values(|t: (String, String)| (t.0@, t.1@)),
            update_first: self.update_first,
            current: self.current as nat,
            phase: self.phase,
            results: self.results@.map_values(|r: BranchOpResult| op_view(r)),
        }
    }
}

fn concat3(a: &str, b: &str, c: &str) -> (r: String)
    ensures
        r@ == a@ + b@ + c@,
{
    let mut r = owned(a);
    r.append(b);
    r.append(c);
    r
}

fn concat2(a: &str, b: &str) -> (r: String)
    ensures
        r@ == a@ + b@,
{
    let mut r = owned(a);
    r.append(b);
    r
}

fn concat4(a: &str, b: &str, c: &str, d: &str) -> (r: String)
    ensures
        r@ == a@ + b@ + c@ + d@,
{
    let mut r = concat3(a, b, c);
    r.append(d);
    r
}

fn concat5(a: &str, b: &str, c: &str, d: &str, e: &str) -> (r: String)
    ensures
        r@ == a@ + b@ + c@ + d@ + e@,
{
    let mut r = concat4(a, b, c, d);
    r.append(e);
    r
}

impl BranchRun {
    fn start(tasks: Vec<(String, String)>, update_first: bool) -> (r: BranchRun)
        ensures
            r@.tasks == tasks@.map_values(|t: (String, String)| (t.0@, t.1@)),
            r@.update_first == update_first,
            r@.current == 0,
            r@.phase == start_phase(update_first),
            r@.results == Seq::<OpView>::empty(),
            run_wf(r@),
    {
        let r = BranchRun {
            tasks,
            update_first,
            current: 0,
            phase: if update_first {
                Phase::CheckSource
            } else {
                Phase::CheckTarget
            },
            results: Vec::new(),
        };
        assert(r@.results =~= Seq::<OpView>::empty());
        r
    }

    /// Whether every task is done.
    pub fn is_finished(&self) -> (r: bool)
        ensures
            r == finished(self@),
    {
        self.current >= self.tasks.len()
    }

    /// The Git step the run waits for, or none when it is finished.
    pub fn next_command(&self) -> (r: Option<GitCommand>)
        requires
            run_wf(self@),
        ensures
            r is None <==> finished(self@),
            r matches Some(c) ==> command_view(c) == expected_command(self@),
    {
        if self.current >= self.tasks.len() {
            return None;
        }
        let source = self.tasks[self.current].0.clone();
        let target = self.tasks[self.current].1.clone();
        let c = match self.phase {
            Phase::CheckSource => GitCommand::BranchExists(source),
            Phase::CheckoutSource => GitCommand::Checkout(source),
            Phase::PullSource => GitCommand::Pull(source),
            Phase::CheckTarget => GitCommand::BranchExists(target),
            Phase::CreateTarget => GitCommand::CheckoutNewBranch { new_branch: target, from: source },
            Phase::PushCreated => GitCommand::Push(target),
            Phase::CheckoutTarget => GitCommand::Checkout(target),
            Phase::MergeSource => GitCommand::Merge(source),
            Phase::PushMerged => GitCommand::Push(target),
        };
        Some(c)
    }

    /// Whether `reply` answers the step the run waits for.
    pub fn accepts(&self, reply: &GitReply) -> (r: bool)
        ensures
            r == (!finished(self@) && reply_fits(self@.phase, reply@)),
    {
        if self.current >= self.tasks.len() {
            return false;
        }
        match self.phase {
            Phase::CheckSource | Phase::CheckTarget => matches!(reply, GitReply::Exists(_)),
            Phase::MergeSource => matches!(reply, GitReply::Merged(_) | GitReply::Failed(_)),
            _ => matches!(reply, GitReply::Done | GitReply::Failed(_)),
        }
    }

    fn finish(&mut self, success: bool, message: String)
        requires
            run_wf(old(self)@),
            !finished(old(self)@),
        ensures
            final(self)@ == finish_task(old(self)@, success, message@),
            run_wf(final(self)@),
    {
        let ghost old_view = self@;
        let n = self.tasks.len();
        assert(self@.tasks.len() == n);
        let branch = self.tasks[self.current].0.clone();
        let target = self.tasks[self.current].1.clone();
        self.results.push(BranchOpResult { branch, target, success, message });
        self.current = self.current + 1;
        self.phase = if self.update_first {
            Phase::CheckSource
        } else {
            Phase::CheckTarget
        };
        assert(self@.results =~= finish_task(old_view, success, message@).results);
        assert(self@ =~= finish_task(old_view, success, message@));
    }

    /// Moves the run on with the reply to the step it waits for.
    pub fn feed(&mut self, reply: GitReply)
        requires
            run_wf(old(self)@),
            !finished(old(self)@),
            reply_fits(old(self)@.phase, reply@),
        ensures
            final(self)@ == step(old(self)@, reply@),
            run_wf(final(self)@),
    {
        let ghost v = self@;
        let ghost r = reply@;
        let source = self.tasks[self.current].0.clone();
        let target = self.tasks[self.current].1.clone();
        match self.phase {
            Phase::CheckSource => match reply {
                GitReply::Exists(true) => {
                    self.phase = Phase::CheckoutSource;
                },
                _ => {
                    let m = concat4("更新分支失败: ", "分支 ", source.as_str(), " 不存在");
                    assert(m@ =~= update_failure("分支 "@ + source@ + " 不存在"@));
                    self.finish(false, m);
                },
            },
            Phase::CheckoutSource | Phase::PullSource => match reply {
                GitReply::Failed(e) => {
                    let m = concat2("更新分支失败: ", e.as_str());
                    assert(m@ =~= update_failure(e@));
                    self.finish(false, m);
                },
                _ => {
                    self.phase = if self.phase == Phase::CheckoutSource {
                        Phase::PullSource
                    } else {
                        Phase::CheckTarget
                    };
                },
            },
            Phase::CheckTarget => match reply {
                GitReply::Exists(true) => {
                    self.phase = Phase::CheckoutTarget;
                },
                _ => {
                    self.phase = Phase::CreateTarget;
                },
            },
            Phase::CreateTarget | Phase::CheckoutTarget => match reply {
                GitReply::Failed(e) => {
                    self.finish(false, e);
                },
                _ => {
                    self.phase = if self.phase == Phase::CreateTarget {
                        Phase::PushCreated
                    } else {
                        Phase::MergeSource
                    };
                },
            },
            Phase::PushCreated => match reply {
                GitReply::Failed(e) => {
                    self.finish(false, e);
                },
                _ => {
                    let m = concat2("创建并推送新分支: ", target.as_str());
                    assert(m@ =~= "创建并推送新分支: "@ + target@);
                    self.finish(true, m);
                },
            },
            Phase::MergeSource => match reply {
                GitReply::Failed(e) => {
                    self.finish(false, e);
                },
                GitReply::Merged(MergeResult::AlreadyUpToDate) => {
                    let m = concat4("已是最新: ", source.as_str(), " -> ", target.as_str());
                    assert(m@ =~= "已是最新: "@ + source@ + " -> "@ + target@);
                    self.finish(true, m);
                },
                GitReply::Merged(MergeResult::Conflict { files }) => {
                    let mut m = concat5(
                        "合并冲突已自动中止: ",
                        source.as_str(),
                        " -> ",
                        target.as_str(),
                        "，冲突文件: ",
                    );
                    if files.len() == 0 {
                        m.append("（无法获取冲突文件）");
                    } else {
                        let list = join_strings(&files, ", ");
                        m.append(list.as_str());
                    }
                    assert(m@ =~= conflict_message(source@, target@, views(files@)));
                    self.finish(false, m);
                },
                _ => {
                    self.phase = Phase::PushMerged;
                },
            },
            Phase::PushMerged => match reply {
                GitReply::Failed(e) => {
                    self.finish(false, e);
                },
                _ => {
                    let m = concat4("同步完成: ", source.as_str(), " -> ", target.as_str());
                    assert(m@ =~= "同步完成: "@ + source@ + " -> "@ + target@);
                    self.finish(true, m);
                },
            },
        }
        assert(self@ =~= step(v, r));
    }

    /// The outcomes of the tasks done, in task order.
    pub fn results(&self) -> (r: &Vec<BranchOpResult>)
        ensures
            r@.map_values(|x: BranchOpResult| op_view(x)) == self@.results,
    {
        &self.results
    }

    /// The outcomes of the tasks done, in task order.
    pub fn into_results(self) -> (r: Vec<BranchOpResult>)
        ensures
            r@.map_values(|x: BranchOpResult| op_view(x)) == self@.results,
    {
        self.results
    }
}

/// The run that refreshes each environment branch of the configuration
/// (check it exists, check it out, pull it) and then syncs it into its merge
/// branch in the project (create and push the merge branch, or check it out,
/// merge the environment branch and push), one task per environment branch in
/// configuration order.
pub fn sync_and_push(project: &Project, config: &Config) -> (r: BranchRun)
    ensures
        r@.tasks.len() == config.project.env_branches@.len(),
        forall|i: int|
            0 <= i < r@.tasks.len() ==> (#[trigger] r@.tasks[i]).0 == config.project.env_branches@[i]@
                && r@.tasks[i].1 == merge_branch_name(
                config.project.merge_branch_middle@,
                config.project.env_branches@[i]@,
                project.name@,
            ),
        r@.update_first,
        r@.current == 0,
        r@.phase == Phase::CheckSource,
        r@.results.len() == 0,
        run_wf(r@),
{
    let tasks = get_target_merge_branches(config, project.name.as_str());
    BranchRun::start(tasks, true)
}

/// The run that merges `source_branch` into each target in turn (create and
/// push a missing target; otherwise check it out, merge and push), one task
/// per target in the given order.
pub fn merge_to_targets(project: &Project, source_branch: &str, targets: &Vec<String>) -> (r:
    BranchRun)
    ensures
        r@.tasks.len() == targets@.len(),
        forall|i: int|
            0 <= i < r@.tasks.len() ==> (#[trigger] r@.tasks[i]).0 == source_branch@ && r@.tasks[i].1
                == targets@[i]@,
        !r@.update_first,
        r@.current == 0,
        r@.phase == Phase::CheckTarget,
        r@.results.len() == 0,
        run_wf(r@),
{
    let mut tasks: Vec<(String, String)> = Vec::new();
    let mut i: usize = 0;
    while i < targets.len()
        invariant
            i <= targets@.len(),
            tasks@.len() == i,
            forall|k: int|
                0 <= k < i ==> (#[trigger] tasks@[k]).0@ == source_branch@ && tasks@[k].1@
                    == targets@[k]@,
        decreases targets@.len() - i,
    {
        tasks.push((owned(source_branch), targets[i].clone()));
        i = i + 1;
    }
    BranchRun::start(tasks, false)
}

} // verus!
