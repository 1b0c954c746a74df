//! The decisions of the interactive workflow: the pages it moves through, the
//! plans it previews before running them, and the texts it reports.

use vstd::prelude::*;
use vstd::utf8::{decode_utf8, encode_utf8_decode_utf8, is_char_boundary};
use crate::config::{merge_branch_name, pair_views, views, Config};
use crate::project::{get_target_merge_branches, BranchOpResult, Project};
use crate::text::{decimal, owned, push_decimal, str_eq};
use crate::tui::checklist::ChecklistState;
use crate::tui::input::{bytes, InputState};

verus! {

/// The local operations on a repository.
#[derive(Clone, Copy, PartialEq, Eq, Structural)]
pub enum LocalOp {
    /// Refresh every environment branch and sync it into its merge branch.
    Sync,
    /// Merge a source branch into every merge branch.
    MergeAll,
    /// Merge a source branch into one chosen merge branch.
    MergeSingle,
    /// Merge a source branch into chosen merge branches.
    MergeCustom,
}

/// How merge requests are created.
#[derive(Clone, Copy, PartialEq, Eq, Structural)]
pub enum MrMode {
    Single,
    Batch,
    BatchCustom,
}

/// An operation the user confirmed in a preview.
pub enum ExecutionPlan {
    Sync { project_idx: usize },
    Merge { project_idx: usize, source_branch: String, targets: Vec<String> },
    MrSingle { project_id: u64, project_name: String, source_branch: String, target_branch: String },
    MrBatch { project_id: u64, project_name: String, mappings: Vec<(String, String)> },
}

/// A branch map entry being edited: the source it had, and the source typed.
pub struct BranchMapDraft {
    pub original_source: Option<String>,
    pub source_branch: String,
}

/// The pages of the workflow.
pub enum Page {
    MainMenu,
    ConfigMenu,
    ConfigProjectRootsMenu,
    ConfigProjectRootActions { index: usize },
    ConfigProjectRootInput { index: Option<usize>, state: InputState },
    ConfigGitLabHostInput { state: InputState },
    ConfigGitLabTokenInput { state: InputState },
    ConfigMergeMiddleInput { state: InputState },
    ConfigEnvBranchesMenu,
    ConfigEnvBranchActions { index: usize },
    ConfigEnvBranchDeleteConfirm { index: usize, branch: String, linked_mappings: Vec<String> },
    ConfigEnvBranchInput { index: Option<usize>, state: InputState },
    ConfigBranchMapMenu,
    ConfigBranchMapActions { source_branch: String },
    ConfigBranchMapSourceInput { original_source: Option<String>, state: InputState },
    ConfigBranchMapTargetSelect { draft: BranchMapDraft },
    ConfigBranchMapTargetCustomInput { draft: BranchMapDraft, state: InputState },
    ConfigBranchMapResetPreview { mappings: Vec<(String, String)> },
    ProjectSelect,
    LocalOperation { project_idx: usize },
    SourceBranch { project_idx: usize, operation: LocalOp },
    TargetBranchMulti {
        project_idx: usize,
        source_branch: String,
        state: ChecklistState,
        targets: Vec<String>,
    },
    TargetBranch { project_idx: usize, source_branch: String },
    ExecutionPreview { plan: ExecutionPlan },
    ExecuteResult { lines: Vec<(bool, String)> },
    MrMenu,
    GitLabProjectSelect { mr_mode: MrMode },
    BranchMapSelect { project_id: u64, project_name: String },
    BranchMapMultiSelect {
        project_id: u64,
        project_name: String,
        state: ChecklistState,
        mappings: Vec<(String, String)>,
    },
}

/// The pages that lead to an operation, which the result page skips on the
/// way back.
pub open spec fn is_operation_page(p: Page) -> bool {
    ||| p is ExecutionPreview
    ||| p is TargetBranchMulti
    ||| p is TargetBranch
    ||| p is SourceBranch
    ||| p is LocalOperation
    ||| p is BranchMapSelect
    ||| p is BranchMapMultiSelect
    ||| p is GitLabProjectSelect
}

/// The page stack without its trailing operation pages.
pub open spec fn strip_operation_pages(s: Seq<Page>) -> Seq<Page>
    decreases s.len(),
{
    if s.len() > 0 && is_operation_page(s.last()) {
        strip_operation_pages(s.drop_last())
    } else {
        s
    }
}

fn operation_page(p: &Page) -> (r: bool)
    ensures
        r == is_operation_page(*p),
{
    match p {
        Page::ExecutionPreview { .. } | Page::TargetBranchMulti { .. } | Page::TargetBranch { .. }
        | Page::SourceBranch { .. } | Page::LocalOperation { .. } | Page::BranchMapSelect { .. }
        | Page::BranchMapMultiSelect { .. } | Page::GitLabProjectSelect { .. } => true,
        _ => false,
    }
}

/// Leaving a result page: it is closed, and so are the pages that led to the
/// operation, back to the menu the operation was started from.
pub fn pop_after_results(stack: &mut Vec<Page>)
    ensures
        old(stack)@.len() == 0 ==> final(stack)@ == old(stack)@,
        old(stack)@.len() > 0 ==> final(stack)@ == strip_operation_pages(old(stack)@.drop_last()),
{
    if stack.len() == 0 {
        return;
    }
    let _ = stack.pop();
    while stack.len() > 0 && operation_page(&stack[stack.len() - 1])
        invariant
            strip_operation_pages(stack@) == strip_operation_pages(old(stack)@.drop_last()),
        decreases stack@.len(),
    {
        let ghost before = stack@;
        let _ = stack.pop();
        assert(stack@ =~= before.drop_last());
    }
}

/// After leaving a result page, the top page is not one leading to an
/// operation: the user is back at a menu (or the stack is empty).
pub proof fn law_results_return_to_menu(s: Seq<Page>)
    ensures
        strip_operation_pages(s).len() > 0 ==> !is_operation_page(strip_operation_pages(s).last()),
        strip_operation_pages(s).len() <= s.len(),
        s.subrange(0, strip_operation_pages(s).len() as int) == strip_operation_pages(s),
    decreases s.len(),
{
    if s.len() > 0 && is_operation_page(s.last()) {
        law_results_return_to_menu(s.drop_last());
        let t = strip_operation_pages(s.drop_last());
        assert(s.subrange(0, t.len() as int) =~= s.drop_last().subrange(0, t.len() as int));
    } else {
        assert(s.subrange(0, s.len() as int) =~= s);
    }
}

/// The line that reports one branch's outcome: `{branch} -> {target}: {message}`.
pub open spec fn result_text(r: BranchOpResult) -> Seq<char> {
    r.branch@ + " -> "@ + r.target@ + ": "@ + r.message@
}

/// The result page lines of a branch run, one per branch, in order.
pub fn result_lines(results: &Vec<BranchOpResult>) -> (r: Vec<(bool, String)>)
    ensures
        r@.len() == results@.len(),
        forall|i: int|
            0 <= i < r@.len() ==> (#[trigger] r@[i]).0 == results@[i].success && r@[i].1@
                == result_text(results@[i]),
{
    let mut r: Vec<(bool, String)> = Vec::new();
    let mut i: usize = 0;
    while i < results.len()
        invariant
            i <= results@.len(),
            r@.len() == i,
            forall|k: int|
                0 <= k < i ==> (#[trigger] r@[k]).0 == results@[k].success && r@[k].1@
                    == result_text(results@[k]),
        decreases results@.len() - i,
    {
        let x = &results[i];
        let mut line = x.branch.clone();
        line.append(" -> ");
        line.append(x.target.as_str());
        line.append(": ");
        line.append(x.message.as_str());
        r.push((x.success, line));
        i = i + 1;
    }
    r
}

/// The result page of a merge without targets.
pub fn no_target_lines() -> (r: Vec<(bool, String)>)
    ensures
        r@.len() == 1,
        !r@[0].0 && r@[0].1@ == "未选择目标分支"@,
{
    let mut r: Vec<(bool, String)> = Vec::new();
    r.push((false, owned("未选择目标分支")));
    r
}

/// The result page of a merge into `targets`: `未选择目标分支` when there
/// are none, else one line per branch result.
pub fn merge_result_lines(targets: &Vec<String>, results: &Vec<BranchOpResult>) -> (r: Vec<(bool, String)>)
    ensures
        targets@.len() == 0 ==> r@.len() == 1 && !r@[0].0 && r@[0].1@ == "未选择目标分支"@,
        targets@.len() > 0 ==> r@.len() == results@.len() && forall|i: int|
            0 <= i < r@.len() ==> (#[trigger] r@[i]).0 == results@[i].success && r@[i].1@ == result_text(
                results@[i],
            ),
{
    if targets.len() == 0 {
        no_target_lines()
    } else {
        result_lines(results)
    }
}

/// The result page of a batch of merge requests without mappings.
pub fn no_mapping_lines() -> (r: Vec<(bool, String)>)
    ensures
        r@.len() == 1,
        !r@[0].0 && r@[0].1@ == "未选择任何分支映射"@,
{
    let mut r: Vec<(bool, String)> = Vec::new();
    r.push((false, owned("未选择任何分支映射")));
    r
}

/// The targets an operation merges into without asking: every merge branch
/// of the project for a merge into all of them, none otherwise.
pub fn targets_for_operation(config: &Config, project_name: &str, operation: LocalOp) -> (r: Vec<
    String,
>)
    ensures
        operation == LocalOp::MergeAll ==> r@.len() == config.project.env_branches@.len() && forall|
            i: int,
        |
            0 <= i < r@.len() ==> #[trigger] r@[i]@ == merge_branch_name(
                config.project.merge_branch_middle@,
                config.project.env_branches@[i]@,
                project_name@,
            ),
        operation != LocalOp::MergeAll ==> r@.len() == 0,
{
    let mut r: Vec<String> = Vec::new();
    if operation == LocalOp::MergeAll {
        let pairs = get_target_merge_branches(config, project_name);
        let mut i: usize = 0;
        while i < pairs.len()
            invariant
                i <= pairs@.len(),
                pairs@.len() == config.project.env_branches@.len(),
                forall|k: int|
                    0 <= k < pairs@.len() ==> (#[trigger] pairs@[k]).1@ == merge_branch_name(
                        config.project.merge_branch_middle@,
                        config.project.env_branches@[k]@,
                        project_name@,
                    ),
                r@.len() == i,
                forall|k: int| 0 <= k < i ==> #[trigger] r@[k]@ == pairs@[k].1@,
            decreases pairs@.len() - i,
        {
            r.push(pairs[i].1.clone());
            i = i + 1;
        }
    }
    r
}

/// The first `n` bytes of `s`, `n` being a character boundary.
fn byte_prefix(s: &str, n: usize) -> (r: &str)
    requires
        is_char_boundary(bytes(s@), n as int),
    ensures
        bytes(r@) == bytes(s@).subrange(0, n as int),
{
    s.split_at(n).0
}

/// Calls `str::len`, the length of the string in bytes.
#[verifier::external_body]
fn str_byte_len(s: &str) -> (r: usize)
    ensures
        r == bytes(s@).len(),
{
    s.len()
}

/// How many bytes of a token are shown: six at most.
pub open spec fn shown_token_bytes(token: Seq<char>) -> nat {
    if bytes(token).len() < 6 {
        bytes(token).len()
    } else {
        6
    }
}

/// The tokens whose shown bytes end on a character boundary, so that they can
/// be cut there.
pub open spec fn token_maskable(token: Seq<char>) -> bool {
    is_char_boundary(bytes(token), shown_token_bytes(token) as int)
}

/// A token as the configuration menu shows it: `(未设置)` when empty, else the
/// characters of its first six bytes and `****`.
pub open spec fn masked(token: Seq<char>) -> Seq<char> {
    if token.len() == 0 {
        "(未设置)"@
    } else {
        decode_utf8(bytes(token).subrange(0, shown_token_bytes(token) as int)) + "****"@
    }
}

/// A token as the configuration menu shows it: `(未设置)` when empty, else its
/// first six bytes and `****`.
pub fn mask_token(token: &str) -> (r: String)
    requires
        token_maskable(token@),
    ensures
        r@ == masked(token@),
{
    if token.is_empty() {
        return owned("(未设置)");
    }
    let len = str_byte_len(token);
    let n = if len < 6 {
        len
    } else {
        6
    };
    let prefix = byte_prefix(token, n);
    proof {
        encode_utf8_decode_utf8(prefix@);
    }
    let mut r = owned(prefix);
    r.append("****");
    r
}

/// Whether a token can be masked without cutting a character.
pub fn can_mask_token(token: &str) -> (r: bool)
    ensures
        r == token_maskable(token@),
{
    let len = str_byte_len(token);
    let n = if len < 6 {
        len
    } else {
        6
    };
    token.is_char_boundary(n)
}

/// The preflight line on where a branch exists, locally and on `origin`.
pub open spec fn presence_text(
    role: Seq<char>,
    branch: Seq<char>,
    hint: Seq<char>,
    local: bool,
    remote: bool,
) -> Seq<char> {
    if local && remote {
        "[OK] "@ + role + " `"@ + branch + "` 已存在于本地和 origin"@
    } else if local {
        "[WARN] "@ + role + " `"@ + branch + "` 仅存在于本地，origin 上不存在"@
    } else if remote {
        "[OK] "@ + role + " `"@ + branch + "` 仅存在于 origin，本地将在需要时检出"@
    } else {
        "[WARN] "@ + role + " `"@ + branch + "` 本地和 origin 都不存在，"@ + hint
    }
}

/// The preflight line on where a branch exists.
pub fn describe_branch_presence(role: &str, branch: &str, hint: &str, local: bool, remote: bool) -> (r:
    String)
    ensures
        r@ == presence_text(role@, branch@, hint@, local, remote),
{
    let mut r = owned(if local && remote {
        "[OK] "
    } else if local {
        "[WARN] "
    } else if remote {
        "[OK] "
    } else {
        "[WARN] "
    });
    r.append(role);
    r.append(" `");
    r.append(branch);
    if local && remote {
        r.append("` 已存在于本地和 origin");
    } else if local {
        r.append("` 仅存在于本地，origin 上不存在");
    } else if remote {
        r.append("` 仅存在于 origin，本地将在需要时检出");
    } else {
        r.append("` 本地和 origin 都不存在，");
        r.append(hint);
    }
    r
}

/// The preflight line on the checked-out branch: its name, a detached HEAD, or
/// the error that prevented the check.
pub fn current_branch_line(current: &Result<Option<String>, String>) -> (r: String)
    ensures
        r@ == current_text(*current),
{
    match current {
        Ok(Some(b)) => {
            let mut r = owned("[OK] 当前检出分支: ");
            r.append(b.as_str());
            r
        },
        Ok(None) => owned("[WARN] 当前仓库处于 detached HEAD"),
        Err(e) => {
            let mut r = owned("[WARN] 无法检测当前分支: ");
            r.append(e.as_str());
            r
        },
    }
}

/// The preflight line on the checked-out branch.
pub open spec fn current_text(current: Result<Option<String>, String>) -> Seq<char> {
    match current {
        Ok(Some(b)) => "[OK] 当前检出分支: "@ + b@,
        Ok(None) => "[WARN] 当前仓库处于 detached HEAD"@,
        Err(e) => "[WARN] 无法检测当前分支: "@ + e@,
    }
}

/// The preflight line on the working tree: uncommitted changes, clean, or
/// the error that prevented the check.
pub open spec fn worktree_text(dirty: Result<bool, String>) -> Seq<char> {
    match dirty {
        Ok(true) => "[WARN] 工作区存在未提交改动，切换/合并分支时可能失败或引入额外风险"@,
        Ok(false) => "[OK] 工作区干净，没有未提交改动"@,
        Err(e) => "[WARN] 无法检查工作区状态: "@ + e@,
    }
}

/// The preflight line on the working tree.
pub fn worktree_line(dirty: &Result<bool, String>) -> (r: String)
    ensures
        r@ == worktree_text(*dirty),
{
    match dirty {
        Ok(true) => owned("[WARN] 工作区存在未提交改动，切换/合并分支时可能失败或引入额外风险"),
        Ok(false) => owned("[OK] 工作区干净，没有未提交改动"),
        Err(e) => {
            let mut r = owned("[WARN] 无法检查工作区状态: ");
            r.append(e.as_str());
            r
        },
    }
}

/// The preflight line on how a branch stands against `origin`: in step,
/// ahead, behind, diverged, one side missing, or the error of the check.
pub open spec fn tracking_text(branch: Seq<char>, counts: Result<Option<(u64, u64)>, String>) -> Seq<char> {
    match counts {
        Ok(Some((a, b))) => if a == 0 && b == 0 {
            "[OK] 分支 `"@ + branch + "` 与 origin 保持同步"@
        } else if b == 0 {
            "[WARN] 分支 `"@ + branch + "` 比 origin 领先 "@ + decimal(a as nat) + " 个提交"@
        } else if a == 0 {
            "[WARN] 分支 `"@ + branch + "` 比 origin 落后 "@ + decimal(b as nat) + " 个提交"@
        } else {
            "[WARN] 分支 `"@ + branch + "` 与 origin 已分叉：领先 "@ + decimal(a as nat) + "，落后 "@
                + decimal(b as nat)
        },
        Ok(None) => "[INFO] 分支 `"@ + branch + "` 缺少本地或远端一侧，无法计算 ahead/behind"@,
        Err(e) => "[WARN] 无法检查分支 `"@ + branch + "` 的远端跟踪状态: "@ + e@,
    }
}

/// The preflight line on how a branch stands against `origin`.
pub fn tracking_line(branch: &str, counts: &Result<Option<(u64, u64)>, String>) -> (r: String)
    ensures
        r@ == tracking_text(branch@, *counts),
{
    match counts {
        Ok(Some((a, b))) => {
            let (a, b) = (*a, *b);
            if a == 0 && b == 0 {
                let mut r = owned("[OK] 分支 `");
                r.append(branch);
                r.append("` 与 origin 保持同步");
                r
            } else if b == 0 {
                let mut r = owned("[WARN] 分支 `");
                r.append(branch);
                r.append("` 比 origin 领先 ");
                push_decimal(&mut r, a);
                r.append(" 个提交");
                r
            } else if a == 0 {
                let mut r = owned("[WARN] 分支 `");
                r.append(branch);
                r.append("` 比 origin 落后 ");
                push_decimal(&mut r, b);
                r.append(" 个提交");
                r
            } else {
                let mut r = owned("[WARN] 分支 `");
                r.append(branch);
                r.append("` 与 origin 已分叉：领先 ");
                push_decimal(&mut r, a);
                r.append("，落后 ");
                push_decimal(&mut r, b);
                r
            }
        },
        Ok(None) => {
            let mut r = owned("[INFO] 分支 `");
            r.append(branch);
            r.append("` 缺少本地或远端一侧，无法计算 ahead/behind");
            r
        },
        Err(e) => {
            let mut r = owned("[WARN] 无法检查分支 `");
            r.append(branch);
            r.append("` 的远端跟踪状态: ");
            r.append(e.as_str());
            r
        },
    }
}

/// The presence lines of the first `n` environment branches and their merge
/// branches, two per pair.
pub open spec fn sync_pair_lines(
    pairs: Seq<(String, String)>,
    presence: Seq<((bool, bool), (bool, bool))>,
    n: nat,
) -> Seq<Seq<char>>
    decreases n,
{
    if n == 0 {
        seq![]
    } else {
        let k = n - 1;
        sync_pair_lines(pairs, presence, k as nat) + seq![
            presence_text("环境分支"@, pairs[k].0@, "必须可更新并 pull"@, presence[k].0.0, presence[k].0.1),
            presence_text(
                "目标合并分支"@,
                pairs[k].1@,
                "不存在时会在执行中创建"@,
                presence[k].1.0,
                presence[k].1.1,
            ),
        ]
    }
}

/// The checks shown before a sync: the working tree, the checked-out branch,
/// then where each environment branch and its merge branch exist.
pub open spec fn sync_preflight_spec(
    worktree: Result<bool, String>,
    current: Result<Option<String>, String>,
    pairs: Seq<(String, String)>,
    presence: Seq<((bool, bool), (bool, bool))>,
) -> Seq<Seq<char>> {
    seq![worktree_text(worktree), current_text(current)] + sync_pair_lines(pairs, presence, pairs.len())
}

/// The checks shown before a sync; `presence` holds, for each pair, whether
/// the environment branch and the merge branch exist locally and on `origin`.
pub fn sync_preflight_lines(
    worktree: &Result<bool, String>,
    current: &Result<Option<String>, String>,
    pairs: &Vec<(String, String)>,
    presence: &Vec<((bool, bool), (bool, bool))>,
) -> (r: Vec<String>)
    requires
        presence@.len() == pairs@.len(),
    ensures
        views(r@) == sync_preflight_spec(*worktree, *current, pairs@, presence@),
{
    let mut r: Vec<String> = Vec::new();
    r.push(worktree_line(worktree));
    r.push(current_branch_line(current));
    let mut i: usize = 0;
    while i < pairs.len()
        invariant
            i <= pairs@.len(),
            presence@.len() == pairs@.len(),
            views(r@) == seq![worktree_text(*worktree), current_text(*current)] + sync_pair_lines(
                pairs@,
                presence@,
                i as nat,
            ),
        decreases pairs@.len() - i,
    {
        let p = presence[i];
        let a = describe_branch_presence("环境分支", pairs[i].0.as_str(), "必须可更新并 pull", p.0.0, p.0.1);
        let b = describe_branch_presence(
            "目标合并分支",
            pairs[i].1.as_str(),
            "不存在时会在执行中创建",
            p.1.0,
            p.1.1,
        );
        let ghost before = views(r@);
        r.push(a);
        r.push(b);
        assert(views(r@) =~= before + seq![a@, b@]);
        i = i + 1;
    }
    r
}

/// The presence and tracking lines of the first `n` merge targets, two per
/// target.
pub open spec fn merge_target_lines(
    targets: Seq<String>,
    presence: Seq<(bool, bool)>,
    tracking: Seq<Result<Option<(u64, u64)>, String>>,
    n: nat,
) -> Seq<Seq<char>>
    decreases n,
{
    if n == 0 {
        seq![]
    } else {
        let k = n - 1;
        merge_target_lines(targets, presence, tracking, k as nat) + seq![
            presence_text(
                "目标合并分支"@,
                targets[k]@,
                "不存在时会在执行中创建"@,
                presence[k].0,
                presence[k].1,
            ),
            tracking_text(targets[k]@, tracking[k]),
        ]
    }
}

/// The checks shown before a merge: the working tree, the checked-out
/// branch, where the source branch exists and how it stands against
/// `origin`, then the same for each target.
pub open spec fn merge_preflight_spec(
    worktree: Result<bool, String>,
    current: Result<Option<String>, String>,
    source: Seq<char>,
    source_presence: (bool, bool),
    source_tracking: Result<Option<(u64, u64)>, String>,
    targets: Seq<String>,
    presence: Seq<(bool, bool)>,
    tracking: Seq<Result<Option<(u64, u64)>, String>>,
) -> Seq<Seq<char>> {
    seq![
        worktree_text(worktree),
        current_text(current),
        presence_text("源分支"@, source, "必须存在于本地"@, source_presence.0, source_presence.1),
        tracking_text(source, source_tracking),
    ] + merge_target_lines(targets, presence, tracking, targets.len())
}

/// The checks shown before a merge; each presence is whether the branch
/// exists locally and on `origin`, each tracking how far it is ahead of and
/// behind `origin`.
pub fn merge_preflight_lines(
    worktree: &Result<bool, String>,
    current: &Result<Option<String>, String>,
    source: &str,
    source_presence: (bool, bool),
    source_tracking: &Result<Option<(u64, u64)>, String>,
    targets: &Vec<String>,
    presence: &Vec<(bool, bool)>,
    tracking: &Vec<Result<Option<(u64, u64)>, String>>,
) -> (r: Vec<String>)
    requires
        presence@.len() == targets@.len(),
        tracking@.len() == targets@.len(),
    ensures
        views(r@) == merge_preflight_spec(
            *worktree,
            *current,
            source@,
            source_presence,
            *source_tracking,
            targets@,
            presence@,
            tracking@,
        ),
{
    let mut r: Vec<String> = Vec::new();
    r.push(worktree_line(worktree));
    r.push(current_branch_line(current));
    r.push(describe_branch_presence("源分支", source, "必须存在于本地", source_presence.0, source_presence.1));
    r.push(tracking_line(source, source_tracking));
    let mut i: usize = 0;
    while i < targets.len()
        invariant
            i <= targets@.len(),
            presence@.len() == targets@.len(),
            tracking@.len() == targets@.len(),
            views(r@) == seq![
                worktree_text(*worktree),
                current_text(*current),
                presence_text("源分支"@, source@, "必须存在于本地"@, source_presence.0, source_presence.1),
                tracking_text(source@, *source_tracking),
            ] + merge_target_lines(targets@, presence@, tracking@, i as nat),
        decreases targets@.len() - i,
    {
        let p = presence[i];
        let a = describe_branch_presence("目标合并分支", targets[i].as_str(), "不存在时会在执行中创建", p.0, p.1);
        let b = tracking_line(targets[i].as_str(), &tracking[i]);
        let ghost before = views(r@);
        r.push(a);
        r.push(b);
        assert(views(r@) =~= before + seq![a@, b@]);
        i = i + 1;
    }
    r
}

/// What a choice in a list-management menu means: the first row adds, the
/// rows after it pick an entry, the row after those goes back.
#[derive(Clone, Copy, PartialEq, Eq, Structural)]
pub enum ListChoice {
    Add,
    Select(usize),
    Back,
    Nothing,
}

/// The meaning of row `index` in a list-management menu over `count` entries.
pub open spec fn list_choice(index: usize, count: usize) -> ListChoice {
    if index == 0 {
        ListChoice::Add
    } else if index <= count {
        ListChoice::Select((index - 1) as usize)
    } else if index == count + 1 {
        ListChoice::Back
    } else {
        ListChoice::Nothing
    }
}

/// The meaning of row `index` in a list-management menu over `count` entries.
pub fn list_menu_choice(index: usize, count: usize) -> (r: ListChoice)
    ensures
        r == list_choice(index, count),
        index == 0 ==> r == ListChoice::Add,
        index > 0 && index <= count ==> r == ListChoice::Select((index - 1) as usize),
        index > 0 && index == count + 1 ==> r == ListChoice::Back,
        index > count + 1 ==> r == ListChoice::Nothing,
{
    if index == 0 {
        ListChoice::Add
    } else if index <= count {
        ListChoice::Select(index - 1)
    } else if index - 1 == count {
        ListChoice::Back
    } else {
        ListChoice::Nothing
    }
}

/// What a choice in the delete-confirmation menu means.
#[derive(Clone, Copy, PartialEq, Eq, Structural)]
pub enum DeleteChoice {
    DeleteOnly,
    DeleteWithMappings,
    Back,
    Nothing,
}

/// The meaning of row `index` of the delete confirmation: without linked
/// mappings the rows are "delete" and "cancel"; with them "delete with the
/// mappings", "delete only the branch" and "cancel".
pub open spec fn delete_choice(has_linked: bool, index: usize) -> DeleteChoice {
    if !has_linked {
        if index == 0 {
            DeleteChoice::DeleteOnly
        } else if index == 1 {
            DeleteChoice::Back
        } else {
            DeleteChoice::Nothing
        }
    } else if index == 0 {
        DeleteChoice::DeleteWithMappings
    } else if index == 1 {
        DeleteChoice::DeleteOnly
    } else if index == 2 {
        DeleteChoice::Back
    } else {
        DeleteChoice::Nothing
    }
}

/// The meaning of row `index` of the delete confirmation.
pub fn delete_confirm_choice(has_linked: bool, index: usize) -> (r: DeleteChoice)
    ensures
        r == delete_choice(has_linked, index),
        !has_linked ==> r == (if index == 0 {
            DeleteChoice::DeleteOnly
        } else if index == 1 {
            DeleteChoice::Back
        } else {
            DeleteChoice::Nothing
        }),
        has_linked ==> r == (if index == 0 {
            DeleteChoice::DeleteWithMappings
        } else if index == 1 {
            DeleteChoice::DeleteOnly
        } else if index == 2 {
            DeleteChoice::Back
        } else {
            DeleteChoice::Nothing
        }),
{
    if !has_linked {
        if index == 0 {
            DeleteChoice::DeleteOnly
        } else if index == 1 {
            DeleteChoice::Back
        } else {
            DeleteChoice::Nothing
        }
    } else if index == 0 {
        DeleteChoice::DeleteWithMappings
    } else if index == 1 {
        DeleteChoice::DeleteOnly
    } else if index == 2 {
        DeleteChoice::Back
    } else {
        DeleteChoice::Nothing
    }
}

/// What a choice in the target menu of a branch map entry means.
#[derive(Clone, Copy, PartialEq, Eq, Structural)]
pub enum TargetChoice {
    /// Keep the entry's current target, which is not an environment branch.
    KeepExisting,
    /// The environment branch with this index.
    Env(usize),
    /// Type another target.
    Custom,
    Back,
    Nothing,
}

/// The meaning of row `index` of the target menu: a first row to keep a
/// custom target when there is one, then one row per environment branch, then
/// "type another", then "back".
pub open spec fn target_choice(has_custom: bool, env_count: usize, index: usize) -> TargetChoice {
    let start: int = if has_custom {
        1
    } else {
        0
    };
    if has_custom && index == 0 {
        TargetChoice::KeepExisting
    } else if start <= index < start + env_count {
        TargetChoice::Env((index - start) as usize)
    } else if index == start + env_count {
        TargetChoice::Custom
    } else if index == start + env_count + 1 {
        TargetChoice::Back
    } else {
        TargetChoice::Nothing
    }
}

/// The meaning of row `index` of the target menu.
pub fn target_select_choice(has_custom: bool, env_count: usize, index: usize) -> (r: TargetChoice)
    requires
        env_count + 2 <= usize::MAX,
    ensures
        r == target_choice(has_custom, env_count, index),
        ({
            let start: int = if has_custom {
                1
            } else {
                0
            };
            &&& has_custom && index == 0 ==> r == TargetChoice::KeepExisting
            &&& start <= index < start + env_count ==> r == TargetChoice::Env((index - start) as usize)
            &&& index == start + env_count ==> r == TargetChoice::Custom
            &&& index == start + env_count + 1 ==> r == TargetChoice::Back
            &&& index > start + env_count + 1 ==> r == TargetChoice::Nothing
        }),
{
    let start: usize = if has_custom {
        1
    } else {
        0
    };
    if has_custom && index == 0 {
        TargetChoice::KeepExisting
    } else if index >= start && index - start < env_count {
        TargetChoice::Env(index - start)
    } else if index >= start && index - start == env_count {
        TargetChoice::Custom
    } else if index >= start && index - start == env_count + 1 {
        TargetChoice::Back
    } else {
        TargetChoice::Nothing
    }
}

/// The current target of the entry of `original` when it is not one of the
/// environment branches.
pub open spec fn custom_target_of(config: Config, original: Option<Seq<char>>) -> Option<Seq<char>> {
    match original {
        Some(o) => if config.branch_map@.contains_key(o) && forall|i: int|
            0 <= i < config.project.env_branches@.len()
                ==> #[trigger] config.project.env_branches@[i]@ != config.branch_map@[o] {
            Some(config.branch_map@[o])
        } else {
            None
        },
        None => None,
    }
}

/// The current target of the entry being edited when it is not one of the
/// environment branches: the target menu then offers to keep it.
pub fn custom_target(config: &Config, original_source: Option<&str>) -> (r: Option<String>)
    ensures
        (match r {
            Some(t) => Some(t@),
            None => None,
        }) == custom_target_of(
            *config,
            match original_source {
                Some(o) => Some(o@),
                None => None,
            },
        ),
        match r {
            Some(t) => original_source matches Some(o) && config.branch_map@.contains_key(o@)
                && config.branch_map@[o@] == t@ && forall|i: int|
                0 <= i < config.project.env_branches@.len()
                    ==> #[trigger] config.project.env_branches@[i]@ != t@,
            None => match original_source {
                Some(o) => config.branch_map@.contains_key(o@) ==> exists|i: int|
                    0 <= i < config.project.env_branches@.len()
                        && #[trigger] config.project.env_branches@[i]@ == config.branch_map@[o@],
                None => true,
            },
        },
{
    let source = match original_source {
        Some(s) => s,
        None => return None,
    };
    let target = match config.branch_map.get(source) {
        Some(t) => t,
        None => return None,
    };
    let mut i: usize = 0;
    while i < config.project.env_branches.len()
        invariant
            i <= config.project.env_branches@.len(),
            config.branch_map@.contains_key(source@),
            target@ == config.branch_map@[source@],
            original_source == Some(source),
            forall|k: int| 0 <= k < i ==> #[trigger] config.project.env_branches@[k]@ != target@,
        decreases config.project.env_branches@.len() - i,
    {
        if str_eq(config.project.env_branches[i].as_str(), target.as_str()) {
            assert(config.project.env_branches@[i as int]@ == config.branch_map@[source@]);
            return None;
        }
        i = i + 1;
    }
    Some(target.clone())
}


fn push_str(v: &mut Vec<String>, s: &str)
    ensures
        views(final(v)@) == views(old(v)@).push(s@),
{
    v.push(owned(s));
    assert(views(final(v)@) =~= views(old(v)@).push(s@));
}

fn push_string(v: &mut Vec<String>, s: String)
    ensures
        views(final(v)@) == views(old(v)@).push(s@),
{
    v.push(s);
    assert(views(final(v)@) =~= views(old(v)@).push(s@));
}

fn append_strings(v: &mut Vec<String>, w: &Vec<String>)
    ensures
        views(final(v)@) == views(old(v)@) + views(w@),
{
    let mut i: usize = 0;
    while i < w.len()
        invariant
            i <= w@.len(),
            views(v@) == views(old(v)@) + views(w@.subrange(0, i as int)),
        decreases w@.len() - i,
    {
        push_string(v, w[i].clone());
        i = i + 1;
        assert(views(w@.subrange(0, i as int)) =~= views(w@.subrange(0, i - 1)).push(w@[i - 1]@));
    }
    assert(w@.subrange(0, w@.len() as int) =~= w@);
}

fn text2(a: &str, b: &str) -> (r: String)
    ensures
        r@ == a@ + b@,
{
    let mut r = owned(a);
    r.append(b);
    r
}

fn text3(a: &str, b: &str, c: &str) -> (r: String)
    ensures
        r@ == a@ + b@ + c@,
{
    let mut r = text2(a, b);
    r.append(c);
    r
}

fn text5(a: &str, b: &str, c: &str, d: &str, e: &str) -> (r: String)
    ensures
        r@ == a@ + b@ + c@ + d@ + e@,
{
    let mut r = text3(a, b, c);
    r.append(d);
    r.append(e);
    r
}

fn number_text(prefix: &str, n: u64) -> (r: String)
    ensures
        r@ == prefix@ + decimal(n as nat),
{
    let mut r = owned(prefix);
    push_decimal(&mut r, n);
    r
}

/// The steps a sync lists for its branches: refresh each environment branch,
/// then sync its merge branch.
pub open spec fn sync_step_lines(pairs: Seq<(Seq<char>, Seq<char>)>) -> Seq<Seq<char>>
    decreases pairs.len(),
{
    if pairs.len() == 0 {
        seq![]
    } else {
        sync_step_lines(pairs.drop_last()) + seq![
            "- 更新环境分支 `"@ + pairs.last().0 + "` 并 pull 最新代码"@,
            "- 同步到合并分支 `"@ + pairs.last().1 + "` 并 push"@,
        ]
    }
}

/// The steps a merge lists for its targets: check out, merge, push.
pub open spec fn merge_step_lines(source: Seq<char>, targets: Seq<Seq<char>>) -> Seq<Seq<char>>
    decreases targets.len(),
{
    if targets.len() == 0 {
        seq![]
    } else {
        merge_step_lines(source, targets.drop_last()) + seq![
            "- checkout `"@ + targets.last() + "`"@,
            "- merge `"@ + source + "` 到 `"@ + targets.last() + "`"@,
            "- push `"@ + targets.last() + "`"@,
        ]
    }
}

/// The steps a batch of merge requests lists for its mappings.
pub open spec fn mr_step_lines(mappings: Seq<(Seq<char>, Seq<char>)>) -> Seq<Seq<char>>
    decreases mappings.len(),
{
    if mappings.len() == 0 {
        seq![]
    } else {
        mr_step_lines(mappings.drop_last()) + seq![
            "- 创建 MR: `"@ + mappings.last().0 + "` -> `"@ + mappings.last().1 + "`"@,
        ]
    }
}

/// The environment branches of a configuration and their merge branches in a
/// project.
pub open spec fn sync_pairs(config: Config, project_name: Seq<char>) -> Seq<(Seq<char>, Seq<char>)> {
    views(config.project.env_branches@).map_values(
        |e: Seq<char>| (e, merge_branch_name(config.project.merge_branch_middle@, e, project_name)),
    )
}

/// The closing lines of every preview.
pub open spec fn preview_footer() -> Seq<Seq<char>> {
    seq![Seq::<char>::empty(), "当前只是预览，按 Enter 后才会真正执行。"@]
}

/// The title, subtitle and lines of the preview of a plan. `project` is the
/// repository of a local plan; `preflight` the lines of its checks.
pub open spec fn preview_spec(
    plan: ExecutionPlan,
    project: Project,
    config: Config,
    preflight: Seq<Seq<char>>,
) -> (Seq<char>, Seq<char>, Seq<Seq<char>>) {
    match plan {
        ExecutionPlan::Sync { .. } => (
            "gmux / 执行预览"@,
            "确认本地同步操作影响范围"@,
            seq![
                "项目: "@ + project.name@,
                "仓库路径: "@ + project.path@,
                Seq::<char>::empty(),
                "执行前检查:"@,
            ] + preflight + seq![Seq::<char>::empty(), "即将执行以下步骤:"@] + sync_step_lines(
                sync_pairs(config, project.name@),
            ) + preview_footer(),
        ),
        ExecutionPlan::Merge { source_branch, targets, .. } => (
            "gmux / 执行预览"@,
            "确认本地合并操作影响范围"@,
            seq![
                "项目: "@ + project.name@,
                "仓库路径: "@ + project.path@,
                "源分支: "@ + source_branch@,
                "目标分支数量: "@ + decimal(targets@.len()),
                Seq::<char>::empty(),
                "执行前检查:"@,
            ] + preflight + seq![Seq::<char>::empty(), "即将执行以下步骤:"@] + merge_step_lines(
                source_branch@,
                views(targets@),
            ) + preview_footer(),
        ),
        ExecutionPlan::MrSingle { project_id, project_name, source_branch, target_branch } => (
            "gmux / 执行预览"@,
            "确认单个 GitLab MR 的创建与后续动作"@,
            seq![
                "GitLab 项目: "@ + project_name@,
                "项目 ID: "@ + decimal(project_id as nat),
                "源分支: "@ + source_branch@,
                "目标分支: "@ + target_branch@,
                Seq::<char>::empty(),
                "即将执行以下步骤:"@,
                "- 调用 GitLab API 创建 MR: `"@ + source_branch@ + "` -> `"@ + target_branch@
                    + "`"@,
                "- 如果创建成功，将继续自动审批并尝试自动合并"@,
            ] + preview_footer(),
        ),
        ExecutionPlan::MrBatch { project_id, project_name, mappings } => (
            "gmux / 执行预览"@,
            "确认批量 GitLab MR 的创建与后续动作"@,
            seq![
                "GitLab 项目: "@ + project_name@,
                "项目 ID: "@ + decimal(project_id as nat),
                "计划创建 MR 数量: "@ + decimal(mappings@.len()),
                Seq::<char>::empty(),
                "即将执行以下步骤:"@,
            ] + mr_step_lines(pair_views(mappings@)) + seq![
                "- 对创建成功的 MR 继续自动审批并尝试自动合并"@,
            ] + preview_footer(),
        ),
    }
}

fn push_footer(v: &mut Vec<String>)
    ensures
        views(final(v)@) == views(old(v)@) + preview_footer(),
{
    push_string(v, String::new());
    push_str(v, "当前只是预览，按 Enter 后才会真正执行。");
    assert(views(final(v)@) =~= views(old(v)@) + preview_footer());
}

/// The title, subtitle and lines of the preview of a plan, with the lines of
/// its preflight checks.
pub fn build_execution_preview(
    plan: &ExecutionPlan,
    project: &Project,
    config: &Config,
    preflight: &Vec<String>,
) -> (r: (String, String, Vec<String>))
    ensures
        (r.0@, r.1@, views(r.2@)) == preview_spec(*plan, *project, *config, views(preflight@)),
{
    let mut lines: Vec<String> = Vec::new();
    match plan {
        ExecutionPlan::Sync { .. } => {
            push_string(&mut lines, text2("项目: ", project.name.as_str()));
            push_string(&mut lines, text2("仓库路径: ", project.path.as_str()));
            push_string(&mut lines, String::new());
            push_str(&mut lines, "执行前检查:");
            append_strings(&mut lines, preflight);
            push_string(&mut lines, String::new());
            push_str(&mut lines, "即将执行以下步骤:");
            let ghost head = views(lines@);
            let pairs = get_target_merge_branches(config, project.name.as_str());
            let ghost all = sync_pairs(*config, project.name@);
            let mut i: usize = 0;
            while i < pairs.len()
                invariant
                    i <= pairs@.len(),
                    pairs@.len() == config.project.env_branches@.len(),
                    all.len() == pairs@.len(),
                    forall|k: int|
                        0 <= k < pairs@.len() ==> all[k] == ((#[trigger] pairs@[k]).0@, pairs@[k].1@),
                    views(lines@) == head + sync_step_lines(all.subrange(0, i as int)),
                decreases pairs@.len() - i,
            {
                push_string(&mut lines, text3("- 更新环境分支 `", pairs[i].0.as_str(), "` 并 pull 最新代码"));
                push_string(&mut lines, text3("- 同步到合并分支 `", pairs[i].1.as_str(), "` 并 push"));
                proof {
                    assert(all.subrange(0, i + 1).drop_last() =~= all.subrange(0, i as int));
                }
                i = i + 1;
                assert(views(lines@) =~= head + sync_step_lines(all.subrange(0, i as int)));
            }
            assert(all.subrange(0, pairs@.len() as int) =~= all);
            push_footer(&mut lines);
            let ghost expected = preview_spec(*plan, *project, *config, views(preflight@)).2;
            assert(views(lines@) =~= expected);
            (owned("gmux / 执行预览"), owned("确认本地同步操作影响范围"), lines)
        },
        ExecutionPlan::Merge { source_branch, targets, .. } => {
            push_string(&mut lines, text2("项目: ", project.name.as_str()));
            push_string(&mut lines, text2("仓库路径: ", project.path.as_str()));
            push_string(&mut lines, text2("源分支: ", source_branch.as_str()));
            push_string(&mut lines, number_text("目标分支数量: ", targets.len() as u64));
            push_string(&mut lines, String::new());
            push_str(&mut lines, "执行前检查:");
            append_strings(&mut lines, preflight);
            push_string(&mut lines, String::new());
            push_str(&mut lines, "即将执行以下步骤:");
            let ghost head = views(lines@);
            let ghost ts = views(targets@);
            let mut i: usize = 0;
            while i < targets.len()
                invariant
                    i <= targets@.len(),
                    ts == views(targets@),
                    views(lines@) == head + merge_step_lines(source_branch@, ts.subrange(0, i as int)),
                decreases targets@.len() - i,
            {
                push_string(&mut lines, text3("- checkout `", targets[i].as_str(), "`"));
                push_string(
                    &mut lines,
                    text5("- merge `", source_branch.as_str(), "` 到 `", targets[i].as_str(), "`"),
                );
                push_string(&mut lines, text3("- push `", targets[i].as_str(), "`"));
                proof {
                    assert(ts.subrange(0, i + 1).drop_last() =~= ts.subrange(0, i as int));
                }
                i = i + 1;
                assert(views(lines@) =~= head + merge_step_lines(source_branch@, ts.subrange(0, i as int)));
            }
            assert(ts.subrange(0, targets@.len() as int) =~= ts);
            push_footer(&mut lines);
            let ghost expected = preview_spec(*plan, *project, *config, views(preflight@)).2;
            assert(views(lines@) =~= expected);
            (owned("gmux / 执行预览"), owned("确认本地合并操作影响范围"), lines)
        },
        ExecutionPlan::MrSingle { project_id, project_name, source_branch, target_branch } => {
            push_string(&mut lines, text2("GitLab 项目: ", project_name.as_str()));
            push_string(&mut lines, number_text("项目 ID: ", *project_id));
            push_string(&mut lines, text2("源分支: ", source_branch.as_str()));
            push_string(&mut lines, text2("目标分支: ", target_branch.as_str()));
            push_string(&mut lines, String::new());
            push_str(&mut lines, "即将执行以下步骤:");
            push_string(
                &mut lines,
                text5(
                    "- 调用 GitLab API 创建 MR: `",
                    source_branch.as_str(),
                    "` -> `",
                    target_branch.as_str(),
                    "`",
                ),
            );
            push_str(&mut lines, "- 如果创建成功，将继续自动审批并尝试自动合并");
            push_footer(&mut lines);
            let ghost expected = preview_spec(*plan, *project, *config, views(preflight@)).2;
            assert(views(lines@) =~= expected);
            (owned("gmux / 执行预览"), owned("确认单个 GitLab MR 的创建与后续动作"), lines)
        },
        ExecutionPlan::MrBatch { project_id, project_name, mappings } => {
            push_string(&mut lines, text2("GitLab 项目: ", project_name.as_str()));
            push_string(&mut lines, number_text("项目 ID: ", *project_id));
            push_string(&mut lines, number_text("计划创建 MR 数量: ", mappings.len() as u64));
            push_string(&mut lines, String::new());
            push_str(&mut lines, "即将执行以下步骤:");
            let ghost head = views(lines@);
            let ghost ms = pair_views(mappings@);
            let mut i: usize = 0;
            while i < mappings.len()
                invariant
                    i <= mappings@.len(),
                    ms == pair_views(mappings@),
                    views(lines@) == head + mr_step_lines(ms.subrange(0, i as int)),
                decreases mappings@.len() - i,
            {
                push_string(
                    &mut lines,
                    text5("- 创建 MR: `", mappings[i].0.as_str(), "` -> `", mappings[i].1.as_str(), "`"),
                );
                proof {
                    assert(ms.subrange(0, i + 1).drop_last() =~= ms.subrange(0, i as int));
                }
                i = i + 1;
                assert(views(lines@) =~= head + mr_step_lines(ms.subrange(0, i as int)));
            }
            assert(ms.subrange(0, mappings@.len() as int) =~= ms);
            push_str(&mut lines, "- 对创建成功的 MR 继续自动审批并尝试自动合并");
            push_footer(&mut lines);
            let ghost expected = preview_spec(*plan, *project, *config, views(preflight@)).2;
            assert(views(lines@) =~= expected);
            (owned("gmux / 执行预览"), owned("确认批量 GitLab MR 的创建与后续动作"), lines)
        },
    }
}

/// The help lines of the preview of a plan.
pub open spec fn help_spec(plan: ExecutionPlan) -> Seq<Seq<char>> {
    match plan {
        ExecutionPlan::Sync { .. } => seq![
            "同步操作会依次更新环境分支，再同步到对应合并分支并 push。"@,
            "预览中的执行前检查会告诉你工作区是否干净、相关分支是否存在。"@,
            "按 Enter 才会真正开始执行；按 b 返回上一层。"@,
        ],
        ExecutionPlan::Merge { .. } => seq![
            "合并操作会把选定源分支 merge 到一个或多个目标合并分支，并逐个 push。"@,
            "如果目标分支不存在，执行阶段会按当前逻辑自动创建。"@,
            "预览页中的 ahead/behind 信息可以帮助你先判断远端分支状态。"@,
        ],
        ExecutionPlan::MrSingle { .. } => seq![
            "单个 MR 会先创建 Merge Request，再自动尝试审批与合并。"@,
            "这里只有预览，按 Enter 才会真正请求 GitLab API。"@,
            "如果自动审批或自动合并失败，结果页会单独显示失败阶段。"@,
        ],
        ExecutionPlan::MrBatch { .. } => seq![
            "批量 MR 会依次创建多组 MR，再对创建成功的 MR 自动尝试审批与合并。"@,
            "如果其中某组失败，不会阻止其它组继续执行。"@,
            "预览页会先列出这次计划处理的全部映射关系。"@,
        ],
    }
}

/// The help lines of the preview of a plan.
pub fn build_execution_help(plan: &ExecutionPlan) -> (r: Vec<String>)
    ensures
        views(r@) == help_spec(*plan),
{
    let mut r: Vec<String> = Vec::new();
    match plan {
        ExecutionPlan::Sync { .. } => {
            push_str(&mut r, "同步操作会依次更新环境分支，再同步到对应合并分支并 push。");
            push_str(&mut r, "预览中的执行前检查会告诉你工作区是否干净、相关分支是否存在。");
            push_str(&mut r, "按 Enter 才会真正开始执行；按 b 返回上一层。");
        },
        ExecutionPlan::Merge { .. } => {
            push_str(&mut r, "合并操作会把选定源分支 merge 到一个或多个目标合并分支，并逐个 push。");
            push_str(&mut r, "如果目标分支不存在，执行阶段会按当前逻辑自动创建。");
            push_str(&mut r, "预览页中的 ahead/behind 信息可以帮助你先判断远端分支状态。");
        },
        ExecutionPlan::MrSingle { .. } => {
            push_str(&mut r, "单个 MR 会先创建 Merge Request，再自动尝试审批与合并。");
            push_str(&mut r, "这里只有预览，按 Enter 才会真正请求 GitLab API。");
            push_str(&mut r, "如果自动审批或自动合并失败，结果页会单独显示失败阶段。");
        },
        ExecutionPlan::MrBatch { .. } => {
            push_str(&mut r, "批量 MR 会依次创建多组 MR，再对创建成功的 MR 自动尝试审批与合并。");
            push_str(&mut r, "如果其中某组失败，不会阻止其它组继续执行。");
            push_str(&mut r, "预览页会先列出这次计划处理的全部映射关系。");
        },
    }
    assert(views(r@) =~= help_spec(*plan));
    r
}


/// Which pass a run of merge requests is in.
#[derive(Clone, Copy, PartialEq, Eq, Structural)]
pub enum MrPhase {
    /// Creating one merge request per mapping.
    Create,
    /// Approving and merging each one created.
    Finish,
}

/// A GitLab step of a run of merge requests.
pub enum MrStep {
    /// Create a merge request from `source` into `target`.
    Create { source: String, target: String },
    /// Approve and merge the merge request with this IID.
    ApproveAndMerge { iid: u64 },
}

/// The view of a run of merge requests.
pub struct MrRunView {
    pub mappings: Seq<(Seq<char>, Seq<char>)>,
    pub single: bool,
    pub phase: MrPhase,
    pub index: nat,
    pub created: Seq<(u64, Seq<char>, Seq<char>)>,
    pub lines: Seq<(bool, Seq<char>)>,
}

/// The run has nothing left to do.
pub open spec fn mr_finished(v: MrRunView) -> bool {
    v.phase == MrPhase::Finish && v.index >= v.created.len()
}

/// The line of a created merge request: its URL for a single one, its
/// mapping for a batch.
pub open spec fn created_line(v: MrRunView, iid: u64, url: Seq<char>) -> Seq<char> {
    let m = v.mappings[v.index as int];
    if v.single {
        "MR 创建成功: "@ + url + " (IID: "@ + decimal(iid as nat) + ")"@
    } else {
        "MR 创建成功: "@ + m.0 + " -> "@ + m.1 + " (IID: "@ + decimal(iid as nat) + ")"@
    }
}

/// The line of a merge request that could not be created.
pub open spec fn create_failed_line(v: MrRunView, e: Seq<char>) -> Seq<char> {
    let m = v.mappings[v.index as int];
    if v.single {
        "创建 MR 失败: "@ + e
    } else {
        "创建 MR 失败 "@ + m.0 + " -> "@ + m.1 + ": "@ + e
    }
}

/// The line of a merge request approved and merged.
pub open spec fn finished_line(v: MrRunView) -> Seq<char> {
    let c = v.created[v.index as int];
    if v.single {
        "MR 已审批并合并"@
    } else {
        "已审批并合并: "@ + c.1 + " -> "@ + c.2
    }
}

/// The line of a merge request that could not be approved or merged.
pub open spec fn finish_failed_line(v: MrRunView, e: Seq<char>) -> Seq<char> {
    let c = v.created[v.index as int];
    if v.single {
        "MR 审批/合并失败: "@ + e
    } else {
        "审批/合并失败 "@ + c.1 + " -> "@ + c.2 + ": "@ + e
    }
}

/// What a run of merge requests becomes after a creation reply: the new
/// merge request's IID and URL, or the error text.
pub open spec fn mr_create_step(v: MrRunView, reply: Result<(u64, Seq<char>), Seq<char>>) -> MrRunView {
    let m = v.mappings[v.index as int];
    let w = match reply {
        Ok((iid, url)) => MrRunView {
            created: v.created.push((iid, m.0, m.1)),
            lines: v.lines.push((true, created_line(v, iid, url))),
            ..v
        },
        Err(e) => MrRunView { lines: v.lines.push((false, create_failed_line(v, e))), ..v },
    };
    if v.index + 1 >= v.mappings.len() {
        MrRunView { phase: MrPhase::Finish, index: 0, ..w }
    } else {
        MrRunView { index: v.index + 1, ..w }
    }
}

/// What a run of merge requests becomes after an approve-and-merge reply.
pub open spec fn mr_finish_step(v: MrRunView, reply: Result<(), Seq<char>>) -> MrRunView {
    let line = match reply {
        Ok(()) => (true, finished_line(v)),
        Err(e) => (false, finish_failed_line(v, e)),
    };
    MrRunView { lines: v.lines.push(line), index: v.index + 1, ..v }
}

/// A run of merge requests is consistent: while creating, one line per
/// mapping done; while finishing, one creation line per mapping and one more
/// line per created merge request done.
pub open spec fn mr_run_wf(v: MrRunView) -> bool {
    &&& v.phase == MrPhase::Create ==> v.index < v.mappings.len() && v.lines.len() == v.index
        && v.created.len() <= v.index
    &&& v.phase == MrPhase::Finish ==> v.index <= v.created.len() && v.created.len()
        <= v.mappings.len() && (v.lines.len() == v.mappings.len() + v.index || (
    v.mappings.len() == 0 && v.lines.len() == 1))
}

/// Creating merge requests only adds to the ones waiting to be approved and
/// merged: a creation that succeeds appends its IID with its mapping, a
/// failed one leaves them as they were. When the last mapping has been
/// tried, the run turns to approving and merging from the first created one,
/// and is done only if none was created.
pub proof fn law_creation_keeps_created(v: MrRunView, reply: Result<(u64, Seq<char>), Seq<char>>)
    requires
        mr_run_wf(v),
        v.phase == MrPhase::Create,
    ensures
        reply is Err ==> mr_create_step(v, reply).created == v.created,
        reply matches Ok((iid, url)) ==> mr_create_step(v, reply).created == v.created.push(
            (iid, v.mappings[v.index as int].0, v.mappings[v.index as int].1),
        ),
        v.index + 1 == v.mappings.len() ==> mr_create_step(v, reply).phase == MrPhase::Finish
            && mr_create_step(v, reply).index == 0 && (mr_finished(mr_create_step(v, reply))
            <==> mr_create_step(v, reply).created.len() == 0),
{
}

/// Approving and merging leaves the created merge requests as they are and
/// moves on to the next one.
pub proof fn law_finishing_keeps_created(v: MrRunView, reply: Result<(), Seq<char>>)
    requires
        mr_run_wf(v),
        v.phase == MrPhase::Finish,
    ensures
        mr_finish_step(v, reply).created == v.created,
        mr_finish_step(v, reply).index == v.index + 1,
        mr_finish_step(v, reply).phase == MrPhase::Finish,
{
}

/// Creates merge requests for mappings, then approves and merges each one
/// created. The caller performs each step and feeds the outcome back.
pub struct MrRun {
    mappings: Vec<(String, String)>,
    single: bool,
    phase: MrPhase,
    index: usize,
    created: Vec<(u64, String, String)>,
    lines: Vec<(bool, String)>,
}

impl View for MrRun {
    type V = MrRunView;

    closed spec fn view(&self) -> MrRunView {
        MrRunView {
            mappings: pair_views(self.mappings@),
            single: self.single,
            phase: self.phase,
            index: self.index as nat,
            created: self.created@.map_values(|c: (u64, String, String)| (c.0, c.1@, c.2@)),
            lines: self.lines@.map_values(|l: (bool, String)| (l.0, l.1@)),
        }
    }
}

impl MrRun {
    /// The run for one merge request from `source` into `target`.
    pub fn single(source: String, target: String) -> (r: MrRun)
        ensures
            r@.mappings == seq![(source@, target@)],
            r@.single,
            r@.phase == MrPhase::Create,
            r@.index == 0,
            r@.created.len() == 0,
            r@.lines.len() == 0,
            mr_run_wf(r@),
    {
        let mut mappings: Vec<(String, String)> = Vec::new();
        mappings.push((source, target));
        let r = MrRun {
            mappings,
            single: true,
            phase: MrPhase::Create,
            index: 0,
            created: Vec::new(),
            lines: Vec::new(),
        };
        assert(r@.mappings =~= seq![(source@, target@)]);
        assert(r@.created =~= Seq::<(u64, Seq<char>, Seq<char>)>::empty());
        assert(r@.lines =~= Seq::<(bool, Seq<char>)>::empty());
        r
    }

    /// The run for a batch of mappings; without mappings it is done at once
    /// and reports that none was chosen.
    pub fn batch(mappings: Vec<(String, String)>) -> (r: MrRun)
        ensures
            r@.mappings == pair_views(mappings@),
            !r@.single,
            r@.index == 0,
            r@.created.len() == 0,
            mappings@.len() > 0 ==> r@.phase == MrPhase::Create && r@.lines.len() == 0,
            mappings@.len() == 0 ==> r@.phase == MrPhase::Finish && r@.lines == seq![
                (false, "未选择任何分支映射"@),
            ],
            mr_run_wf(r@),
    {
        let empty = mappings.len() == 0;
        let mut lines: Vec<(bool, String)> = Vec::new();
        if empty {
            lines.push((false, owned("未选择任何分支映射")));
        }
        let r = MrRun {
            mappings,
            single: false,
            phase: if empty {
                MrPhase::Finish
            } else {
                MrPhase::Create
            },
            index: 0,
            created: Vec::new(),
            lines,
        };
        assert(r@.created =~= Seq::<(u64, Seq<char>, Seq<char>)>::empty());
        if empty {
            assert(r@.lines =~= seq![(false, "未选择任何分支映射"@)]);
        } else {
            assert(r@.lines =~= Seq::<(bool, Seq<char>)>::empty());
        }
        r
    }

    /// The step the run waits for, or none when it is done.
    pub fn next_step(&self) -> (r: Option<MrStep>)
        requires
            mr_run_wf(self@),
        ensures
            r is None <==> mr_finished(self@),
            r matches Some(MrStep::Create { source, target }) ==> self@.phase == MrPhase::Create
                && (source@, target@) == self@.mappings[self@.index as int],
            r matches Some(MrStep::ApproveAndMerge { iid }) ==> self@.phase == MrPhase::Finish
                && iid == self@.created[self@.index as int].0,
    {
        match self.phase {
            MrPhase::Create => {
                let m = &self.mappings[self.index];
                Some(MrStep::Create { source: m.0.clone(), target: m.1.clone() })
            },
            MrPhase::Finish => {
                if self.index < self.created.len() {
                    Some(MrStep::ApproveAndMerge { iid: self.created[self.index].0 })
                } else {
                    None
                }
            },
        }
    }

    /// Records the outcome of creating the merge request the run waits for:
    /// its IID and URL, or the error text.
    pub fn feed_create(&mut self, reply: Result<(u64, String), String>)
        requires
            mr_run_wf(old(self)@),
            old(self)@.phase == MrPhase::Create,
        ensures
            final(self)@ == mr_create_step(
                old(self)@,
                match reply {
                    Ok((iid, url)) => Ok((iid, url@)),
                    Err(e) => Err(e@),
                },
            ),
            mr_run_wf(final(self)@),
    {
        let ghost v = self@;
        let ghost r = match &reply {
            Ok((iid, url)) => Ok((*iid, url@)),
            Err(e) => Err(e@),
        };
        let source = self.mappings[self.index].0.clone();
        let target = self.mappings[self.index].1.clone();
        match reply {
            Ok((iid, url)) => {
                let mut line = owned("MR 创建成功: ");
                if self.single {
                    line.append(url.as_str());
                } else {
                    line.append(source.as_str());
                    line.append(" -> ");
                    line.append(target.as_str());
                }
                line.append(" (IID: ");
                push_decimal(&mut line, iid);
                line.append(")");
                self.lines.push((true, line));
                self.created.push((iid, source, target));
            },
            Err(e) => {
                let line = if self.single {
                    text2("创建 MR 失败: ", e.as_str())
                } else {
                    let mut l = text5("创建 MR 失败 ", source.as_str(), " -> ", target.as_str(), ": ");
                    l.append(e.as_str());
                    l
                };
                self.lines.push((false, line));
            },
        }
        if self.index >= self.mappings.len() - 1 {
            self.phase = MrPhase::Finish;
            self.index = 0;
        } else {
            self.index = self.index + 1;
        }
        assert(self@.lines =~= mr_create_step(v, r).lines);
        assert(self@.created =~= mr_create_step(v, r).created);
        assert(self@ =~= mr_create_step(v, r));
    }

    /// Records the outcome of approving and merging the merge request the run
    /// waits for.
    pub fn feed_finish(&mut self, reply: Result<(), String>)
        requires
            mr_run_wf(old(self)@),
            old(self)@.phase == MrPhase::Finish,
            !mr_finished(old(self)@),
        ensures
            final(self)@ == mr_finish_step(
                old(self)@,
                match reply {
                    Ok(()) => Ok(()),
                    Err(e) => Err(e@),
                },
            ),
            mr_run_wf(final(self)@),
    {
        let ghost v = self@;
        let ghost r = match &reply {
            Ok(()) => Ok(()),
            Err(e) => Err(e@),
        };
        let source = self.created[self.index].1.clone();
        let target = self.created[self.index].2.clone();
        let line = match reply {
            Ok(()) => {
                if self.single {
                    (true, owned("MR 已审批并合并"))
                } else {
                    let mut l = text3("已审批并合并: ", source.as_str(), " -> ");
                    l.append(target.as_str());
                    (true, l)
                }
            },
            Err(e) => {
                if self.single {
                    (false, text2("MR 审批/合并失败: ", e.as_str()))
                } else {
                    let mut l = text5("审批/合并失败 ", source.as_str(), " -> ", target.as_str(), ": ");
                    l.append(e.as_str());
                    (false, l)
                }
            },
        };
        let n = self.created.len();
        assert(self.index < n);
        self.lines.push(line);
        self.index = self.index + 1;
        assert(self@.lines =~= mr_finish_step(v, r).lines);
        assert(self@ =~= mr_finish_step(v, r));
    }

    /// Whether the run is done.
    pub fn is_finished(&self) -> (r: bool)
        ensures
            r == mr_finished(self@),
    {
        self.phase == MrPhase::Finish && self.index >= self.created.len()
    }

    /// The result lines so far.
    pub fn into_lines(self) -> (r: Vec<(bool, String)>)
        ensures
            r@.map_values(|l: (bool, String)| (l.0, l.1@)) == self@.lines,
    {
        self.lines
    }
}

/// A finished batch reports one line per mapping for its creation, then one
/// line per merge request created, and no more.
pub proof fn law_mr_batch_lines(v: MrRunView)
    requires
        mr_run_wf(v),
        mr_finished(v),
        v.mappings.len() > 0,
    ensures
        v.lines.len() == v.mappings.len() + v.created.len(),
{
}

/// Every reply keeps a run of merge requests consistent and moves it on: the
/// run takes at most two steps per mapping.
pub proof fn law_mr_run_progress(v: MrRunView, create: Result<(u64, Seq<char>), Seq<char>>, finish: Result<(), Seq<char>>)
    requires
        mr_run_wf(v),
        !mr_finished(v),
    ensures
        v.phase == MrPhase::Create ==> mr_run_wf(mr_create_step(v, create)) && mr_create_step(
            v,
            create,
        ).lines.len() == v.lines.len() + 1,
        v.phase == MrPhase::Finish ==> mr_run_wf(mr_finish_step(v, finish)) && mr_finish_step(
            v,
            finish,
        ).index == v.index + 1,
{
}

} // verus!
