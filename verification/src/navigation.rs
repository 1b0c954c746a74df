//! Moving through the workflow: what a user action on the page at the top of
//! the page stack does to the stack, and which outside work (scanning the
//! project root, running a plan, saving a configuration change) it asks for.
//!
//! The caller shows the top page, turns what the user did into a
//! [`PageEvent`], calls [`navigate`], performs the [`Effect`] it returns and,
//! for a save, reports the outcome with [`finish_save`].

use vstd::prelude::*;
use crate::config::{
    change_applied, change_fits, law_change_keeps_envs_and_roots, roots_wf, accept_setting, default_map, merge_branch_name, pair_views, setting_value, sorted_pairs,
    sorted_sources, views, Config, ConfigChange,
};
use crate::menus::{delete_confirm_view, local_operation_view};
use crate::project::Project;
use crate::text::{clone_strings, decimal, owned};
use crate::tui::checklist::{checklist_wf, ChecklistState};
use crate::tui::input::{bytes, InputState};
use crate::tui::key::{KeyCode, KeyEvent};
use crate::workflow::{
    custom_target, custom_target_of, delete_choice, is_operation_page, law_results_return_to_menu, delete_confirm_choice, list_choice,
    list_menu_choice, pop_after_results, strip_operation_pages, sync_pairs, target_choice,
    target_select_choice, BranchMapDraft, DeleteChoice, ExecutionPlan, ListChoice, LocalOp,
    MrMode, Page, TargetChoice,
};

verus! {

/// What the user did on the page at the top of the stack.
pub enum PageEvent {
    /// Chose the row with this index among all the rows of a menu.
    Row(usize),
    /// Chose a local branch.
    Branch(String),
    /// Chose a GitLab project by ID and name.
    GitLabProject(u64, String),
    /// The GitLab projects could not be loaded; the error text.
    LoadFailed(String),
    /// The GitLab server has no project to offer.
    NothingLoaded,
    /// Submitted a text.
    Text(String),
    /// Submitted the ticked items of a checklist, by index.
    Ticked(Vec<usize>),
    /// Confirmed a preview.
    Confirm,
    Back,
    Quit,
}

/// Where the stack goes once a configuration change is saved.
#[derive(Clone, Copy, PartialEq, Eq, Structural)]
pub enum AfterSave {
    /// Close the page.
    Close,
    /// Close the page and the one below it.
    CloseTwo,
    /// Follow the environment branch that moved one place up.
    MoveUp,
    /// Follow the environment branch that moved one place down.
    MoveDown,
}

/// How a failed save is reported.
pub enum SaveFailure {
    /// As the error of the input on the page: `保存失败: ` and the error.
    OnInput,
    /// On a result page: the prefix, `: ` and the error.
    Report(String),
}

/// The outside work an action asks for.
pub enum Effect {
    Nothing,
    /// Leave the program.
    Quit,
    /// Scan the project root for the project list just opened.
    ScanProjects,
    /// Run the plan of the preview at the top and show its results.
    Execute,
    /// See whether `path` is a directory and find its canonical form, then
    /// report with [`root_checked`].
    CheckRoot { index: Option<usize>, path: String },
    /// Make the change, save the configuration, then report with
    /// [`finish_save`].
    Save { change: ConfigChange, then: AfterSave, failure: SaveFailure },
}

// ---- the shape of a step ----

/// Nothing changes.
pub open spec fn stays(old: Seq<Page>, new: Seq<Page>, r: Effect) -> bool {
    new == old && r is Nothing
}

/// The program ends.
pub open spec fn quits(old: Seq<Page>, new: Seq<Page>, r: Effect) -> bool {
    new == old && r is Quit
}

/// The top page is closed.
pub open spec fn closes(old: Seq<Page>, new: Seq<Page>, r: Effect) -> bool {
    old.len() > 0 && new == old.drop_last() && r is Nothing
}

/// The page `p` is opened.
pub open spec fn opens(old: Seq<Page>, new: Seq<Page>, r: Effect, p: Page) -> bool {
    new == old.push(p) && r is Nothing
}

/// A page is opened; which one, the caller states over `new.last()`.
pub open spec fn opened(old: Seq<Page>, new: Seq<Page>, r: Effect) -> bool {
    new.len() == old.len() + 1 && new.drop_last() == old && r is Nothing
}

/// A result page with the one failure line `msg` is opened.
pub open spec fn reported(old: Seq<Page>, new: Seq<Page>, msg: Seq<char>) -> bool {
    &&& new.len() == old.len() + 1
    &&& new.drop_last() == old
    &&& new.last() matches Page::ExecuteResult { lines } && lines@.len() == 1 && !lines@[0].0
        && lines@[0].1@ == msg
}

/// Back closes the page, Quit ends the program, anything else changes nothing.
pub open spec fn leaves_or_stays(old: Seq<Page>, new: Seq<Page>, e: PageEvent, r: Effect) -> bool {
    if e is Back {
        closes(old, new, r)
    } else if e is Quit {
        quits(old, new, r)
    } else {
        stays(old, new, r)
    }
}

/// The input of an input page.
pub open spec fn input_of(p: Page) -> Option<InputState> {
    match p {
        Page::ConfigGitLabHostInput { state } => Some(state),
        Page::ConfigGitLabTokenInput { state } => Some(state),
        Page::ConfigMergeMiddleInput { state } => Some(state),
        Page::ConfigProjectRootInput { state, .. } => Some(state),
        Page::ConfigEnvBranchInput { state, .. } => Some(state),
        Page::ConfigBranchMapSourceInput { state, .. } => Some(state),
        Page::ConfigBranchMapTargetCustomInput { state, .. } => Some(state),
        _ => None,
    }
}

/// An input page with its input replaced by `s`.
pub open spec fn with_input(p: Page, s: InputState) -> Page {
    match p {
        Page::ConfigGitLabHostInput { .. } => Page::ConfigGitLabHostInput { state: s },
        Page::ConfigGitLabTokenInput { .. } => Page::ConfigGitLabTokenInput { state: s },
        Page::ConfigMergeMiddleInput { .. } => Page::ConfigMergeMiddleInput { state: s },
        Page::ConfigProjectRootInput { index, .. } => Page::ConfigProjectRootInput { index, state: s },
        Page::ConfigEnvBranchInput { index, .. } => Page::ConfigEnvBranchInput { index, state: s },
        Page::ConfigBranchMapSourceInput { original_source, .. } => Page::ConfigBranchMapSourceInput {
            original_source,
            state: s,
        },
        Page::ConfigBranchMapTargetCustomInput { draft, .. } => Page::ConfigBranchMapTargetCustomInput {
            draft,
            state: s,
        },
        _ => p,
    }
}

/// The input page at the top now shows the error `msg`; nothing else changes.
pub open spec fn refused(old: Seq<Page>, new: Seq<Page>, msg: Seq<char>) -> bool {
    &&& old.len() > 0
    &&& new.len() == old.len()
    &&& new.drop_last() == old.drop_last()
    &&& input_of(old.last()) matches Some(s) && input_of(new.last()) matches Some(t)
        && t.error matches Some(m) && m@ == msg && t == (InputState { error: t.error, ..s })
        && new.last() == with_input(old.last(), t)
}

/// A fresh input with these texts and starting value, the cursor at its end.
pub open spec fn fresh_input(
    s: InputState,
    title: Seq<char>,
    subtitle: Seq<char>,
    label: Seq<char>,
    placeholder: Seq<char>,
    value: Seq<char>,
) -> bool {
    &&& s.title@ == title
    &&& s.subtitle@ == subtitle
    &&& s.label@ == label
    &&& s.placeholder@ == placeholder
    &&& s.value@ == value
    &&& s.error is None
    &&& s.cursor_pos == bytes(value).len()
}

// ---- stack edits ----

fn clone_opt(o: &Option<String>) -> (r: Option<String>)
    ensures
        r == *o,
{
    match o {
        Some(s) => Some(s.clone()),
        None => None,
    }
}

fn clone_draft(d: &BranchMapDraft) -> (r: BranchMapDraft)
    ensures
        r == *d,
{
    BranchMapDraft { original_source: clone_opt(&d.original_source), source_branch: d.source_branch.clone() }
}

fn set_input_error(page: Page, msg: String) -> (r: Page)
    requires
        input_of(page) is Some,
    ensures
        input_of(r) matches Some(t) && t == (InputState { error: Some(msg), ..input_of(page)->0 })
            && r == with_input(page, t),
{
    match page {
        Page::ConfigGitLabHostInput { mut state } => {
            state.error = Some(msg);
            Page::ConfigGitLabHostInput { state }
        },
        Page::ConfigGitLabTokenInput { mut state } => {
            state.error = Some(msg);
            Page::ConfigGitLabTokenInput { state }
        },
        Page::ConfigMergeMiddleInput { mut state } => {
            state.error = Some(msg);
            Page::ConfigMergeMiddleInput { state }
        },
        Page::ConfigProjectRootInput { index, mut state } => {
            state.error = Some(msg);
            Page::ConfigProjectRootInput { index, state }
        },
        Page::ConfigEnvBranchInput { index, mut state } => {
            state.error = Some(msg);
            Page::ConfigEnvBranchInput { index, state }
        },
        Page::ConfigBranchMapSourceInput { original_source, mut state } => {
            state.error = Some(msg);
            Page::ConfigBranchMapSourceInput { original_source, state }
        },
        Page::ConfigBranchMapTargetCustomInput { draft, mut state } => {
            state.error = Some(msg);
            Page::ConfigBranchMapTargetCustomInput { draft, state }
        },
        other => other,
    }
}

/// Shows `msg` as the error of the input page at the top.
fn refuse(stack: &mut Vec<Page>, msg: String)
    requires
        old(stack)@.len() > 0,
        input_of(old(stack)@.last()) is Some,
    ensures
        refused(old(stack)@, final(stack)@, msg@),
{
    let ghost old_stack = stack@;
    let page = stack.pop().unwrap();
    assert(page == old_stack.last());
    let ghost m = msg;
    let page = set_input_error(page, msg);
    stack.push(page);
    assert(stack@.drop_last() =~= old_stack.drop_last());
    assert(stack@.last() == page);
    assert(input_of(page)->0.error == Some(m));
}

/// Opens a result page with the one failure line `msg`.
fn report(stack: &mut Vec<Page>, msg: String)
    ensures
        reported(old(stack)@, final(stack)@, msg@),
{
    let ghost m = msg;
    let mut lines: Vec<(bool, String)> = Vec::new();
    lines.push((false, msg));
    assert(lines@[0] == (false, m));
    stack.push(Page::ExecuteResult { lines });
    assert(stack@.drop_last() =~= old(stack)@);
}

fn joined(a: &str, b: &str) -> (r: String)
    ensures
        r@ == a@ + b@,
{
    let mut r = owned(a);
    r.append(b);
    r
}

// ---- saving ----

/// The stack is as a save outcome needs it: pages to close, an environment
/// branch to follow, an input to show the error.
pub open spec fn save_ready(old: Seq<Page>, then: AfterSave, failure: SaveFailure, ok: bool) -> bool {
    if ok {
        match then {
            AfterSave::Close => old.len() >= 1,
            AfterSave::CloseTwo => old.len() >= 2,
            AfterSave::MoveUp => old.len() > 0 && (old.last() matches Page::ConfigEnvBranchActions {
                index,
            } && index > 0),
            AfterSave::MoveDown => old.len() > 0 && (old.last() matches Page::ConfigEnvBranchActions {
                index,
            } && index < usize::MAX),
        }
    } else {
        match failure {
            SaveFailure::OnInput => old.len() > 0 && input_of(old.last()) is Some,
            SaveFailure::Report(_) => true,
        }
    }
}

/// The stack after a save succeeded, or failed with the error text.
pub open spec fn save_finished(
    old: Seq<Page>,
    new: Seq<Page>,
    then: AfterSave,
    failure: SaveFailure,
    outcome: Result<(), Seq<char>>,
) -> bool {
    match outcome {
        Ok(()) => match then {
            AfterSave::Close => new == old.drop_last(),
            AfterSave::CloseTwo => new == old.subrange(0, old.len() - 2),
            AfterSave::MoveUp => old.last() matches Page::ConfigEnvBranchActions { index } && new
                == old.drop_last().push(Page::ConfigEnvBranchActions { index: (index - 1) as usize }),
            AfterSave::MoveDown => old.last() matches Page::ConfigEnvBranchActions { index } && new
                == old.drop_last().push(Page::ConfigEnvBranchActions { index: (index + 1) as usize }),
        },
        Err(e) => match failure {
            SaveFailure::OnInput => refused(old, new, "保存失败: "@ + e),
            SaveFailure::Report(prefix) => reported(old, new, prefix@ + ": "@ + e),
        },
    }
}

/// Moves the stack on after a save: on success as `then` says, on failure by
/// showing the error as `failure` says. A stack that does not suit the
/// outcome stays as it is.
pub fn finish_save(stack: &mut Vec<Page>, then: AfterSave, failure: SaveFailure, outcome: Result<(), String>)
    ensures
        save_ready(old(stack)@, then, failure, outcome is Ok) ==> save_finished(
            old(stack)@,
            final(stack)@,
            then,
            failure,
            match outcome {
                Ok(()) => Ok(()),
                Err(e) => Err(e@),
            },
        ),
        !save_ready(old(stack)@, then, failure, outcome is Ok) ==> final(stack)@ == old(stack)@,
{
    let n = stack.len();
    match outcome {
        Ok(()) => match then {
            AfterSave::Close => {
                if n >= 1 {
                    stack.pop();
                }
            },
            AfterSave::CloseTwo => {
                if n >= 2 {
                    stack.pop();
                    stack.pop();
                    assert(stack@ =~= old(stack)@.subrange(0, n - 2));
                }
            },
            AfterSave::MoveUp | AfterSave::MoveDown => {
                if n == 0 {
                    return;
                }
                let index = match &stack[n - 1] {
                    Page::ConfigEnvBranchActions { index } => *index,
                    _ => return,
                };
                if then == AfterSave::MoveUp {
                    if index == 0 {
                        return;
                    }
                    stack.pop();
                    stack.push(Page::ConfigEnvBranchActions { index: index - 1 });
                } else {
                    if index == usize::MAX {
                        return;
                    }
                    stack.pop();
                    stack.push(Page::ConfigEnvBranchActions { index: index + 1 });
                }
            },
        },
        Err(e) => match failure {
            SaveFailure::OnInput => {
                if n == 0 {
                    return;
                }
                let is_input = match &stack[n - 1] {
                    Page::ConfigGitLabHostInput { .. } | Page::ConfigGitLabTokenInput { .. }
                    | Page::ConfigMergeMiddleInput { .. } | Page::ConfigEnvBranchInput { .. }
                    | Page::ConfigProjectRootInput { .. }
                    | Page::ConfigBranchMapSourceInput { .. } | Page::ConfigBranchMapTargetCustomInput {
                        ..
                    } => true,
                    _ => false,
                };
                if is_input {
                    refuse(stack, joined("保存失败: ", e.as_str()));
                }
            },
            SaveFailure::Report(prefix) => {
                let mut msg = prefix;
                msg.append(": ");
                msg.append(e.as_str());
                report(stack, msg);
            },
        },
    }
}

// ---- the menus ----

/// The main menu: projects (scanned first), merge requests, settings, quit.
pub open spec fn main_menu_step(old: Seq<Page>, new: Seq<Page>, e: PageEvent, r: Effect) -> bool {
    match e {
        PageEvent::Row(i) => if i == 0 {
            new == old.push(Page::ProjectSelect) && r is ScanProjects
        } else if i == 1 {
            opens(old, new, r, Page::MrMenu)
        } else if i == 2 {
            opens(old, new, r, Page::ConfigMenu)
        } else if i == 3 {
            quits(old, new, r)
        } else {
            stays(old, new, r)
        },
        PageEvent::Back | PageEvent::Quit => quits(old, new, r),
        _ => stays(old, new, r),
    }
}

fn main_menu(stack: &mut Vec<Page>, e: PageEvent) -> (r: Effect)
    ensures
        main_menu_step(old(stack)@, final(stack)@, e, r),
{
    match e {
        PageEvent::Row(i) => {
            if i == 0 {
                stack.push(Page::ProjectSelect);
                Effect::ScanProjects
            } else if i == 1 {
                stack.push(Page::MrMenu);
                Effect::Nothing
            } else if i == 2 {
                stack.push(Page::ConfigMenu);
                Effect::Nothing
            } else if i == 3 {
                Effect::Quit
            } else {
                Effect::Nothing
            }
        },
        PageEvent::Back | PageEvent::Quit => Effect::Quit,
        _ => Effect::Nothing,
    }
}

/// The texts of the settings inputs: subtitle, label and placeholder.
pub open spec fn host_input(s: InputState, config: Config) -> bool {
    fresh_input(s, "gmux / 配置管理"@, "修改 GitLab 地址"@, "GitLab Host"@, "例如 gitlab.example.com:8099"@, config.gitlab.host@)
}

pub open spec fn token_input(s: InputState, config: Config) -> bool {
    fresh_input(s, "gmux / 配置管理"@, "修改 GitLab Token"@, "GitLab Token"@, "例如 glpat-xxxxxxxxxxxx"@, config.gitlab.token@)
}

pub open spec fn middle_input(s: InputState, config: Config) -> bool {
    fresh_input(
        s,
        "gmux / 配置管理"@,
        "修改 merge_branch_middle"@,
        "合并分支中间名"@,
        "例如 henry 或 PROJECT_NAME"@,
        config.project.merge_branch_middle@,
    )
}

pub open spec fn env_input(s: InputState, value: Seq<char>) -> bool {
    fresh_input(s, "gmux / 配置管理"@, "逐条编辑环境分支"@, "环境分支名称"@, "例如 dev / test / uat / stage / prod"@, value)
}

pub open spec fn source_input(s: InputState, value: Seq<char>) -> bool {
    fresh_input(s, "gmux / 配置管理"@, "编辑 branch_map / 第一步"@, "源分支"@, "例如 pre_prod 或 uat_henry_meger"@, value)
}

/// The settings menu: project roots, environment branches, branch map,
/// middle part, host, token, the default branch map preview, back.
pub open spec fn config_menu_step(old: Seq<Page>, new: Seq<Page>, config: Config, e: PageEvent, r: Effect) -> bool {
    match e {
        PageEvent::Row(i) => if i == 0 {
            opens(old, new, r, Page::ConfigProjectRootsMenu)
        } else if i == 1 {
            opens(old, new, r, Page::ConfigEnvBranchesMenu)
        } else if i == 2 {
            opens(old, new, r, Page::ConfigBranchMapMenu)
        } else if i == 3 {
            opened(old, new, r) && (new.last() matches Page::ConfigMergeMiddleInput { state } && middle_input(state, config))
        } else if i == 4 {
            opened(old, new, r) && (new.last() matches Page::ConfigGitLabHostInput { state } && host_input(state, config))
        } else if i == 5 {
            opened(old, new, r) && (new.last() matches Page::ConfigGitLabTokenInput { state } && token_input(state, config))
        } else if i == 6 {
            opened(old, new, r) && (new.last() matches Page::ConfigBranchMapResetPreview { mappings }
                && pair_views(mappings@) == sorted_pairs(
                default_map(views(config.project.env_branches@), config.project.merge_branch_middle@),
            ))
        } else if i == 7 {
            closes(old, new, r)
        } else {
            stays(old, new, r)
        },
        _ => leaves_or_stays(old, new, e, r),
    }
}

fn config_menu(stack: &mut Vec<Page>, config: &Config, e: PageEvent) -> (r: Effect)
    requires
        old(stack)@.len() > 0,
    ensures
        config_menu_step(old(stack)@, final(stack)@, *config, e, r),
{
    match e {
        PageEvent::Row(i) => {
            if i == 0 {
                stack.push(Page::ConfigProjectRootsMenu);
            } else if i == 1 {
                stack.push(Page::ConfigEnvBranchesMenu);
            } else if i == 2 {
                stack.push(Page::ConfigBranchMapMenu);
            } else if i == 3 {
                let state = InputState::prefilled(
                    "gmux / 配置管理",
                    "修改 merge_branch_middle",
                    "合并分支中间名",
                    "例如 henry 或 PROJECT_NAME",
                    config.project.merge_branch_middle.clone(),
                );
                stack.push(Page::ConfigMergeMiddleInput { state });
            } else if i == 4 {
                let state = InputState::prefilled(
                    "gmux / 配置管理",
                    "修改 GitLab 地址",
                    "GitLab Host",
                    "例如 gitlab.example.com:8099",
                    config.gitlab.host.clone(),
                );
                stack.push(Page::ConfigGitLabHostInput { state });
            } else if i == 5 {
                let state = InputState::prefilled(
                    "gmux / 配置管理",
                    "修改 GitLab Token",
                    "GitLab Token",
                    "例如 glpat-xxxxxxxxxxxx",
                    config.gitlab.token.clone(),
                );
                stack.push(Page::ConfigGitLabTokenInput { state });
            } else if i == 6 {
                let defaults = Config::generate_default_branch_map(
                    config.project.env_branches.as_slice(),
                    config.project.merge_branch_middle.as_str(),
                );
                let mappings = defaults.sorted_entries();
                stack.push(Page::ConfigBranchMapResetPreview { mappings });
            } else if i == 7 {
                stack.pop();
            }
            proof {
                if i >= 3 && i <= 6 {
                    assert(stack@.drop_last() =~= old(stack)@);
                }
            }
            Effect::Nothing
        },
        PageEvent::Back => {
            stack.pop();
            Effect::Nothing
        },
        PageEvent::Quit => Effect::Quit,
        _ => Effect::Nothing,
    }
}

// ---- project roots ----

/// The texts of the project root input.
pub open spec fn root_input(s: InputState, value: Seq<char>) -> bool {
    fresh_input(s, "gmux / 配置管理"@, "新增或编辑一个项目根目录"@, "项目根目录"@, "例如 /Users/you/workspaces"@, value)
}

fn root_input_state(value: String) -> (r: InputState)
    ensures
        root_input(r, value@),
{
    InputState::prefilled(
        "gmux / 配置管理",
        "新增或编辑一个项目根目录",
        "项目根目录",
        "例如 /Users/you/workspaces",
        value,
    )
}

/// The project root list: add, pick one, back.
pub open spec fn roots_menu_step(old: Seq<Page>, new: Seq<Page>, config: Config, e: PageEvent, r: Effect) -> bool {
    match e {
        PageEvent::Row(i) => match list_choice(i, config.project.root_dirs@.len() as usize) {
            ListChoice::Add => opened(old, new, r) && (new.last() matches Page::ConfigProjectRootInput { index, state }
                && index is None && root_input(state, seq![])),
            ListChoice::Select(k) => opens(old, new, r, Page::ConfigProjectRootActions { index: k }),
            ListChoice::Back => closes(old, new, r),
            ListChoice::Nothing => stays(old, new, r),
        },
        _ => leaves_or_stays(old, new, e, r),
    }
}

fn roots_menu(stack: &mut Vec<Page>, config: &Config, e: PageEvent) -> (r: Effect)
    requires
        old(stack)@.len() > 0,
    ensures
        roots_menu_step(old(stack)@, final(stack)@, *config, e, r),
{
    match e {
        PageEvent::Row(i) => {
            match list_menu_choice(i, config.project.root_dirs.len()) {
                ListChoice::Add => {
                    let state = root_input_state(String::new());
                    stack.push(Page::ConfigProjectRootInput { index: None, state });
                    assert(stack@.drop_last() =~= old(stack)@);
                },
                ListChoice::Select(k) => stack.push(Page::ConfigProjectRootActions { index: k }),
                ListChoice::Back => {
                    stack.pop();
                },
                ListChoice::Nothing => {},
            }
            Effect::Nothing
        },
        PageEvent::Back => {
            stack.pop();
            Effect::Nothing
        },
        PageEvent::Quit => Effect::Quit,
        _ => Effect::Nothing,
    }
}

/// The actions on project root `index`: edit; delete, offered only while
/// another root remains; any other row goes back.
pub open spec fn root_actions_step(
    old: Seq<Page>,
    new: Seq<Page>,
    config: Config,
    index: usize,
    e: PageEvent,
    r: Effect,
) -> bool {
    let roots = config.project.root_dirs@;
    match e {
        PageEvent::Row(i) => if i == 0 {
            opened(old, new, r) && (new.last() matches Page::ConfigProjectRootInput { index: j, state } && j
                == Some(index) && root_input(state, roots[index as int]@))
        } else if i == 1 && roots.len() > 1 {
            new == old && (r matches Effect::Save {
                change: ConfigChange::DeleteRoot(j),
                then,
                failure: SaveFailure::Report(p),
            } && j == index && then == AfterSave::Close && p@ == "删除项目根目录失败"@)
        } else {
            closes(old, new, r)
        },
        _ => leaves_or_stays(old, new, e, r),
    }
}

fn root_actions(stack: &mut Vec<Page>, config: &Config, index: usize, e: PageEvent) -> (r: Effect)
    requires
        old(stack)@.len() > 0,
        index < config.project.root_dirs@.len(),
    ensures
        root_actions_step(old(stack)@, final(stack)@, *config, index, e, r),
{
    match e {
        PageEvent::Row(i) => {
            if i == 0 {
                let state = root_input_state(config.project.root_dirs[index].clone());
                stack.push(Page::ConfigProjectRootInput { index: Some(index), state });
                assert(stack@.drop_last() =~= old(stack)@);
                Effect::Nothing
            } else if i == 1 && config.project.root_dirs.len() > 1 {
                Effect::Save {
                    change: ConfigChange::DeleteRoot(index),
                    then: AfterSave::Close,
                    failure: SaveFailure::Report(owned("删除项目根目录失败")),
                }
            } else {
                stack.pop();
                Effect::Nothing
            }
        },
        PageEvent::Back => {
            stack.pop();
            Effect::Nothing
        },
        PageEvent::Quit => Effect::Quit,
        _ => Effect::Nothing,
    }
}

/// The project root input: a blank text shows `项目根目录不能为空`; another
/// asks to check the trimmed path before saving it.
pub open spec fn root_input_step(old: Seq<Page>, new: Seq<Page>, index: Option<usize>, e: PageEvent, r: Effect) -> bool {
    setting_step(
        old,
        new,
        e,
        r,
        "项目根目录不能为空"@,
        |x: Seq<char>, r: Effect| r matches Effect::CheckRoot { index: j, path } && j == index && path@ == x,
    )
}

fn root_input_page(stack: &mut Vec<Page>, index: Option<usize>, e: PageEvent) -> (r: Effect)
    requires
        old(stack)@.len() > 0,
        input_of(old(stack)@.last()) is Some,
    ensures
        root_input_step(old(stack)@, final(stack)@, index, e, r),
{
    match setting(stack, e, "项目根目录不能为空") {
        Ok(x) => Effect::CheckRoot { index, path: x },
        Err(eff) => eff,
    }
}

/// The outcome of checking a root typed in: not a directory, or without a
/// canonical form, the input shows why; otherwise the canonical path is
/// saved at `index` (added when none), then the input closes. A stack whose
/// top is not an input stays as it is.
pub open spec fn root_check_step(
    old: Seq<Page>,
    new: Seq<Page>,
    index: Option<usize>,
    path: Seq<char>,
    is_dir: bool,
    canonical: Option<Seq<char>>,
    r: Effect,
) -> bool {
    if old.len() == 0 || input_of(old.last()) is None {
        stays(old, new, r)
    } else if !is_dir {
        r is Nothing && refused(old, new, "项目根目录不存在: "@ + path)
    } else {
        match canonical {
            None => r is Nothing && refused(old, new, "规范化项目根目录失败: "@ + path),
            Some(c) => new == old && (r matches Effect::Save {
                change: ConfigChange::SaveRoot(j, root),
                then,
                failure,
            } && j == index && root@ == c && then == AfterSave::Close && failure is OnInput),
        }
    }
}

/// Takes the outcome of checking a root typed in: whether `path` is a
/// directory and, when found, its canonical form.
pub fn root_checked(
    stack: &mut Vec<Page>,
    index: Option<usize>,
    path: &str,
    is_dir: bool,
    canonical: Option<String>,
) -> (r: Effect)
    ensures
        root_check_step(
            old(stack)@,
            final(stack)@,
            index,
            path@,
            is_dir,
            match canonical {
                Some(c) => Some(c@),
                None => None,
            },
            r,
        ),
{
    let n = stack.len();
    if n == 0 {
        return Effect::Nothing;
    }
    let is_input = match &stack[n - 1] {
        Page::ConfigGitLabHostInput { .. } | Page::ConfigGitLabTokenInput { .. }
        | Page::ConfigMergeMiddleInput { .. } | Page::ConfigEnvBranchInput { .. }
        | Page::ConfigProjectRootInput { .. } | Page::ConfigBranchMapSourceInput { .. }
        | Page::ConfigBranchMapTargetCustomInput { .. } => true,
        _ => false,
    };
    if !is_input {
        return Effect::Nothing;
    }
    if !is_dir {
        refuse(stack, joined("项目根目录不存在: ", path));
        return Effect::Nothing;
    }
    match canonical {
        None => {
            refuse(stack, joined("规范化项目根目录失败: ", path));
            Effect::Nothing
        },
        Some(c) => Effect::Save {
            change: ConfigChange::SaveRoot(index, c),
            then: AfterSave::Close,
            failure: SaveFailure::OnInput,
        },
    }
}

/// A settings input: a blank text shows `empty_error`; another asks to save
/// `change`, which the caller states over the trimmed text.
pub open spec fn setting_step(
    old: Seq<Page>,
    new: Seq<Page>,
    e: PageEvent,
    r: Effect,
    empty_error: Seq<char>,
    saved: spec_fn(Seq<char>, Effect) -> bool,
) -> bool {
    match e {
        PageEvent::Text(v) => match setting_value(v@) {
            None => r is Nothing && refused(old, new, empty_error),
            Some(x) => new == old && saved(x, r),
        },
        _ => leaves_or_stays(old, new, e, r),
    }
}

/// Saving the GitLab host, then closing the input.
pub open spec fn saves_host(x: Seq<char>, r: Effect) -> bool {
    r matches Effect::Save { change: ConfigChange::SetHost(h), then, failure } && h@ == x && then
        == AfterSave::Close && failure is OnInput
}

/// Saving the GitLab token, then closing the input.
pub open spec fn saves_token(x: Seq<char>, r: Effect) -> bool {
    r matches Effect::Save { change: ConfigChange::SetToken(t), then, failure } && t@ == x && then
        == AfterSave::Close && failure is OnInput
}

/// Saving the middle part, then closing the input.
pub open spec fn saves_middle(x: Seq<char>, r: Effect) -> bool {
    r matches Effect::Save { change: ConfigChange::SetMiddle(m), then, failure } && m@ == x && then
        == AfterSave::Close && failure is OnInput
}

/// Adding or renaming the environment branch, then closing the input.
pub open spec fn saves_env_branch(index: Option<usize>, x: Seq<char>, r: Effect) -> bool {
    r matches Effect::Save { change, then, failure } && then == AfterSave::Close && failure is OnInput
        && match index {
        Some(i) => change matches ConfigChange::RenameEnvBranch(j, b) && j == i && b@ == x,
        None => change matches ConfigChange::AddEnvBranch(b) && b@ == x,
    }
}

fn setting(stack: &mut Vec<Page>, e: PageEvent, empty_error: &str) -> (r: Result<String, Effect>)
    requires
        old(stack)@.len() > 0,
        input_of(old(stack)@.last()) is Some,
    ensures
        match r {
            Ok(x) => final(stack)@ == old(stack)@ && (e matches PageEvent::Text(v) && setting_value(
                v@,
            ) == Some(x@)),
            Err(eff) => match e {
                PageEvent::Text(v) => setting_value(v@) is None && eff is Nothing && refused(
                    old(stack)@,
                    final(stack)@,
                    empty_error@,
                ),
                _ => leaves_or_stays(old(stack)@, final(stack)@, e, eff),
            },
        },
{
    match e {
        PageEvent::Text(v) => match accept_setting(v.as_str(), empty_error) {
            Ok(x) => Ok(x),
            Err(msg) => {
                refuse(stack, msg);
                Err(Effect::Nothing)
            },
        },
        PageEvent::Back => {
            stack.pop();
            Err(Effect::Nothing)
        },
        PageEvent::Quit => Err(Effect::Quit),
        _ => Err(Effect::Nothing),
    }
}

fn host_page(stack: &mut Vec<Page>, e: PageEvent) -> (r: Effect)
    requires
        old(stack)@.len() > 0,
        input_of(old(stack)@.last()) is Some,
    ensures
        setting_step(old(stack)@, final(stack)@, e, r, "GitLab 地址不能为空"@, |x: Seq<char>, r: Effect| saves_host(x, r)),
{
    match setting(stack, e, "GitLab 地址不能为空") {
        Ok(x) => Effect::Save { change: ConfigChange::SetHost(x), then: AfterSave::Close, failure: SaveFailure::OnInput },
        Err(eff) => eff,
    }
}

fn token_page(stack: &mut Vec<Page>, e: PageEvent) -> (r: Effect)
    requires
        old(stack)@.len() > 0,
        input_of(old(stack)@.last()) is Some,
    ensures
        setting_step(old(stack)@, final(stack)@, e, r, "GitLab Token 不能为空"@, |x: Seq<char>, r: Effect| saves_token(x, r)),
{
    match setting(stack, e, "GitLab Token 不能为空") {
        Ok(x) => Effect::Save { change: ConfigChange::SetToken(x), then: AfterSave::Close, failure: SaveFailure::OnInput },
        Err(eff) => eff,
    }
}

fn middle_page(stack: &mut Vec<Page>, e: PageEvent) -> (r: Effect)
    requires
        old(stack)@.len() > 0,
        input_of(old(stack)@.last()) is Some,
    ensures
        setting_step(old(stack)@, final(stack)@, e, r, "输入不能为空"@, |x: Seq<char>, r: Effect| saves_middle(x, r)),
{
    match setting(stack, e, "输入不能为空") {
        Ok(x) => Effect::Save { change: ConfigChange::SetMiddle(x), then: AfterSave::Close, failure: SaveFailure::OnInput },
        Err(eff) => eff,
    }
}

fn env_input_page(stack: &mut Vec<Page>, index: Option<usize>, e: PageEvent) -> (r: Effect)
    requires
        old(stack)@.len() > 0,
        input_of(old(stack)@.last()) is Some,
    ensures
        setting_step(old(stack)@, final(stack)@, e, r, "环境分支不能为空"@, |x: Seq<char>, r: Effect| saves_env_branch(index, x, r)),
{
    match setting(stack, e, "环境分支不能为空") {
        Ok(x) => {
            let change = match index {
                Some(i) => ConfigChange::RenameEnvBranch(i, x),
                None => ConfigChange::AddEnvBranch(x),
            };
            Effect::Save { change, then: AfterSave::Close, failure: SaveFailure::OnInput }
        },
        Err(eff) => eff,
    }
}

/// The environment branch list: add, pick one, back.
pub open spec fn env_menu_step(old: Seq<Page>, new: Seq<Page>, config: Config, e: PageEvent, r: Effect) -> bool {
    match e {
        PageEvent::Row(i) => match list_choice(i, config.project.env_branches@.len() as usize) {
            ListChoice::Add => opened(old, new, r) && (new.last() matches Page::ConfigEnvBranchInput { index, state }
                && index is None && env_input(state, seq![])),
            ListChoice::Select(k) => opens(old, new, r, Page::ConfigEnvBranchActions { index: k }),
            ListChoice::Back => closes(old, new, r),
            ListChoice::Nothing => stays(old, new, r),
        },
        _ => leaves_or_stays(old, new, e, r),
    }
}

fn env_menu(stack: &mut Vec<Page>, config: &Config, e: PageEvent) -> (r: Effect)
    requires
        old(stack)@.len() > 0,
    ensures
        env_menu_step(old(stack)@, final(stack)@, *config, e, r),
{
    match e {
        PageEvent::Row(i) => {
            match list_menu_choice(i, config.project.env_branches.len()) {
                ListChoice::Add => {
                    let state = InputState::prefilled(
                        "gmux / 配置管理",
                        "逐条编辑环境分支",
                        "环境分支名称",
                        "例如 dev / test / uat / stage / prod",
                        String::new(),
                    );
                    stack.push(Page::ConfigEnvBranchInput { index: None, state });
                    assert(stack@.drop_last() =~= old(stack)@);
                },
                ListChoice::Select(k) => stack.push(Page::ConfigEnvBranchActions { index: k }),
                ListChoice::Back => {
                    stack.pop();
                },
                ListChoice::Nothing => {},
            }
            Effect::Nothing
        },
        PageEvent::Back => {
            stack.pop();
            Effect::Nothing
        },
        PageEvent::Quit => Effect::Quit,
        _ => Effect::Nothing,
    }
}

/// Saving a swap of two environment branches, then following the moved one.
pub open spec fn saves_swap(a: usize, b: usize, then: AfterSave, r: Effect) -> bool {
    r matches Effect::Save { change: ConfigChange::SwapEnvBranches(x, y), then: t, failure: SaveFailure::Report(p) }
        && x == a && y == b && t == then && p@ == "调整环境分支顺序失败"@
}

/// The actions on environment branch `index`: rename, move up, move down,
/// delete (asking first, and refused for the last branch), back.
pub open spec fn env_actions_step(
    old: Seq<Page>,
    new: Seq<Page>,
    config: Config,
    index: usize,
    e: PageEvent,
    r: Effect,
) -> bool {
    let envs = config.project.env_branches@;
    match e {
        PageEvent::Row(i) => if i == 0 {
            opened(old, new, r) && (new.last() matches Page::ConfigEnvBranchInput { index: j, state } && j
                == Some(index) && env_input(state, envs[index as int]@))
        } else if i == 1 {
            if index > 0 {
                new == old && saves_swap(index, (index - 1) as usize, AfterSave::MoveUp, r)
            } else {
                stays(old, new, r)
            }
        } else if i == 2 {
            if index + 1 < envs.len() {
                new == old && saves_swap(index, (index + 1) as usize, AfterSave::MoveDown, r)
            } else {
                stays(old, new, r)
            }
        } else if i == 3 {
            if envs.len() <= 1 {
                r is Nothing && reported(old, new, "至少需要保留一个环境分支"@)
            } else {
                opened(old, new, r) && (new.last() matches Page::ConfigEnvBranchDeleteConfirm {
                    index: j,
                    branch,
                    linked_mappings,
                } && j == index && branch == envs[index as int] && views(linked_mappings@)
                    == sorted_sources(config.branch_map@, branch@))
            }
        } else if i == 4 {
            closes(old, new, r)
        } else {
            stays(old, new, r)
        },
        _ => leaves_or_stays(old, new, e, r),
    }
}

fn env_actions(stack: &mut Vec<Page>, config: &Config, index: usize, e: PageEvent) -> (r: Effect)
    requires
        old(stack)@.len() > 0,
        index < config.project.env_branches@.len(),
    ensures
        env_actions_step(old(stack)@, final(stack)@, *config, index, e, r),
{
    let n = config.project.env_branches.len();
    match e {
        PageEvent::Row(i) => {
            if i == 0 {
                let state = InputState::prefilled(
                    "gmux / 配置管理",
                    "逐条编辑环境分支",
                    "环境分支名称",
                    "例如 dev / test / uat / stage / prod",
                    config.project.env_branches[index].clone(),
                );
                stack.push(Page::ConfigEnvBranchInput { index: Some(index), state });
                assert(stack@.drop_last() =~= old(stack)@);
                Effect::Nothing
            } else if i == 1 {
                if index > 0 {
                    Effect::Save {
                        change: ConfigChange::SwapEnvBranches(index, index - 1),
                        then: AfterSave::MoveUp,
                        failure: SaveFailure::Report(owned("调整环境分支顺序失败")),
                    }
                } else {
                    Effect::Nothing
                }
            } else if i == 2 {
                if index + 1 < n {
                    Effect::Save {
                        change: ConfigChange::SwapEnvBranches(index, index + 1),
                        then: AfterSave::MoveDown,
                        failure: SaveFailure::Report(owned("调整环境分支顺序失败")),
                    }
                } else {
                    Effect::Nothing
                }
            } else if i == 3 {
                if n <= 1 {
                    report(stack, owned("至少需要保留一个环境分支"));
                } else {
                    let branch = config.project.env_branches[index].clone();
                    let linked_mappings = config.branch_map.sources_targeting(branch.as_str());
                    stack.push(Page::ConfigEnvBranchDeleteConfirm { index, branch, linked_mappings });
                    assert(stack@.drop_last() =~= old(stack)@);
                }
                Effect::Nothing
            } else if i == 4 {
                stack.pop();
                Effect::Nothing
            } else {
                Effect::Nothing
            }
        },
        PageEvent::Back => {
            stack.pop();
            Effect::Nothing
        },
        PageEvent::Quit => Effect::Quit,
        _ => Effect::Nothing,
    }
}

/// Deleting environment branch `index`: without linked mappings delete or
/// cancel; with them delete together with them, delete only the branch, or
/// cancel. A deletion closes this page and the actions below it.
pub open spec fn delete_confirm_step(
    old: Seq<Page>,
    new: Seq<Page>,
    index: usize,
    linked: Seq<String>,
    e: PageEvent,
    r: Effect,
) -> bool {
    match e {
        PageEvent::Row(i) => match delete_choice(linked.len() > 0, i) {
            DeleteChoice::DeleteOnly => new == old && (r matches Effect::Save {
                change: ConfigChange::DeleteEnvBranch(j, l),
                then,
                failure: SaveFailure::Report(p),
            } && j == index && l@.len() == 0 && then == AfterSave::CloseTwo && p@ == "删除环境分支失败"@),
            DeleteChoice::DeleteWithMappings => new == old && (r matches Effect::Save {
                change: ConfigChange::DeleteEnvBranch(j, l),
                then,
                failure: SaveFailure::Report(p),
            } && j == index && l@ == linked && then == AfterSave::CloseTwo && p@ == "删除环境分支及关联映射失败"@),
            DeleteChoice::Back => closes(old, new, r),
            DeleteChoice::Nothing => stays(old, new, r),
        },
        _ => leaves_or_stays(old, new, e, r),
    }
}

fn delete_confirm(stack: &mut Vec<Page>, index: usize, linked: Vec<String>, e: PageEvent) -> (r: Effect)
    requires
        old(stack)@.len() > 0,
    ensures
        delete_confirm_step(old(stack)@, final(stack)@, index, linked@, e, r),
{
    match e {
        PageEvent::Row(i) => match delete_confirm_choice(linked.len() > 0, i) {
            DeleteChoice::DeleteOnly => Effect::Save {
                change: ConfigChange::DeleteEnvBranch(index, Vec::new()),
                then: AfterSave::CloseTwo,
                failure: SaveFailure::Report(owned("删除环境分支失败")),
            },
            DeleteChoice::DeleteWithMappings => Effect::Save {
                change: ConfigChange::DeleteEnvBranch(index, linked),
                then: AfterSave::CloseTwo,
                failure: SaveFailure::Report(owned("删除环境分支及关联映射失败")),
            },
            DeleteChoice::Back => {
                stack.pop();
                Effect::Nothing
            },
            DeleteChoice::Nothing => Effect::Nothing,
        },
        PageEvent::Back => {
            stack.pop();
            Effect::Nothing
        },
        PageEvent::Quit => Effect::Quit,
        _ => Effect::Nothing,
    }
}

/// The branch map list, in order of source: add, pick one, back.
pub open spec fn map_menu_step(old: Seq<Page>, new: Seq<Page>, config: Config, e: PageEvent, r: Effect) -> bool {
    let m = sorted_pairs(config.branch_map@);
    match e {
        PageEvent::Row(i) => match list_choice(i, m.len() as usize) {
            ListChoice::Add => opened(old, new, r) && (new.last() matches Page::ConfigBranchMapSourceInput {
                original_source,
                state,
            } && original_source is None && source_input(state, seq![])),
            ListChoice::Select(k) => opened(old, new, r) && (new.last() matches Page::ConfigBranchMapActions {
                source_branch,
            } && source_branch@ == m[k as int].0),
            ListChoice::Back => closes(old, new, r),
            ListChoice::Nothing => stays(old, new, r),
        },
        _ => leaves_or_stays(old, new, e, r),
    }
}

fn map_menu(stack: &mut Vec<Page>, config: &Config, e: PageEvent) -> (r: Effect)
    requires
        old(stack)@.len() > 0,
    ensures
        map_menu_step(old(stack)@, final(stack)@, *config, e, r),
{
    match e {
        PageEvent::Row(i) => {
            let mappings = config.branch_map.sorted_entries();
            match list_menu_choice(i, mappings.len()) {
                ListChoice::Add => {
                    let state = InputState::prefilled(
                        "gmux / 配置管理",
                        "编辑 branch_map / 第一步",
                        "源分支",
                        "例如 pre_prod 或 uat_henry_meger",
                        String::new(),
                    );
                    stack.push(Page::ConfigBranchMapSourceInput { original_source: None, state });
                    assert(stack@.drop_last() =~= old(stack)@);
                },
                ListChoice::Select(k) => {
                    let source_branch = mappings[k].0.clone();
                    assert(pair_views(mappings@)[k as int].0 == mappings@[k as int].0@);
                    stack.push(Page::ConfigBranchMapActions { source_branch });
                    assert(stack@.drop_last() =~= old(stack)@);
                },
                ListChoice::Back => {
                    stack.pop();
                },
                ListChoice::Nothing => {},
            }
            Effect::Nothing
        },
        PageEvent::Back => {
            stack.pop();
            Effect::Nothing
        },
        PageEvent::Quit => Effect::Quit,
        _ => Effect::Nothing,
    }
}

/// The actions on the entry of `source`: edit (from its source), delete,
/// back.
pub open spec fn map_actions_step(old: Seq<Page>, new: Seq<Page>, source: String, e: PageEvent, r: Effect) -> bool {
    match e {
        PageEvent::Row(i) => if i == 0 {
            opened(old, new, r) && (new.last() matches Page::ConfigBranchMapSourceInput { original_source, state }
                && original_source == Some(source) && source_input(state, source@))
        } else if i == 1 {
            new == old && (r matches Effect::Save {
                change: ConfigChange::DeleteMapping(x),
                then,
                failure: SaveFailure::Report(p),
            } && x == source && then == AfterSave::Close && p@ == "删除分支映射失败"@)
        } else if i == 2 {
            closes(old, new, r)
        } else {
            stays(old, new, r)
        },
        _ => leaves_or_stays(old, new, e, r),
    }
}

fn map_actions(stack: &mut Vec<Page>, source: String, e: PageEvent) -> (r: Effect)
    requires
        old(stack)@.len() > 0,
    ensures
        map_actions_step(old(stack)@, final(stack)@, source, e, r),
{
    match e {
        PageEvent::Row(i) => {
            if i == 0 {
                let state = InputState::prefilled(
                    "gmux / 配置管理",
                    "编辑 branch_map / 第一步",
                    "源分支",
                    "例如 pre_prod 或 uat_henry_meger",
                    source.clone(),
                );
                stack.push(Page::ConfigBranchMapSourceInput { original_source: Some(source), state });
                assert(stack@.drop_last() =~= old(stack)@);
                Effect::Nothing
            } else if i == 1 {
                Effect::Save {
                    change: ConfigChange::DeleteMapping(source),
                    then: AfterSave::Close,
                    failure: SaveFailure::Report(owned("删除分支映射失败")),
                }
            } else if i == 2 {
                stack.pop();
                Effect::Nothing
            } else {
                Effect::Nothing
            }
        },
        PageEvent::Back => {
            stack.pop();
            Effect::Nothing
        },
        PageEvent::Quit => Effect::Quit,
        _ => Effect::Nothing,
    }
}

/// The source of an entry typed: a blank one is refused, another goes on to
/// choosing its target.
pub open spec fn source_input_step(
    old: Seq<Page>,
    new: Seq<Page>,
    original: Option<String>,
    e: PageEvent,
    r: Effect,
) -> bool {
    match e {
        PageEvent::Text(v) => match setting_value(v@) {
            None => r is Nothing && refused(old, new, "源分支不能为空"@),
            Some(x) => opened(old, new, r) && (new.last() matches Page::ConfigBranchMapTargetSelect { draft }
                && draft.original_source == original && draft.source_branch@ == x),
        },
        _ => leaves_or_stays(old, new, e, r),
    }
}

fn source_input_page(stack: &mut Vec<Page>, original: Option<String>, e: PageEvent) -> (r: Effect)
    requires
        old(stack)@.len() > 0,
        input_of(old(stack)@.last()) is Some,
    ensures
        source_input_step(old(stack)@, final(stack)@, original, e, r),
{
    match setting(stack, e, "源分支不能为空") {
        Ok(x) => {
            stack.push(Page::ConfigBranchMapTargetSelect {
                draft: BranchMapDraft { original_source: original, source_branch: x },
            });
            assert(stack@.drop_last() =~= old(stack)@);
            Effect::Nothing
        },
        Err(eff) => eff,
    }
}

/// The value the custom target input starts with: the current target of the
/// entry being edited, if any.
pub open spec fn current_target(config: Config, original: Option<String>) -> Seq<char> {
    match original {
        Some(o) => if config.branch_map@.contains_key(o@) {
            config.branch_map@[o@]
        } else {
            seq![]
        },
        None => seq![],
    }
}

/// Saving the entry of a draft with `target`, then closing this page and the
/// one below it.
pub open spec fn saves_mapping(draft: BranchMapDraft, target: Seq<char>, failure: SaveFailure, r: Effect) -> bool {
    r matches Effect::Save { change: ConfigChange::SaveMapping(o, s, t), then, failure: f } && o
        == draft.original_source && s == draft.source_branch && t@ == target && then
        == AfterSave::CloseTwo && f == failure
}

/// Choosing the target of an entry: keep its custom target (when it has one
/// that is not an environment branch), an environment branch, type another,
/// back.
pub open spec fn target_select_step(
    old: Seq<Page>,
    new: Seq<Page>,
    config: Config,
    draft: BranchMapDraft,
    e: PageEvent,
    r: Effect,
) -> bool {
    let envs = config.project.env_branches@;
    let custom = custom_target_of(
        config,
        match draft.original_source {
            Some(o) => Some(o@),
            None => None,
        },
    );
    match e {
        PageEvent::Row(i) => match target_choice(custom is Some, envs.len() as usize, i) {
            TargetChoice::KeepExisting => new == old && (r matches Effect::Save { failure: SaveFailure::Report(p), .. }
                && p@ == "保存映射失败"@ && saves_mapping(draft, custom->0, SaveFailure::Report(p), r)),
            TargetChoice::Env(k) => new == old && (r matches Effect::Save { failure: SaveFailure::Report(p), .. }
                && p@ == "保存映射失败"@ && saves_mapping(draft, envs[k as int]@, SaveFailure::Report(p), r)),
            TargetChoice::Custom => opened(old, new, r) && (new.last() matches Page::ConfigBranchMapTargetCustomInput {
                draft: d,
                state,
            } && d == draft && fresh_input(
                state,
                "gmux / 配置管理"@,
                "编辑 branch_map / 自定义目标  [源分支: "@ + draft.source_branch@ + "]"@,
                "目标分支"@,
                "例如 master / stage / prod"@,
                current_target(config, draft.original_source),
            )),
            TargetChoice::Back => closes(old, new, r),
            TargetChoice::Nothing => stays(old, new, r),
        },
        _ => leaves_or_stays(old, new, e, r),
    }
}

fn target_select(stack: &mut Vec<Page>, config: &Config, draft: BranchMapDraft, e: PageEvent) -> (r: Effect)
    requires
        old(stack)@.len() > 0,
        config.project.env_branches@.len() + 2 <= usize::MAX,
    ensures
        target_select_step(old(stack)@, final(stack)@, *config, draft, e, r),
{
    match e {
        PageEvent::Row(i) => {
            let custom = custom_target(
                config,
                match &draft.original_source {
                    Some(o) => Some(o.as_str()),
                    None => None,
                },
            );
            match target_select_choice(custom.is_some(), config.project.env_branches.len(), i) {
                TargetChoice::KeepExisting => {
                    let target = match custom {
                        Some(t) => t,
                        None => String::new(),
                    };
                    Effect::Save {
                        change: ConfigChange::SaveMapping(draft.original_source, draft.source_branch, target),
                        then: AfterSave::CloseTwo,
                        failure: SaveFailure::Report(owned("保存映射失败")),
                    }
                },
                TargetChoice::Env(k) => {
                    let target = config.project.env_branches[k].clone();
                    Effect::Save {
                        change: ConfigChange::SaveMapping(draft.original_source, draft.source_branch, target),
                        then: AfterSave::CloseTwo,
                        failure: SaveFailure::Report(owned("保存映射失败")),
                    }
                },
                TargetChoice::Custom => {
                    let value = match &draft.original_source {
                        Some(o) => match config.branch_map.get(o.as_str()) {
                            Some(t) => t.clone(),
                            None => String::new(),
                        },
                        None => String::new(),
                    };
                    let mut subtitle = owned("编辑 branch_map / 自定义目标  [源分支: ");
                    subtitle.append(draft.source_branch.as_str());
                    subtitle.append("]");
                    let state = InputState::prefilled(
                        "gmux / 配置管理",
                        subtitle.as_str(),
                        "目标分支",
                        "例如 master / stage / prod",
                        value,
                    );
                    stack.push(Page::ConfigBranchMapTargetCustomInput { draft, state });
                    assert(stack@.drop_last() =~= old(stack)@);
                    Effect::Nothing
                },
                TargetChoice::Back => {
                    stack.pop();
                    Effect::Nothing
                },
                TargetChoice::Nothing => Effect::Nothing,
            }
        },
        PageEvent::Back => {
            stack.pop();
            Effect::Nothing
        },
        PageEvent::Quit => Effect::Quit,
        _ => Effect::Nothing,
    }
}

/// The custom target typed: a blank one is refused, another is saved.
pub open spec fn custom_input_step(old: Seq<Page>, new: Seq<Page>, draft: BranchMapDraft, e: PageEvent, r: Effect) -> bool {
    match e {
        PageEvent::Text(v) => match setting_value(v@) {
            None => r is Nothing && refused(old, new, "目标分支不能为空"@),
            Some(x) => new == old && saves_mapping(draft, x, SaveFailure::OnInput, r),
        },
        _ => leaves_or_stays(old, new, e, r),
    }
}

fn custom_input_page(stack: &mut Vec<Page>, draft: BranchMapDraft, e: PageEvent) -> (r: Effect)
    requires
        old(stack)@.len() > 0,
        input_of(old(stack)@.last()) is Some,
    ensures
        custom_input_step(old(stack)@, final(stack)@, draft, e, r),
{
    match setting(stack, e, "目标分支不能为空") {
        Ok(x) => Effect::Save {
            change: ConfigChange::SaveMapping(draft.original_source, draft.source_branch, x),
            then: AfterSave::CloseTwo,
            failure: SaveFailure::OnInput,
        },
        Err(eff) => eff,
    }
}

/// The default branch map preview: replace the branch map, or cancel.
pub open spec fn reset_preview_step(old: Seq<Page>, new: Seq<Page>, e: PageEvent, r: Effect) -> bool {
    match e {
        PageEvent::Row(i) => if i == 0 {
            new == old && (r matches Effect::Save { change: ConfigChange::RegenerateMap, then, failure: SaveFailure::Report(p) }
                && then == AfterSave::Close && p@ == "重建默认 branch_map 失败"@)
        } else if i == 1 {
            closes(old, new, r)
        } else {
            stays(old, new, r)
        },
        _ => leaves_or_stays(old, new, e, r),
    }
}

fn reset_preview(stack: &mut Vec<Page>, e: PageEvent) -> (r: Effect)
    requires
        old(stack)@.len() > 0,
    ensures
        reset_preview_step(old(stack)@, final(stack)@, e, r),
{
    match e {
        PageEvent::Row(i) => {
            if i == 0 {
                Effect::Save {
                    change: ConfigChange::RegenerateMap,
                    then: AfterSave::Close,
                    failure: SaveFailure::Report(owned("重建默认 branch_map 失败")),
                }
            } else if i == 1 {
                stack.pop();
                Effect::Nothing
            } else {
                Effect::Nothing
            }
        },
        PageEvent::Back => {
            stack.pop();
            Effect::Nothing
        },
        PageEvent::Quit => Effect::Quit,
        _ => Effect::Nothing,
    }
}

/// The items at the given indices, in the order of the indices; an index
/// past the end picks nothing.
pub open spec fn picked<T>(items: Seq<T>, idx: Seq<usize>) -> Seq<T>
    decreases idx.len(),
{
    if idx.len() == 0 {
        seq![]
    } else {
        picked(items, idx.drop_last()) + if idx.last() < items.len() {
            seq![items[idx.last() as int]]
        } else {
            seq![]
        }
    }
}

fn pick_strings(items: &Vec<String>, idx: &Vec<usize>) -> (r: Vec<String>)
    ensures
        r@ == picked(items@, idx@),
{
    let mut r: Vec<String> = Vec::new();
    let mut k: usize = 0;
    while k < idx.len()
        invariant
            k <= idx@.len(),
            r@ == picked(items@, idx@.subrange(0, k as int)),
        decreases idx@.len() - k,
    {
        assert(idx@.subrange(0, k + 1).drop_last() =~= idx@.subrange(0, k as int));
        let i = idx[k];
        if i < items.len() {
            r.push(items[i].clone());
        }
        k = k + 1;
        assert(r@ =~= picked(items@, idx@.subrange(0, k as int)));
    }
    assert(idx@.subrange(0, idx@.len() as int) =~= idx@);
    r
}

fn pick_pairs(items: &Vec<(String, String)>, idx: &Vec<usize>) -> (r: Vec<(String, String)>)
    ensures
        r@ == picked(items@, idx@),
{
    let mut r: Vec<(String, String)> = Vec::new();
    let mut k: usize = 0;
    while k < idx.len()
        invariant
            k <= idx@.len(),
            r@ == picked(items@, idx@.subrange(0, k as int)),
        decreases idx@.len() - k,
    {
        assert(idx@.subrange(0, k + 1).drop_last() =~= idx@.subrange(0, k as int));
        let i = idx[k];
        if i < items.len() {
            let item = (items[i].0.clone(), items[i].1.clone());
            r.push(item);
        }
        k = k + 1;
        assert(r@ =~= picked(items@, idx@.subrange(0, k as int)));
    }
    assert(idx@.subrange(0, idx@.len() as int) =~= idx@);
    r
}

fn pair_copies(v: &Vec<(String, String)>) -> (r: Vec<(String, String)>)
    ensures
        r@ == v@,
{
    let mut r: Vec<(String, String)> = Vec::new();
    let mut i: usize = 0;
    while i < v.len()
        invariant
            i <= v@.len(),
            r@ == v@.subrange(0, i as int),
        decreases v@.len() - i,
    {
        let item = (v[i].0.clone(), v[i].1.clone());
        r.push(item);
        i = i + 1;
        assert(r@ =~= v@.subrange(0, i as int));
    }
    assert(v@.subrange(0, v@.len() as int) =~= v@);
    r
}

/// The project list: pick a project.
pub open spec fn project_select_step(old: Seq<Page>, new: Seq<Page>, projects: Seq<Project>, e: PageEvent, r: Effect) -> bool {
    match e {
        PageEvent::Row(i) => if i < projects.len() {
            opens(old, new, r, Page::LocalOperation { project_idx: i })
        } else {
            stays(old, new, r)
        },
        _ => leaves_or_stays(old, new, e, r),
    }
}

fn project_select(stack: &mut Vec<Page>, projects: &Vec<Project>, e: PageEvent) -> (r: Effect)
    requires
        old(stack)@.len() > 0,
    ensures
        project_select_step(old(stack)@, final(stack)@, projects@, e, r),
{
    match e {
        PageEvent::Row(i) => {
            if i < projects.len() {
                stack.push(Page::LocalOperation { project_idx: i });
            }
            Effect::Nothing
        },
        PageEvent::Back => {
            stack.pop();
            Effect::Nothing
        },
        PageEvent::Quit => Effect::Quit,
        _ => Effect::Nothing,
    }
}

/// The operations on a project: sync (previewed at once), or merge into all,
/// one or chosen merge branches (choosing the source first).
pub open spec fn local_operation_step(old: Seq<Page>, new: Seq<Page>, project_idx: usize, e: PageEvent, r: Effect) -> bool {
    match e {
        PageEvent::Row(i) => if i == 0 {
            opens(old, new, r, Page::ExecutionPreview { plan: ExecutionPlan::Sync { project_idx } })
        } else if i == 1 {
            opens(old, new, r, Page::SourceBranch { project_idx, operation: LocalOp::MergeAll })
        } else if i == 2 {
            opens(old, new, r, Page::SourceBranch { project_idx, operation: LocalOp::MergeSingle })
        } else if i == 3 {
            opens(old, new, r, Page::SourceBranch { project_idx, operation: LocalOp::MergeCustom })
        } else {
            stays(old, new, r)
        },
        _ => leaves_or_stays(old, new, e, r),
    }
}

fn local_operation(stack: &mut Vec<Page>, project_idx: usize, e: PageEvent) -> (r: Effect)
    requires
        old(stack)@.len() > 0,
    ensures
        local_operation_step(old(stack)@, final(stack)@, project_idx, e, r),
{
    match e {
        PageEvent::Row(i) => {
            if i == 0 {
                stack.push(Page::ExecutionPreview { plan: ExecutionPlan::Sync { project_idx } });
            } else if i == 1 {
                stack.push(Page::SourceBranch { project_idx, operation: LocalOp::MergeAll });
            } else if i == 2 {
                stack.push(Page::SourceBranch { project_idx, operation: LocalOp::MergeSingle });
            } else if i == 3 {
                stack.push(Page::SourceBranch { project_idx, operation: LocalOp::MergeCustom });
            }
            Effect::Nothing
        },
        PageEvent::Back => {
            stack.pop();
            Effect::Nothing
        },
        PageEvent::Quit => Effect::Quit,
        _ => Effect::Nothing,
    }
}

/// The merge branches of a project's environment branches.
pub open spec fn merge_targets(pairs: Seq<(Seq<char>, Seq<char>)>) -> Seq<Seq<char>> {
    pairs.map_values(|p: (Seq<char>, Seq<char>)| p.1)
}

/// The checklist of merge branches to merge `source` into.
pub open spec fn target_checklist(s: ChecklistState, pairs: Seq<(Seq<char>, Seq<char>)>, source: Seq<char>) -> bool {
    &&& s.title@ == "gmux / 目标分支多选"@
    &&& s.subtitle@ == "空格勾选多个目标分支，Enter 进入执行预览"@
    &&& views(s.items@) == merge_targets(pairs)
    &&& s.details@.len() == pairs.len()
    &&& forall|i: int|
        0 <= i < pairs.len() ==> views(#[trigger] s.details@[i]@) == seq![
            "环境分支: "@ + pairs[i].0,
            "目标合并分支: "@ + pairs[i].1,
            "源分支: "@ + source,
        ]
    &&& views(s.help_lines@) == seq![
        "用空格勾选一个或多个目标分支。"@,
        "至少需要选择一个目标分支，Enter 后会先进入执行预览，不会立刻执行。"@,
        "适合只对部分环境分支做 merge 的场景。"@,
    ]
    &&& s.selected@ == Seq::new(pairs.len(), |i: int| false)
    &&& s.error is None
    &&& !s.help_visible
    &&& checklist_wf(s)
}

fn push_line(v: &mut Vec<String>, a: &str, b: &str)
    ensures
        views(final(v)@) == views(old(v)@).push(a@ + b@),
{
    v.push(joined(a, b));
    assert(views(final(v)@) =~= views(old(v)@).push(a@ + b@));
}

fn help_of(a: &str, b: &str, c: &str) -> (r: Vec<String>)
    ensures
        views(r@) == seq![a@, b@, c@],
{
    let mut r: Vec<String> = Vec::new();
    r.push(owned(a));
    r.push(owned(b));
    r.push(owned(c));
    assert(views(r@) =~= seq![a@, b@, c@]);
    r
}

/// Opens the checklist of merge branches of a project, or reports that the
/// project has none.
fn open_target_checklist(stack: &mut Vec<Page>, config: &Config, project_idx: usize, name: &str, source: String)
    ensures
        ({
            let pairs = sync_pairs(*config, name@);
            if pairs.len() == 0 {
                reported(old(stack)@, final(stack)@, "项目 "@ + name@ + " 没有可用的目标合并分支"@)
            } else {
                final(stack)@.len() == old(stack)@.len() + 1 && final(stack)@.drop_last() == old(stack)@
                    && (final(stack)@.last() matches Page::TargetBranchMulti {
                    project_idx: p,
                    source_branch,
                    state,
                    targets,
                } && p == project_idx && source_branch == source && views(targets@) == merge_targets(pairs)
                    && target_checklist(state, pairs, source@))
            }
        }),
{
    let options = crate::project::get_target_merge_branches(config, name);
    let ghost pairs = sync_pairs(*config, name@);
    assert(pairs.len() == options@.len());
    if options.len() == 0 {
        let mut msg = joined("项目 ", name);
        msg.append(" 没有可用的目标合并分支");
        report(stack, msg);
        return;
    }
    let mut targets: Vec<String> = Vec::new();
    let mut details: Vec<Vec<String>> = Vec::new();
    let mut i: usize = 0;
    while i < options.len()
        invariant
            i <= options@.len(),
            pairs == sync_pairs(*config, name@),
            pairs.len() == options@.len(),
            forall|k: int| 0 <= k < options@.len() ==> pairs[k] == ((#[trigger] options@[k]).0@, options@[k].1@),
            views(targets@) == merge_targets(pairs.subrange(0, i as int)),
            details@.len() == i,
            forall|k: int|
                0 <= k < i ==> views(#[trigger] details@[k]@) == seq![
                    "环境分支: "@ + pairs[k].0,
                    "目标合并分支: "@ + pairs[k].1,
                    "源分支: "@ + source@,
                ],
        decreases options@.len() - i,
    {
        let ghost old_targets = targets@;
        targets.push(options[i].1.clone());
        proof {
            assert(views(targets@) =~= views(old_targets).push(options@[i as int].1@));
            assert(pairs.subrange(0, i + 1) =~= pairs.subrange(0, i as int).push(pairs[i as int]));
            assert(merge_targets(pairs.subrange(0, i + 1)) =~= merge_targets(
                pairs.subrange(0, i as int),
            ).push(pairs[i as int].1));
        }
        let mut lines: Vec<String> = Vec::new();
        push_line(&mut lines, "环境分支: ", options[i].0.as_str());
        push_line(&mut lines, "目标合并分支: ", options[i].1.as_str());
        push_line(&mut lines, "源分支: ", source.as_str());
        assert(views(lines@) =~= seq![
            "环境分支: "@ + pairs[i as int].0,
            "目标合并分支: "@ + pairs[i as int].1,
            "源分支: "@ + source@,
        ]);
        details.push(lines);
        i = i + 1;
    }
    assert(pairs.subrange(0, options@.len() as int) =~= pairs);
    let items = clone_strings(&targets);
    let help = help_of(
        "用空格勾选一个或多个目标分支。",
        "至少需要选择一个目标分支，Enter 后会先进入执行预览，不会立刻执行。",
        "适合只对部分环境分支做 merge 的场景。",
    );
    let state = ChecklistState::new("gmux / 目标分支多选", "空格勾选多个目标分支，Enter 进入执行预览", items)
        .with_details(details)
        .with_help(help);
    stack.push(Page::TargetBranchMulti { project_idx, source_branch: source, state, targets });
    assert(stack@.drop_last() =~= old(stack)@);
}

/// Choosing the source branch of a merge: into chosen merge branches (the
/// checklist of them), into one (the list of them), or into all (previewed
/// at once).
pub open spec fn source_branch_step(
    old: Seq<Page>,
    new: Seq<Page>,
    config: Config,
    projects: Seq<Project>,
    project_idx: usize,
    op: LocalOp,
    e: PageEvent,
    r: Effect,
) -> bool {
    let name = projects[project_idx as int].name@;
    let pairs = sync_pairs(config, name);
    match e {
        PageEvent::Branch(b) => if op == LocalOp::MergeCustom {
            r is Nothing && if pairs.len() == 0 {
                reported(old, new, "项目 "@ + name + " 没有可用的目标合并分支"@)
            } else {
                new.len() == old.len() + 1 && new.drop_last() == old && (new.last() matches Page::TargetBranchMulti {
                    project_idx: p,
                    source_branch,
                    state,
                    targets,
                } && p == project_idx && source_branch == b && views(targets@) == merge_targets(pairs)
                    && target_checklist(state, pairs, b@))
            }
        } else if op == LocalOp::MergeSingle {
            opens(old, new, r, Page::TargetBranch { project_idx, source_branch: b })
        } else {
            opened(old, new, r) && (new.last() matches Page::ExecutionPreview {
                plan: ExecutionPlan::Merge { project_idx: p, source_branch, targets },
            } && p == project_idx && source_branch == b && views(targets@) == if op == LocalOp::MergeAll {
                merge_targets(pairs)
            } else {
                seq![]
            })
        },
        _ => leaves_or_stays(old, new, e, r),
    }
}

fn source_branch(
    stack: &mut Vec<Page>,
    config: &Config,
    projects: &Vec<Project>,
    project_idx: usize,
    op: LocalOp,
    e: PageEvent,
) -> (r: Effect)
    requires
        old(stack)@.len() > 0,
        project_idx < projects@.len(),
    ensures
        source_branch_step(old(stack)@, final(stack)@, *config, projects@, project_idx, op, e, r),
{
    match e {
        PageEvent::Branch(b) => {
            let name = projects[project_idx].name.as_str();
            if op == LocalOp::MergeCustom {
                open_target_checklist(stack, config, project_idx, name, b);
            } else if op == LocalOp::MergeSingle {
                stack.push(Page::TargetBranch { project_idx, source_branch: b });
            } else {
                let targets = crate::workflow::targets_for_operation(config, name, op);
                proof {
                    let pairs = sync_pairs(*config, name@);
                    if op == LocalOp::MergeAll {
                        assert(views(targets@) =~= merge_targets(pairs));
                    } else {
                        assert(views(targets@) =~= seq![]);
                    }
                }
                stack.push(Page::ExecutionPreview {
                    plan: ExecutionPlan::Merge { project_idx, source_branch: b, targets },
                });
                assert(stack@.drop_last() =~= old(stack)@);
            }
            Effect::Nothing
        },
        PageEvent::Back => {
            stack.pop();
            Effect::Nothing
        },
        PageEvent::Quit => Effect::Quit,
        _ => Effect::Nothing,
    }
}

/// The ticked merge branches of the checklist go to a preview of the merge.
pub open spec fn target_multi_step(
    old: Seq<Page>,
    new: Seq<Page>,
    project_idx: usize,
    source: String,
    targets: Seq<String>,
    e: PageEvent,
    r: Effect,
) -> bool {
    match e {
        PageEvent::Ticked(idx) => opened(old, new, r) && (new.last() matches Page::ExecutionPreview {
            plan: ExecutionPlan::Merge { project_idx: p, source_branch, targets: t },
        } && p == project_idx && source_branch == source && t@ == picked(targets, idx@)),
        _ => leaves_or_stays(old, new, e, r),
    }
}

fn target_multi(stack: &mut Vec<Page>, project_idx: usize, source: String, targets: Vec<String>, e: PageEvent) -> (r:
    Effect)
    requires
        old(stack)@.len() > 0,
    ensures
        target_multi_step(old(stack)@, final(stack)@, project_idx, source, targets@, e, r),
{
    match e {
        PageEvent::Ticked(idx) => {
            let chosen = pick_strings(&targets, &idx);
            stack.push(Page::ExecutionPreview {
                plan: ExecutionPlan::Merge { project_idx, source_branch: source, targets: chosen },
            });
            assert(stack@.drop_last() =~= old(stack)@);
            Effect::Nothing
        },
        PageEvent::Back => {
            stack.pop();
            Effect::Nothing
        },
        PageEvent::Quit => Effect::Quit,
        _ => Effect::Nothing,
    }
}

/// The merge branch chosen from the list goes to a preview of the merge.
pub open spec fn target_branch_step(
    old: Seq<Page>,
    new: Seq<Page>,
    config: Config,
    projects: Seq<Project>,
    project_idx: usize,
    source: String,
    e: PageEvent,
    r: Effect,
) -> bool {
    let pairs = sync_pairs(config, projects[project_idx as int].name@);
    match e {
        PageEvent::Row(i) => if i < pairs.len() {
            opened(old, new, r) && (new.last() matches Page::ExecutionPreview {
                plan: ExecutionPlan::Merge { project_idx: p, source_branch, targets },
            } && p == project_idx && source_branch == source && views(targets@) == seq![pairs[i as int].1])
        } else {
            stays(old, new, r)
        },
        _ => leaves_or_stays(old, new, e, r),
    }
}

fn target_branch(
    stack: &mut Vec<Page>,
    config: &Config,
    projects: &Vec<Project>,
    project_idx: usize,
    source: String,
    e: PageEvent,
) -> (r: Effect)
    requires
        old(stack)@.len() > 0,
        project_idx < projects@.len(),
    ensures
        target_branch_step(old(stack)@, final(stack)@, *config, projects@, project_idx, source, e, r),
{
    match e {
        PageEvent::Row(i) => {
            let options = crate::project::get_target_merge_branches(config, projects[project_idx].name.as_str());
            if i < options.len() {
                let mut targets: Vec<String> = Vec::new();
                targets.push(options[i].1.clone());
                assert(views(targets@) =~= seq![sync_pairs(*config, projects@[project_idx as int].name@)[i as int].1]);
                stack.push(Page::ExecutionPreview {
                    plan: ExecutionPlan::Merge { project_idx, source_branch: source, targets },
                });
                assert(stack@.drop_last() =~= old(stack)@);
            }
            Effect::Nothing
        },
        PageEvent::Back => {
            stack.pop();
            Effect::Nothing
        },
        PageEvent::Quit => Effect::Quit,
        _ => Effect::Nothing,
    }
}

/// A preview: Enter runs the plan.
pub open spec fn preview_step(old: Seq<Page>, new: Seq<Page>, e: PageEvent, r: Effect) -> bool {
    match e {
        PageEvent::Confirm => new == old && r is Execute,
        _ => leaves_or_stays(old, new, e, r),
    }
}

/// A result page: leaving it returns to the menu the operation started from.
pub open spec fn results_step(old: Seq<Page>, new: Seq<Page>, e: PageEvent, r: Effect) -> bool {
    match e {
        PageEvent::Back => r is Nothing && new == strip_operation_pages(old.drop_last()),
        _ => stays(old, new, r),
    }
}

// ---- merge requests ----

/// The merge request menu: one, all mappings, chosen mappings, back.
pub open spec fn mr_menu_step(old: Seq<Page>, new: Seq<Page>, e: PageEvent, r: Effect) -> bool {
    match e {
        PageEvent::Row(i) => if i == 0 {
            opens(old, new, r, Page::GitLabProjectSelect { mr_mode: MrMode::Single })
        } else if i == 1 {
            opens(old, new, r, Page::GitLabProjectSelect { mr_mode: MrMode::Batch })
        } else if i == 2 {
            opens(old, new, r, Page::GitLabProjectSelect { mr_mode: MrMode::BatchCustom })
        } else if i == 3 {
            closes(old, new, r)
        } else {
            stays(old, new, r)
        },
        _ => leaves_or_stays(old, new, e, r),
    }
}

fn mr_menu(stack: &mut Vec<Page>, e: PageEvent) -> (r: Effect)
    requires
        old(stack)@.len() > 0,
    ensures
        mr_menu_step(old(stack)@, final(stack)@, e, r),
{
    match e {
        PageEvent::Row(i) => {
            if i == 0 {
                stack.push(Page::GitLabProjectSelect { mr_mode: MrMode::Single });
            } else if i == 1 {
                stack.push(Page::GitLabProjectSelect { mr_mode: MrMode::Batch });
            } else if i == 2 {
                stack.push(Page::GitLabProjectSelect { mr_mode: MrMode::BatchCustom });
            } else if i == 3 {
                stack.pop();
            }
            Effect::Nothing
        },
        PageEvent::Back => {
            stack.pop();
            Effect::Nothing
        },
        PageEvent::Quit => Effect::Quit,
        _ => Effect::Nothing,
    }
}

/// The checklist of branch map entries for a batch of merge requests.
pub open spec fn mapping_checklist(s: ChecklistState, m: Seq<(Seq<char>, Seq<char>)>) -> bool {
    &&& s.title@ == "gmux / 分支映射多选"@
    &&& s.subtitle@ == "空格勾选多组映射，Enter 进入执行预览"@
    &&& views(s.items@) == m.map_values(|p: (Seq<char>, Seq<char>)| p.0 + " -> "@ + p.1)
    &&& s.details@.len() == m.len()
    &&& forall|i: int|
        0 <= i < m.len() ==> views(#[trigger] s.details@[i]@) == seq![
            "源分支: "@ + m[i].0,
            "目标分支: "@ + m[i].1,
        ]
    &&& views(s.help_lines@) == seq![
        "这里展示配置文件 branch_map 中的全部映射关系。"@,
        "用空格勾选一组或多组映射，适合只处理部分环境或临时链路。"@,
        "Enter 后会先进入执行预览，不会立刻请求 GitLab API。"@,
    ]
    &&& s.selected@ == Seq::new(m.len(), |i: int| false)
    &&& s.error is None
    &&& !s.help_visible
    &&& checklist_wf(s)
}

fn mapping_checklist_state(mappings: &Vec<(String, String)>) -> (r: ChecklistState)
    ensures
        mapping_checklist(r, pair_views(mappings@)),
{
    let ghost m = pair_views(mappings@);
    let mut items: Vec<String> = Vec::new();
    let mut details: Vec<Vec<String>> = Vec::new();
    let mut i: usize = 0;
    while i < mappings.len()
        invariant
            i <= mappings@.len(),
            m == pair_views(mappings@),
            views(items@) == m.subrange(0, i as int).map_values(
                |p: (Seq<char>, Seq<char>)| p.0 + " -> "@ + p.1,
            ),
            details@.len() == i,
            forall|k: int|
                0 <= k < i ==> views(#[trigger] details@[k]@) == seq!["源分支: "@ + m[k].0, "目标分支: "@ + m[k].1],
        decreases mappings@.len() - i,
    {
        let mut item = mappings[i].0.clone();
        item.append(" -> ");
        item.append(mappings[i].1.as_str());
        let ghost old_items = items@;
        items.push(item);
        proof {
            let f = |p: (Seq<char>, Seq<char>)| p.0 + " -> "@ + p.1;
            assert(views(items@) =~= views(old_items).push(m[i as int].0 + " -> "@ + m[i as int].1));
            assert(m.subrange(0, i + 1) =~= m.subrange(0, i as int).push(m[i as int]));
            assert(m.subrange(0, i + 1).map_values(f) =~= m.subrange(0, i as int).map_values(f).push(
                f(m[i as int]),
            ));
        }
        let mut lines: Vec<String> = Vec::new();
        push_line(&mut lines, "源分支: ", mappings[i].0.as_str());
        push_line(&mut lines, "目标分支: ", mappings[i].1.as_str());
        assert(views(lines@) =~= seq!["源分支: "@ + m[i as int].0, "目标分支: "@ + m[i as int].1]);
        details.push(lines);
        i = i + 1;
    }
    assert(m.subrange(0, mappings@.len() as int) =~= m);
    let help = help_of(
        "这里展示配置文件 branch_map 中的全部映射关系。",
        "用空格勾选一组或多组映射，适合只处理部分环境或临时链路。",
        "Enter 后会先进入执行预览，不会立刻请求 GitLab API。",
    );
    ChecklistState::new("gmux / 分支映射多选", "空格勾选多组映射，Enter 进入执行预览", items)
        .with_details(details)
        .with_help(help)
}

/// The GitLab project list: a project chosen goes on as the mode says; a
/// failed load is reported, an empty one closes the page.
pub open spec fn gitlab_projects_step(
    old: Seq<Page>,
    new: Seq<Page>,
    config: Config,
    mode: MrMode,
    e: PageEvent,
    r: Effect,
) -> bool {
    let m = sorted_pairs(config.branch_map@);
    match e {
        PageEvent::GitLabProject(id, name) => match mode {
            MrMode::Single => opens(old, new, r, Page::BranchMapSelect { project_id: id, project_name: name }),
            MrMode::Batch => opened(old, new, r) && (new.last() matches Page::ExecutionPreview {
                plan: ExecutionPlan::MrBatch { project_id, project_name, mappings },
            } && project_id == id && project_name == name && pair_views(mappings@) == m),
            MrMode::BatchCustom => opened(old, new, r) && (new.last() matches Page::BranchMapMultiSelect {
                project_id,
                project_name,
                state,
                mappings,
            } && project_id == id && project_name == name && pair_views(mappings@) == m
                && mapping_checklist(state, m)),
        },
        PageEvent::LoadFailed(err) => r is Nothing && reported(old, new, "加载 GitLab 项目列表失败: "@ + err@),
        PageEvent::NothingLoaded => closes(old, new, r),
        _ => leaves_or_stays(old, new, e, r),
    }
}

fn gitlab_projects(stack: &mut Vec<Page>, config: &Config, mode: MrMode, e: PageEvent) -> (r: Effect)
    requires
        old(stack)@.len() > 0,
    ensures
        gitlab_projects_step(old(stack)@, final(stack)@, *config, mode, e, r),
{
    match e {
        PageEvent::GitLabProject(project_id, project_name) => {
            match mode {
                MrMode::Single => stack.push(Page::BranchMapSelect { project_id, project_name }),
                MrMode::Batch => {
                    let mappings = config.branch_map.sorted_entries();
                    stack.push(Page::ExecutionPreview {
                        plan: ExecutionPlan::MrBatch { project_id, project_name, mappings },
                    });
                    assert(stack@.drop_last() =~= old(stack)@);
                },
                MrMode::BatchCustom => {
                    let mappings = config.branch_map.sorted_entries();
                    let state = mapping_checklist_state(&mappings);
                    stack.push(Page::BranchMapMultiSelect { project_id, project_name, state, mappings });
                    assert(stack@.drop_last() =~= old(stack)@);
                },
            }
            Effect::Nothing
        },
        PageEvent::LoadFailed(err) => {
            report(stack, joined("加载 GitLab 项目列表失败: ", err.as_str()));
            Effect::Nothing
        },
        PageEvent::NothingLoaded | PageEvent::Back => {
            stack.pop();
            Effect::Nothing
        },
        PageEvent::Quit => Effect::Quit,
        _ => Effect::Nothing,
    }
}

/// The branch map list for one merge request: the entry chosen goes to a
/// preview.
pub open spec fn mapping_select_step(
    old: Seq<Page>,
    new: Seq<Page>,
    config: Config,
    id: u64,
    name: String,
    e: PageEvent,
    r: Effect,
) -> bool {
    let m = sorted_pairs(config.branch_map@);
    match e {
        PageEvent::Row(i) => if i < m.len() {
            opened(old, new, r) && (new.last() matches Page::ExecutionPreview {
                plan: ExecutionPlan::MrSingle { project_id, project_name, source_branch, target_branch },
            } && project_id == id && project_name == name && source_branch@ == m[i as int].0
                && target_branch@ == m[i as int].1)
        } else {
            stays(old, new, r)
        },
        _ => leaves_or_stays(old, new, e, r),
    }
}

fn mapping_select(stack: &mut Vec<Page>, config: &Config, project_id: u64, project_name: String, e: PageEvent) -> (r:
    Effect)
    requires
        old(stack)@.len() > 0,
    ensures
        mapping_select_step(old(stack)@, final(stack)@, *config, project_id, project_name, e, r),
{
    match e {
        PageEvent::Row(i) => {
            let mappings = config.branch_map.sorted_entries();
            if i < mappings.len() {
                let source_branch = mappings[i].0.clone();
                let target_branch = mappings[i].1.clone();
                assert(pair_views(mappings@)[i as int] == (mappings@[i as int].0@, mappings@[i as int].1@));
                stack.push(Page::ExecutionPreview {
                    plan: ExecutionPlan::MrSingle { project_id, project_name, source_branch, target_branch },
                });
                assert(stack@.drop_last() =~= old(stack)@);
            }
            Effect::Nothing
        },
        PageEvent::Back => {
            stack.pop();
            Effect::Nothing
        },
        PageEvent::Quit => Effect::Quit,
        _ => Effect::Nothing,
    }
}

/// The ticked entries of the checklist go to a preview of the batch.
pub open spec fn mapping_multi_step(
    old: Seq<Page>,
    new: Seq<Page>,
    id: u64,
    name: String,
    mappings: Seq<(String, String)>,
    e: PageEvent,
    r: Effect,
) -> bool {
    match e {
        PageEvent::Ticked(idx) => opened(old, new, r) && (new.last() matches Page::ExecutionPreview {
            plan: ExecutionPlan::MrBatch { project_id, project_name, mappings: t },
        } && project_id == id && project_name == name && t@ == picked(mappings, idx@)),
        _ => leaves_or_stays(old, new, e, r),
    }
}

fn mapping_multi(
    stack: &mut Vec<Page>,
    project_id: u64,
    project_name: String,
    mappings: Vec<(String, String)>,
    e: PageEvent,
) -> (r: Effect)
    requires
        old(stack)@.len() > 0,
    ensures
        mapping_multi_step(old(stack)@, final(stack)@, project_id, project_name, mappings@, e, r),
{
    match e {
        PageEvent::Ticked(idx) => {
            let chosen = pick_pairs(&mappings, &idx);
            stack.push(Page::ExecutionPreview {
                plan: ExecutionPlan::MrBatch { project_id, project_name, mappings: chosen },
            });
            assert(stack@.drop_last() =~= old(stack)@);
            Effect::Nothing
        },
        PageEvent::Back => {
            stack.pop();
            Effect::Nothing
        },
        PageEvent::Quit => Effect::Quit,
        _ => Effect::Nothing,
    }
}

fn preview(stack: &mut Vec<Page>, e: PageEvent) -> (r: Effect)
    requires
        old(stack)@.len() > 0,
    ensures
        preview_step(old(stack)@, final(stack)@, e, r),
{
    match e {
        PageEvent::Confirm => Effect::Execute,
        PageEvent::Back => {
            stack.pop();
            Effect::Nothing
        },
        PageEvent::Quit => Effect::Quit,
        _ => Effect::Nothing,
    }
}

fn results(stack: &mut Vec<Page>, e: PageEvent) -> (r: Effect)
    requires
        old(stack)@.len() > 0,
    ensures
        results_step(old(stack)@, final(stack)@, e, r),
{
    match e {
        PageEvent::Back => {
            pop_after_results(stack);
            Effect::Nothing
        },
        _ => Effect::Nothing,
    }
}

// ---- the whole step ----

/// The top page can take an event: the environment branch and the project it
/// names exist, and the target menu's rows can be counted.
pub open spec fn nav_ready(stack: Seq<Page>, config: Config, projects: Seq<Project>) -> bool {
    stack.len() > 0 ==> match stack.last() {
        Page::ConfigEnvBranchActions { index } => index < config.project.env_branches@.len(),
        Page::ConfigProjectRootActions { index } => index < config.project.root_dirs@.len(),
        Page::ConfigBranchMapTargetSelect { .. } => config.project.env_branches@.len() + 2 <= usize::MAX,
        Page::SourceBranch { project_idx, .. } => project_idx < projects.len(),
        Page::TargetBranch { project_idx, .. } => project_idx < projects.len(),
        _ => true,
    }
}

/// Whether the top page can take an event.
pub fn ready(stack: &Vec<Page>, config: &Config, projects: &Vec<Project>) -> (r: bool)
    ensures
        r == nav_ready(stack@, *config, projects@),
{
    let n = stack.len();
    if n == 0 {
        return true;
    }
    match &stack[n - 1] {
        Page::ConfigEnvBranchActions { index } => *index < config.project.env_branches.len(),
        Page::ConfigProjectRootActions { index } => *index < config.project.root_dirs.len(),
        Page::ConfigBranchMapTargetSelect { .. } => config.project.env_branches.len() <= usize::MAX - 2,
        Page::SourceBranch { project_idx, .. } => *project_idx < projects.len(),
        Page::TargetBranch { project_idx, .. } => *project_idx < projects.len(),
        _ => true,
    }
}

/// What an event on the top page does: with an empty stack the program ends;
/// otherwise as the page's own step says.
pub open spec fn nav_step(
    old: Seq<Page>,
    new: Seq<Page>,
    config: Config,
    projects: Seq<Project>,
    e: PageEvent,
    r: Effect,
) -> bool {
    if old.len() == 0 {
        quits(old, new, r)
    } else {
        match old.last() {
            Page::MainMenu => main_menu_step(old, new, e, r),
            Page::ConfigMenu => config_menu_step(old, new, config, e, r),
            Page::ConfigProjectRootsMenu => roots_menu_step(old, new, config, e, r),
            Page::ConfigProjectRootActions { index } => root_actions_step(old, new, config, index, e, r),
            Page::ConfigProjectRootInput { index, .. } => root_input_step(old, new, index, e, r),
            Page::ConfigGitLabHostInput { .. } => setting_step(
                old,
                new,
                e,
                r,
                "GitLab 地址不能为空"@,
                |x: Seq<char>, r: Effect| saves_host(x, r),
            ),
            Page::ConfigGitLabTokenInput { .. } => setting_step(
                old,
                new,
                e,
                r,
                "GitLab Token 不能为空"@,
                |x: Seq<char>, r: Effect| saves_token(x, r),
            ),
            Page::ConfigMergeMiddleInput { .. } => setting_step(
                old,
                new,
                e,
                r,
                "输入不能为空"@,
                |x: Seq<char>, r: Effect| saves_middle(x, r),
            ),
            Page::ConfigEnvBranchesMenu => env_menu_step(old, new, config, e, r),
            Page::ConfigEnvBranchActions { index } => env_actions_step(old, new, config, index, e, r),
            Page::ConfigEnvBranchDeleteConfirm { index, linked_mappings, .. } => delete_confirm_step(
                old,
                new,
                index,
                linked_mappings@,
                e,
                r,
            ),
            Page::ConfigEnvBranchInput { index, .. } => setting_step(
                old,
                new,
                e,
                r,
                "环境分支不能为空"@,
                |x: Seq<char>, r: Effect| saves_env_branch(index, x, r),
            ),
            Page::ConfigBranchMapMenu => map_menu_step(old, new, config, e, r),
            Page::ConfigBranchMapActions { source_branch } => map_actions_step(old, new, source_branch, e, r),
            Page::ConfigBranchMapSourceInput { original_source, .. } => source_input_step(
                old,
                new,
                original_source,
                e,
                r,
            ),
            Page::ConfigBranchMapTargetSelect { draft } => target_select_step(old, new, config, draft, e, r),
            Page::ConfigBranchMapTargetCustomInput { draft, .. } => custom_input_step(old, new, draft, e, r),
            Page::ConfigBranchMapResetPreview { .. } => reset_preview_step(old, new, e, r),
            Page::ProjectSelect => project_select_step(old, new, projects, e, r),
            Page::LocalOperation { project_idx } => local_operation_step(old, new, project_idx, e, r),
            Page::SourceBranch { project_idx, operation } => source_branch_step(
                old,
                new,
                config,
                projects,
                project_idx,
                operation,
                e,
                r,
            ),
            Page::TargetBranchMulti { project_idx, source_branch, targets, .. } => target_multi_step(
                old,
                new,
                project_idx,
                source_branch,
                targets@,
                e,
                r,
            ),
            Page::TargetBranch { project_idx, source_branch } => target_branch_step(
                old,
                new,
                config,
                projects,
                project_idx,
                source_branch,
                e,
                r,
            ),
            Page::ExecutionPreview { .. } => preview_step(old, new, e, r),
            Page::ExecuteResult { .. } => results_step(old, new, e, r),
            Page::MrMenu => mr_menu_step(old, new, e, r),
            Page::GitLabProjectSelect { mr_mode } => gitlab_projects_step(old, new, config, mr_mode, e, r),
            Page::BranchMapSelect { project_id, project_name } => mapping_select_step(
                old,
                new,
                config,
                project_id,
                project_name,
                e,
                r,
            ),
            Page::BranchMapMultiSelect { project_id, project_name, mappings, .. } => mapping_multi_step(
                old,
                new,
                project_id,
                project_name,
                mappings@,
                e,
                r,
            ),
        }
    }
}

/// Takes what the user did on the top page: changes the page stack and says
/// which outside work to do.
pub fn navigate(stack: &mut Vec<Page>, config: &Config, projects: &Vec<Project>, e: PageEvent) -> (r: Effect)
    requires
        nav_ready(old(stack)@, *config, projects@),
    ensures
        nav_step(old(stack)@, final(stack)@, *config, projects@, e, r),
{
    let n = stack.len();
    if n == 0 {
        return Effect::Quit;
    }
    match &stack[n - 1] {
        Page::MainMenu => main_menu(stack, e),
        Page::ConfigMenu => config_menu(stack, config, e),
        Page::ConfigProjectRootsMenu => roots_menu(stack, config, e),
        Page::ConfigProjectRootActions { index } => {
            let i = *index;
            root_actions(stack, config, i, e)
        },
        Page::ConfigProjectRootInput { index, .. } => {
            let i = *index;
            root_input_page(stack, i, e)
        },
        Page::ConfigGitLabHostInput { .. } => host_page(stack, e),
        Page::ConfigGitLabTokenInput { .. } => token_page(stack, e),
        Page::ConfigMergeMiddleInput { .. } => middle_page(stack, e),
        Page::ConfigEnvBranchesMenu => env_menu(stack, config, e),
        Page::ConfigEnvBranchActions { index } => {
            let i = *index;
            env_actions(stack, config, i, e)
        },
        Page::ConfigEnvBranchDeleteConfirm { index, linked_mappings, .. } => {
            let i = *index;
            let linked = clone_strings(linked_mappings);
            delete_confirm(stack, i, linked, e)
        },
        Page::ConfigEnvBranchInput { index, .. } => {
            let i = *index;
            env_input_page(stack, i, e)
        },
        Page::ConfigBranchMapMenu => map_menu(stack, config, e),
        Page::ConfigBranchMapActions { source_branch } => {
            let source = source_branch.clone();
            map_actions(stack, source, e)
        },
        Page::ConfigBranchMapSourceInput { original_source, .. } => {
            let original = clone_opt(original_source);
            source_input_page(stack, original, e)
        },
        Page::ConfigBranchMapTargetSelect { draft } => {
            let d = clone_draft(draft);
            target_select(stack, config, d, e)
        },
        Page::ConfigBranchMapTargetCustomInput { draft, .. } => {
            let d = clone_draft(draft);
            custom_input_page(stack, d, e)
        },
        Page::ConfigBranchMapResetPreview { .. } => reset_preview(stack, e),
        Page::ProjectSelect => project_select(stack, projects, e),
        Page::LocalOperation { project_idx } => {
            let p = *project_idx;
            local_operation(stack, p, e)
        },
        Page::SourceBranch { project_idx, operation } => {
            let p = *project_idx;
            let op = *operation;
            source_branch(stack, config, projects, p, op, e)
        },
        Page::TargetBranchMulti { project_idx, source_branch, targets, .. } => {
            let p = *project_idx;
            let source = source_branch.clone();
            let t = clone_strings(targets);
            target_multi(stack, p, source, t, e)
        },
        Page::TargetBranch { project_idx, source_branch } => {
            let p = *project_idx;
            let source = source_branch.clone();
            target_branch(stack, config, projects, p, source, e)
        },
        Page::ExecutionPreview { .. } => preview(stack, e),
        Page::ExecuteResult { .. } => results(stack, e),
        Page::MrMenu => mr_menu(stack, e),
        Page::GitLabProjectSelect { mr_mode } => {
            let mode = *mr_mode;
            gitlab_projects(stack, config, mode, e)
        },
        Page::BranchMapSelect { project_id, project_name } => {
            let id = *project_id;
            let name = project_name.clone();
            mapping_select(stack, config, id, name, e)
        },
        Page::BranchMapMultiSelect { project_id, project_name, mappings, .. } => {
            let id = *project_id;
            let name = project_name.clone();
            let m = pair_copies(mappings);
            mapping_multi(stack, id, name, m, e)
        },
    }
}

// ---- keys on the preview and result pages ----

/// A key on an execution preview, given whether its help is shown: whether
/// the help is shown afterwards, and the event the key makes, if any. With
/// the help hidden, Enter confirms, `?` shows the help, `b` or Esc go back
/// and `q` quits; with it shown, `?`, `b` or Esc hide it, `q` quits and
/// other keys do nothing. Anything but a press does nothing.
pub open spec fn preview_key_result(help: bool, k: KeyEvent) -> (bool, Option<PageEvent>) {
    let c = k.code;
    if !k.press {
        (help, None)
    } else if help {
        if c == KeyCode::Char('?') || c == KeyCode::Char('b') || c == KeyCode::Esc {
            (false, None)
        } else if c == KeyCode::Char('q') {
            (true, Some(PageEvent::Quit))
        } else {
            (true, None)
        }
    } else if c == KeyCode::Char('?') {
        (true, None)
    } else if c == KeyCode::Enter {
        (false, Some(PageEvent::Confirm))
    } else if c == KeyCode::Char('b') || c == KeyCode::Esc {
        (false, Some(PageEvent::Back))
    } else if c == KeyCode::Char('q') {
        (false, Some(PageEvent::Quit))
    } else {
        (false, None)
    }
}

/// A key on an execution preview: whether the help is shown afterwards, and
/// the event, if any.
pub fn preview_key(help_visible: bool, key: KeyEvent) -> (r: (bool, Option<PageEvent>))
    ensures
        r == preview_key_result(help_visible, key),
{
    if !key.press {
        return (help_visible, None);
    }
    if help_visible {
        match key.code {
            KeyCode::Char('?') | KeyCode::Char('b') | KeyCode::Esc => (false, None),
            KeyCode::Char('q') => (true, Some(PageEvent::Quit)),
            _ => (true, None),
        }
    } else {
        match key.code {
            KeyCode::Char('?') => (true, None),
            KeyCode::Enter => (false, Some(PageEvent::Confirm)),
            KeyCode::Char('b') | KeyCode::Esc => (false, Some(PageEvent::Back)),
            KeyCode::Char('q') => (false, Some(PageEvent::Quit)),
            _ => (false, None),
        }
    }
}

/// A key on a result page, given whether its help is shown: with the help
/// hidden, `?` shows it and any other key goes back; with it shown, `?`, `b`
/// or Esc hide it and other keys do nothing. Anything but a press does
/// nothing.
pub open spec fn results_key_result(help: bool, k: KeyEvent) -> (bool, Option<PageEvent>) {
    let c = k.code;
    if !k.press {
        (help, None)
    } else if help {
        if c == KeyCode::Char('?') || c == KeyCode::Char('b') || c == KeyCode::Esc {
            (false, None)
        } else {
            (true, None)
        }
    } else if c == KeyCode::Char('?') {
        (true, None)
    } else {
        (false, Some(PageEvent::Back))
    }
}

/// A key on a result page: whether the help is shown afterwards, and the
/// event, if any.
pub fn results_key(help_visible: bool, key: KeyEvent) -> (r: (bool, Option<PageEvent>))
    ensures
        r == results_key_result(help_visible, key),
{
    if !key.press {
        return (help_visible, None);
    }
    if help_visible {
        match key.code {
            KeyCode::Char('?') | KeyCode::Char('b') | KeyCode::Esc => (false, None),
            _ => (true, None),
        }
    } else {
        match key.code {
            KeyCode::Char('?') => (true, None),
            _ => (false, Some(PageEvent::Back)),
        }
    }
}

// ---- laws of navigation ----

/// A plan runs only when the user confirms its preview: an event asks to
/// execute only on an execution preview, only on Enter, and leaves the stack
/// as it is.
pub proof fn law_execute_only_after_preview(
    old: Seq<Page>,
    new: Seq<Page>,
    config: Config,
    projects: Seq<Project>,
    e: PageEvent,
    r: Effect,
)
    requires
        nav_step(old, new, config, projects, e, r),
        r is Execute,
    ensures
        old.len() > 0,
        old.last() is ExecutionPreview,
        e is Confirm,
        new == old,
{
}

/// Quitting never changes the stack: it ends the program, except on a result
/// page, where it does nothing.
pub proof fn law_quit_keeps_stack(
    old: Seq<Page>,
    new: Seq<Page>,
    config: Config,
    projects: Seq<Project>,
    r: Effect,
)
    requires
        nav_step(old, new, config, projects, PageEvent::Quit, r),
    ensures
        new == old,
        r is Quit || (old.len() > 0 && old.last() is ExecuteResult && r is Nothing),
{
}

/// Going back from any page but the main menu and a result page closes that
/// page and nothing else.
pub proof fn law_back_closes_page(
    old: Seq<Page>,
    new: Seq<Page>,
    config: Config,
    projects: Seq<Project>,
    r: Effect,
)
    requires
        nav_step(old, new, config, projects, PageEvent::Back, r),
        old.len() > 0,
        !(old.last() is MainMenu),
        !(old.last() is ExecuteResult),
    ensures
        new == old.drop_last(),
        r is Nothing,
{
}

/// A configuration change is saved before the pages move: an event that asks
/// for a save leaves the stack as it is.
pub proof fn law_save_keeps_stack(
    old: Seq<Page>,
    new: Seq<Page>,
    config: Config,
    projects: Seq<Project>,
    e: PageEvent,
    r: Effect,
)
    requires
        nav_step(old, new, config, projects, e, r),
        r is Save,
    ensures
        new == old,
{
}

/// The main menu lies at the bottom of the stack and nowhere above it.
pub open spec fn rooted(stack: Seq<Page>) -> bool {
    &&& stack.len() > 0
    &&& stack[0] is MainMenu
    &&& forall|i: int| 0 < i < stack.len() ==> !(#[trigger] stack[i] is MainMenu)
}

proof fn lemma_strip_keeps_root(s: Seq<Page>)
    requires
        rooted(s),
    ensures
        rooted(strip_operation_pages(s)),
    decreases s.len(),
{
    if s.len() > 0 && is_operation_page(s.last()) {
        assert(s.len() > 1);
        let t = s.drop_last();
        assert(t[0] == s[0]);
        assert forall|i: int| 0 < i < t.len() implies !(#[trigger] t[i] is MainMenu) by {
            assert(t[i] == s[i]);
        }
        lemma_strip_keeps_root(t);
    }
}

/// No event closes the main menu or opens a second one: a stack rooted at the
/// main menu stays so.
pub proof fn law_main_menu_stays_at_bottom(
    old: Seq<Page>,
    new: Seq<Page>,
    config: Config,
    projects: Seq<Project>,
    e: PageEvent,
    r: Effect,
)
    requires
        nav_step(old, new, config, projects, e, r),
        rooted(old),
    ensures
        rooted(new),
{
    if old.len() > 1 {
        let t = old.drop_last();
        assert(t[0] == old[0]);
        assert forall|i: int| 0 < i < t.len() implies !(#[trigger] t[i] is MainMenu) by {
            assert(t[i] == old[i]);
        }
        if old.last() is ExecuteResult && e is Back {
            lemma_strip_keeps_root(t);
        }
    }
    if new.len() == old.len() && new.drop_last() == old.drop_last() && old.len() > 1
        && !(new.last() is MainMenu) {
        assert(new[0] == old.drop_last()[0]);
        assert forall|i: int| 0 < i < new.len() implies !(#[trigger] new[i] is MainMenu) by {
            if i < old.len() - 1 {
                assert(new[i] == new.drop_last()[i]);
                assert(old[i] == old.drop_last()[i]);
            }
        }
    }
    if new.len() == old.len() + 1 && new.drop_last() == old {
        assert(new[0] == old[0]);
        assert forall|i: int| 0 < i < new.len() implies !(#[trigger] new[i] is MainMenu) by {
            if i < old.len() {
                assert(new[i] == old[i]);
            }
        }
    }
}

/// The delete confirmation is opened only for an existing environment branch
/// while another one remains.
pub proof fn law_delete_confirm_needs_spare_branch(
    old: Seq<Page>,
    new: Seq<Page>,
    config: Config,
    projects: Seq<Project>,
    e: PageEvent,
    r: Effect,
)
    requires
        nav_ready(old, config, projects),
        nav_step(old, new, config, projects, e, r),
        new.len() == old.len() + 1,
        new.drop_last() == old,
    ensures
        new.last() matches Page::ConfigEnvBranchDeleteConfirm { index, .. } ==> index
            < config.project.env_branches@.len() && config.project.env_branches@.len() > 1,
{
    if old.len() > 0 && old.last() is ExecuteResult {
        law_results_return_to_menu(old.drop_last());
    }
}

/// Deleting a project root is asked for only while another root remains.
pub proof fn law_root_delete_needs_spare_root(
    old: Seq<Page>,
    new: Seq<Page>,
    config: Config,
    projects: Seq<Project>,
    e: PageEvent,
    r: Effect,
)
    requires
        nav_step(old, new, config, projects, e, r),
        r matches Effect::Save { change: ConfigChange::DeleteRoot(_), .. },
    ensures
        config.project.root_dirs@.len() > 1,
{
}

// ---- the page loop keeps the configuration usable ----

/// A delete confirmation at position `i` is not at the bottom, names an
/// existing environment branch while another remains, and only result pages
/// lie above it.
pub open spec fn confirm_ok(stack: Seq<Page>, config: Config, i: int) -> bool {
    stack[i] matches Page::ConfigEnvBranchDeleteConfirm { index, .. } ==> i >= 1 && index
        < config.project.env_branches@.len() && config.project.env_branches@.len() > 1 && forall|j: int|
        i < j < stack.len() ==> #[trigger] stack[j] is ExecuteResult
}

/// Every delete confirmation in the stack is as [`confirm_ok`] says.
pub open spec fn confirms_ok(stack: Seq<Page>, config: Config) -> bool {
    forall|i: int| 0 <= i < stack.len() ==> #[trigger] confirm_ok(stack, config, i)
}

/// The state of the page loop: at least one environment branch, a usable
/// root list, and delete confirmations only as [`confirm_ok`] says.
pub open spec fn loop_ok(stack: Seq<Page>, config: Config) -> bool {
    &&& config.project.env_branches@.len() > 0
    &&& roots_wf(views(config.project.root_dirs@))
    &&& confirms_ok(stack, config)
}

/// A stack with neither a delete confirmation nor a result page on top holds
/// no delete confirmation.
proof fn lemma_no_confirm(stack: Seq<Page>, config: Config)
    requires
        confirms_ok(stack, config),
        stack.len() > 0,
        !(stack.last() is ConfigEnvBranchDeleteConfirm),
        !(stack.last() is ExecuteResult),
    ensures
        forall|i: int| 0 <= i < stack.len() ==> !(#[trigger] stack[i] is ConfigEnvBranchDeleteConfirm),
{
    assert forall|i: int| 0 <= i < stack.len() implies !(#[trigger] stack[i] is ConfigEnvBranchDeleteConfirm) by {
        if stack[i] is ConfigEnvBranchDeleteConfirm {
            assert(confirm_ok(stack, config, i));
            assert(stack[stack.len() - 1] is ExecuteResult);
        }
    }
}

/// A stack without delete confirmations meets [`confirms_ok`].
proof fn lemma_none_ok(stack: Seq<Page>, config: Config)
    requires
        forall|i: int| 0 <= i < stack.len() ==> !(#[trigger] stack[i] is ConfigEnvBranchDeleteConfirm),
    ensures
        confirms_ok(stack, config),
{
    assert forall|i: int| 0 <= i < stack.len() implies #[trigger] confirm_ok(stack, config, i) by {
        assert(!(stack[i] is ConfigEnvBranchDeleteConfirm));
    }
}

/// The bottom pages of a stack that meets [`confirms_ok`] meet it too.
proof fn lemma_prefix_ok(stack: Seq<Page>, config: Config, k: int)
    requires
        confirms_ok(stack, config),
        0 <= k <= stack.len(),
    ensures
        confirms_ok(stack.subrange(0, k), config),
{
    let t = stack.subrange(0, k);
    assert forall|i: int| 0 <= i < t.len() implies #[trigger] confirm_ok(t, config, i) by {
        assert(confirm_ok(stack, config, i));
        assert(t[i] == stack[i]);
        if t[i] is ConfigEnvBranchDeleteConfirm {
            assert forall|j: int| i < j < t.len() implies #[trigger] t[j] is ExecuteResult by {
                assert(t[j] == stack[j]);
            }
        }
    }
}

/// A result page may be put on any stack that meets [`confirms_ok`].
proof fn lemma_push_result_ok(stack: Seq<Page>, config: Config, p: Page)
    requires
        confirms_ok(stack, config),
        p is ExecuteResult,
    ensures
        confirms_ok(stack.push(p), config),
{
    let t = stack.push(p);
    assert forall|i: int| 0 <= i < t.len() implies #[trigger] confirm_ok(t, config, i) by {
        if i < stack.len() {
            assert(confirm_ok(stack, config, i));
            assert(t[i] == stack[i]);
            if t[i] is ConfigEnvBranchDeleteConfirm {
                assert forall|j: int| i < j < t.len() implies #[trigger] t[j] is ExecuteResult by {
                    if j < stack.len() {
                        assert(t[j] == stack[j]);
                    }
                }
            }
        }
    }
}

/// The stack after an event that asks for no save still meets [`loop_ok`]:
/// the configuration is unchanged, and a delete confirmation is opened only
/// as [`law_delete_confirm_needs_spare_branch`] says.
pub proof fn law_event_keeps_loop(
    old: Seq<Page>,
    new: Seq<Page>,
    config: Config,
    projects: Seq<Project>,
    e: PageEvent,
    r: Effect,
)
    requires
        loop_ok(old, config),
        nav_ready(old, config, projects),
        nav_step(old, new, config, projects, e, r),
    ensures
        loop_ok(new, config),
{
    if old.len() == 0 || new == old {
        return;
    }
    if old.last() is ExecuteResult {
        law_results_return_to_menu(old.drop_last());
    }
    if new.len() == old.len() + 1 && new.subrange(0, old.len() as int) =~= old {
        assert(new.drop_last() =~= old);
        if new.last() is ExecuteResult {
            lemma_push_result_ok(old, config, new.last());
            assert(new =~= old.push(new.last()));
        } else {
            law_delete_confirm_needs_spare_branch(old, new, config, projects, e, r);
            lemma_no_confirm(old, config);
            assert forall|i: int| 0 <= i < new.len() implies #[trigger] confirm_ok(new, config, i) by {
                if i < old.len() {
                    assert(new[i] == old[i]);
                }
            }
        }
    } else if old.last() is ExecuteResult {
        law_results_return_to_menu(old.drop_last());
        let k = new.len() as int;
        assert(old.drop_last().subrange(0, k) =~= old.subrange(0, k));
        lemma_prefix_ok(old, config, k);
    } else if new.len() + 1 == old.len() && new == old.drop_last() {
        lemma_prefix_ok(old, config, new.len() as int);
        assert(old.subrange(0, new.len() as int) =~= new);
    } else {
        // the input at the top shows an error
        assert(new.len() == old.len() && new.drop_last() == old.drop_last());
        lemma_no_confirm(old, config);
        assert forall|i: int| 0 <= i < new.len() implies !(#[trigger] new[i] is ConfigEnvBranchDeleteConfirm) by {
            if i < new.len() - 1 {
                assert(new[i] == new.drop_last()[i]);
                assert(old[i] == old.drop_last()[i]);
            }
        }
        lemma_none_ok(new, config);
    }
}

/// Where a save comes from: a page other than a result page; a deletion of
/// an environment branch only from its delete confirmation at the top, which
/// then closes with the page below it; a deletion of a root only while
/// another root remains.
pub open spec fn save_origin(old: Seq<Page>, config: Config, change: ConfigChange, then: AfterSave) -> bool {
    &&& old.len() > 0
    &&& !(old.last() is ExecuteResult)
    &&& old.last() is ConfigEnvBranchDeleteConfirm ==> then == AfterSave::CloseTwo && (change matches ConfigChange::DeleteEnvBranch(i, _)
        && old.last()->ConfigEnvBranchDeleteConfirm_index == i)
    &&& change is DeleteEnvBranch ==> old.last() is ConfigEnvBranchDeleteConfirm
    &&& change is DeleteRoot ==> config.project.root_dirs@.len() > 1
}

/// Every save an event asks for comes from where [`save_origin`] says.
pub proof fn law_event_save_origin(
    old: Seq<Page>,
    new: Seq<Page>,
    config: Config,
    projects: Seq<Project>,
    e: PageEvent,
    r: Effect,
)
    requires
        nav_step(old, new, config, projects, e, r),
        r is Save,
    ensures
        save_origin(old, config, r->change, r->then),
{
}

/// Every save a root check asks for comes from where [`save_origin`] says.
pub proof fn law_root_check_save_origin(
    old: Seq<Page>,
    new: Seq<Page>,
    config: Config,
    index: Option<usize>,
    path: Seq<char>,
    is_dir: bool,
    canonical: Option<Seq<char>>,
    r: Effect,
)
    requires
        root_check_step(old, new, index, path, is_dir, canonical, r),
        r is Save,
    ensures
        save_origin(old, config, r->change, r->then),
{
}

/// A root check keeps [`loop_ok`]: it only shows an error on the input at
/// the top, or asks for a save.
pub proof fn law_root_check_keeps_loop(
    old: Seq<Page>,
    new: Seq<Page>,
    config: Config,
    index: Option<usize>,
    path: Seq<char>,
    is_dir: bool,
    canonical: Option<Seq<char>>,
    r: Effect,
)
    requires
        loop_ok(old, config),
        root_check_step(old, new, index, path, is_dir, canonical, r),
    ensures
        loop_ok(new, config),
{
    if new != old {
        lemma_no_confirm(old, config);
        assert forall|i: int| 0 <= i < new.len() implies !(#[trigger] new[i] is ConfigEnvBranchDeleteConfirm) by {
            if i < new.len() - 1 {
                assert(new[i] == new.drop_last()[i]);
                assert(old[i] == old.drop_last()[i]);
            }
        }
        lemma_none_ok(new, config);
    }
}

/// Making a save and moving the stack as [`finish_save`] does keeps
/// [`loop_ok`]: `f` is the configuration with the change made when it was
/// saved, and the same as before when it was not.
pub proof fn law_save_keeps_loop(
    old: Seq<Page>,
    new: Seq<Page>,
    config: Config,
    f: Config,
    change: ConfigChange,
    then: AfterSave,
    failure: SaveFailure,
    outcome: Result<(), Seq<char>>,
)
    requires
        loop_ok(old, config),
        save_origin(old, config, change, then),
        change_fits(config, change),
        outcome is Ok ==> change_applied(config, f, change),
        outcome is Err ==> f == config,
        save_ready(old, then, failure, outcome is Ok) ==> save_finished(old, new, then, failure, outcome),
        !save_ready(old, then, failure, outcome is Ok) ==> new == old,
    ensures
        loop_ok(new, f),
{
    let n = old.len();
    if old.last() is ConfigEnvBranchDeleteConfirm {
        assert(confirm_ok(old, config, n - 1));
        assert forall|i: int| 0 <= i < n - 1 implies !(#[trigger] old[i] is ConfigEnvBranchDeleteConfirm) by {
            if old[i] is ConfigEnvBranchDeleteConfirm {
                assert(confirm_ok(old, config, i));
                assert(old[n - 1] is ExecuteResult);
            }
        }
    } else {
        lemma_no_confirm(old, config);
    }
    if outcome is Ok {
        law_change_keeps_envs_and_roots(config, change, f);
    }
    if outcome is Err && new != old && failure is Report {
        lemma_push_result_ok(old, config, new.last());
        assert(new =~= old.push(new.last()));
    } else if new != old {
        if outcome is Ok {
            match then {
                AfterSave::Close => {
                    assert(new =~= old.subrange(0, n - 1));
                },
                AfterSave::CloseTwo => {},
                _ => {
                    assert(new.drop_last() =~= old.drop_last());
                },
            }
        }
        assert forall|i: int| 0 <= i < new.len() implies !(#[trigger] new[i] is ConfigEnvBranchDeleteConfirm) by {
            if outcome is Ok && (then == AfterSave::Close || then == AfterSave::CloseTwo) {
                assert(new[i] == old[i]);
            } else if i < new.len() - 1 {
                assert(new[i] == new.drop_last()[i]);
                assert(old[i] == old.drop_last()[i]);
            }
        }
        lemma_none_ok(new, f);
    }
}

/// Showing the results of a plan keeps [`loop_ok`]; with
/// [`law_event_keeps_loop`], [`law_root_check_keeps_loop`] and
/// [`law_save_keeps_loop`] this covers every step of the page loop, so a
/// configuration that starts with an environment branch and a usable root
/// list keeps them in every state of the loop.
pub proof fn law_result_page_keeps_loop(stack: Seq<Page>, config: Config, p: Page)
    requires
        loop_ok(stack, config),
        p is ExecuteResult,
    ensures
        loop_ok(stack.push(p), config),
{
    lemma_push_result_ok(stack, config, p);
}

// ---- what the rows of a menu do, by their labels ----

/// The labels of the rows of a delete confirmation page, as its menu shows
/// them.
pub open spec fn confirm_labels(p: Page) -> Seq<Seq<char>> {
    match p {
        Page::ConfigEnvBranchDeleteConfirm { branch, linked_mappings, .. } => delete_confirm_view(
            branch@,
            views(linked_mappings@),
        ).items,
        _ => seq![],
    }
}

/// The linked mapping sources a delete confirmation page names.
pub open spec fn confirm_linked(p: Page) -> Seq<Seq<char>> {
    match p {
        Page::ConfigEnvBranchDeleteConfirm { linked_mappings, .. } => views(linked_mappings@),
        _ => seq![],
    }
}

/// The environment branch a delete confirmation page is about, by index.
pub open spec fn confirm_index(p: Page) -> int {
    match p {
        Page::ConfigEnvBranchDeleteConfirm { index, .. } => index as int,
        _ => 0,
    }
}

/// Each row of the delete confirmation does what its label says, once the
/// change it asks for is made: every deletion removes the environment
/// branch; "只删除环境分支，保留现有映射" (or, without linked mappings,
/// "确认删除环境分支") leaves the branch map as it is, and "删除环境分支，并删除
/// N 组关联映射" removes exactly the linked mappings.
pub proof fn law_delete_rows_do_what_they_say(
    old: Seq<Page>,
    new: Seq<Page>,
    config: Config,
    projects: Seq<Project>,
    i: usize,
    r: Effect,
    f: Config,
)
    requires
        old.len() > 0,
        (old.last() is ConfigEnvBranchDeleteConfirm),
        nav_step(old, new, config, projects, PageEvent::Row(i), r),
        (r is Save),
        change_applied(config, f, r->change),
    ensures
        i < confirm_labels(old.last()).len(),
        f.project.env_branches@ == config.project.env_branches@.remove(confirm_index(old.last())),
        confirm_labels(old.last())[i as int] == "只删除环境分支，保留现有映射"@
            || confirm_labels(old.last())[i as int] == "确认删除环境分支"@ ==> f.branch_map@
            == config.branch_map@,
        confirm_labels(old.last())[i as int] == "删除环境分支，并删除 "@ + decimal(
            confirm_linked(old.last()).len(),
        ) + " 组关联映射"@ ==> f.branch_map@ == config.branch_map@.remove_keys(
            confirm_linked(old.last()).to_set(),
        ),
{
    reveal_strlit("只删除环境分支，保留现有映射");
    reveal_strlit("确认删除环境分支");
    reveal_strlit("删除环境分支，并删除 ");
    let p = old.last();
    let labels = confirm_labels(p);
    let linked = confirm_linked(p);
    let with = "删除环境分支，并删除 "@ + decimal(linked.len()) + " 组关联映射"@;
    assert(with[0] == '删');
    match r->change {
        ConfigChange::DeleteEnvBranch(j, l) => {
            if l@.len() == 0 {
                assert(views(l@).to_set() =~= Set::<Seq<char>>::empty());
                assert(config.branch_map@.remove_keys(Set::<Seq<char>>::empty()) =~= config.branch_map@);
                if linked.len() > 0 {
                    assert(labels[0][0] == '删');
                }
            } else {
                assert(views(l@) == linked);
                assert(labels[i as int] == with);
            }
        },
        _ => {},
    }
}

/// Each row of the local operation menu starts what its label says:
/// "同步 …" previews a sync of the project; "将指定分支合并到全部 …", once a
/// source branch is chosen, previews its merge into every merge branch of
/// the project; "将指定分支合并到单个目标合并分支", once a source branch is
/// chosen, asks for the one target; "自定义选择多个目标合并分支", once a source
/// branch is chosen, offers the targets to tick (or reports that there are
/// none).
pub proof fn law_local_operation_rows_do_what_they_say(
    s0: Seq<Page>,
    s1: Seq<Page>,
    s2: Seq<Page>,
    config: Config,
    projects: Seq<Project>,
    i: usize,
    b: String,
    r1: Effect,
    r2: Effect,
)
    requires
        s0.len() > 0,
        (s0.last() is LocalOperation),
        i < 4,
        nav_step(s0, s1, config, projects, PageEvent::Row(i), r1),
        nav_step(s1, s2, config, projects, PageEvent::Branch(b), r2),
    ensures
        local_operation_view(config).items[i as int] == "同步 "@ + decimal(
            config.project.env_branches@.len(),
        ) + " 个环境分支并推送到对应合并分支"@ ==> s1.last() == (Page::ExecutionPreview {
            plan: (ExecutionPlan::Sync { project_idx: s0.last()->LocalOperation_project_idx }),
        }),
        local_operation_view(config).items[i as int] == "将指定分支合并到全部 "@ + decimal(
            config.project.env_branches@.len(),
        ) + " 个目标合并分支"@ ==> (s2.last() matches Page::ExecutionPreview {
            plan: ExecutionPlan::Merge { project_idx, source_branch, targets },
        } && project_idx == s0.last()->LocalOperation_project_idx && source_branch == b && views(
            targets@,
        ) == merge_targets(sync_pairs(config, projects[project_idx as int].name@))),
        local_operation_view(config).items[i as int] == "将指定分支合并到单个目标合并分支"@ ==> s2
            == s1.push(
            (Page::TargetBranch { project_idx: s0.last()->LocalOperation_project_idx, source_branch: b }),
        ),
        local_operation_view(config).items[i as int] == "自定义选择多个目标合并分支"@ ==> (s2.last() matches Page::TargetBranchMulti {
            source_branch,
            ..
        } && source_branch == b) || s2.last() is ExecuteResult,
{
    reveal_strlit("同步 ");
    reveal_strlit("将指定分支合并到全部 ");
    reveal_strlit("将指定分支合并到单个目标合并分支");
    reveal_strlit("自定义选择多个目标合并分支");
    let n = decimal(config.project.env_branches@.len());
    let sync = "同步 "@ + n + " 个环境分支并推送到对应合并分支"@;
    let all = "将指定分支合并到全部 "@ + n + " 个目标合并分支"@;
    let single = "将指定分支合并到单个目标合并分支"@;
    let custom = "自定义选择多个目标合并分支"@;
    assert(sync[0] == '同');
    assert(all[0] == '将' && all[8] == '全');
    assert(single[0] == '将' && single[8] == '单');
    assert(custom[0] == '自');
    if s1.len() == s0.len() + 1 && s1.subrange(0, s0.len() as int) =~= s0 {
        assert(s1.drop_last() =~= s0);
    }
}

} // verus!
