use gmux::config::{BranchMap, Config, ConfigChange, GitLabConfig, ProjectConfig};
use gmux::navigation::{
    finish_save, navigate, preview_key, ready, results_key, root_checked, AfterSave, Effect, PageEvent,
    SaveFailure,
};
use gmux::tui::key::{KeyCode, KeyEvent};
use gmux::project::Project;
use gmux::workflow::{BranchMapDraft, ExecutionPlan, LocalOp, MrMode, Page};

fn strings(v: &[&str]) -> Vec<String> {
    v.iter().map(|s| s.to_string()).collect()
}

fn config(envs: &[&str]) -> Config {
    let mut c = Config {
        gitlab: GitLabConfig { host: "git.corp".to_string(), token: "glpat-123456".to_string() },
        project: ProjectConfig {
            root_dirs: vec!["/r".to_string(), "/w".to_string()],
            merge_branch_middle: "m".to_string(),
            env_branches: strings(envs),
        },
        branch_map: BranchMap::new(),
    };
    c.ensure_branch_map();
    c
}

fn projects() -> Vec<Project> {
    vec![Project { name: "shop".to_string(), path: "/r/shop".to_string(), source_root: "/r".to_string() }]
}

fn step(stack: &mut Vec<Page>, c: &Config, e: PageEvent) -> Effect {
    assert!(ready(stack, c, &projects()));
    navigate(stack, c, &projects(), e)
}

fn input_error(page: &Page) -> Option<String> {
    match page {
        Page::ConfigGitLabHostInput { state }
        | Page::ConfigEnvBranchInput { state, .. }
        | Page::ConfigProjectRootInput { state, .. }
        | Page::ConfigBranchMapTargetCustomInput { state, .. } => state.error.clone(),
        _ => None,
    }
}

fn result_text(page: &Page) -> String {
    match page {
        Page::ExecuteResult { lines } => lines[0].1.clone(),
        _ => panic!("not a result page"),
    }
}

#[test]
fn main_menu_rows() {
    let c = config(&["uat"]);
    let mut stack = vec![Page::MainMenu];
    assert!(matches!(step(&mut stack, &c, PageEvent::Row(0)), Effect::ScanProjects));
    assert!(matches!(stack.last(), Some(Page::ProjectSelect)));
    let mut stack = vec![Page::MainMenu];
    assert!(matches!(step(&mut stack, &c, PageEvent::Row(1)), Effect::Nothing));
    assert!(matches!(stack.last(), Some(Page::MrMenu)));
    let mut stack = vec![Page::MainMenu];
    assert!(matches!(step(&mut stack, &c, PageEvent::Row(3)), Effect::Quit));
    assert!(matches!(step(&mut stack, &c, PageEvent::Back), Effect::Quit));
    assert_eq!(stack.len(), 1);
    let mut empty: Vec<Page> = Vec::new();
    assert!(matches!(step(&mut empty, &c, PageEvent::Row(0)), Effect::Quit));
}

#[test]
fn host_input_refuses_blank_and_saves_trimmed() {
    let c = config(&["uat"]);
    let mut stack = vec![Page::MainMenu, Page::ConfigMenu];
    step(&mut stack, &c, PageEvent::Row(4));
    match stack.last() {
        Some(Page::ConfigGitLabHostInput { state }) => {
            assert_eq!(state.value, "git.corp");
            assert_eq!(state.cursor_pos, 8);
            assert_eq!(state.subtitle, "修改 GitLab 地址");
        }
        _ => panic!("expected the host input"),
    }
    assert!(matches!(step(&mut stack, &c, PageEvent::Text("   ".to_string())), Effect::Nothing));
    assert_eq!(input_error(stack.last().unwrap()), Some("GitLab 地址不能为空".to_string()));
    match step(&mut stack, &c, PageEvent::Text("  new.host ".to_string())) {
        Effect::Save { change: ConfigChange::SetHost(h), then, failure } => {
            assert_eq!(h, "new.host");
            assert!(then == AfterSave::Close);
            assert!(matches!(failure, SaveFailure::OnInput));
            finish_save(&mut stack, then, failure, Ok(()));
            assert_eq!(stack.len(), 2);
        }
        _ => panic!("expected a save"),
    }
}

#[test]
fn a_failed_save_shows_on_the_input() {
    let mut stack = vec![Page::MainMenu, Page::ConfigMenu];
    let c = config(&["uat"]);
    step(&mut stack, &c, PageEvent::Row(5));
    finish_save(&mut stack, AfterSave::Close, SaveFailure::OnInput, Err("disk full".to_string()));
    assert_eq!(stack.len(), 3);
    assert_eq!(input_error(stack.last().unwrap()), None);
    match stack.last() {
        Some(Page::ConfigGitLabTokenInput { state }) => {
            assert_eq!(state.error, Some("保存失败: disk full".to_string()))
        }
        _ => panic!("expected the token input"),
    }
}

#[test]
fn moving_an_environment_branch_follows_it() {
    let mut c = config(&["uat", "test", "stage"]);
    let mut stack = vec![Page::ConfigEnvBranchesMenu];
    step(&mut stack, &c, PageEvent::Row(2));
    assert!(matches!(stack.last(), Some(Page::ConfigEnvBranchActions { index: 1 })));
    match step(&mut stack, &c, PageEvent::Row(1)) {
        Effect::Save { change, then, failure } => {
            assert!(matches!(change, ConfigChange::SwapEnvBranches(1, 0)));
            assert!(change.fits(&c));
            c.apply_change(change);
            assert_eq!(c.project.env_branches, strings(&["test", "uat", "stage"]));
            finish_save(&mut stack, then, failure, Ok(()));
        }
        _ => panic!("expected a save"),
    }
    assert!(matches!(stack.last(), Some(Page::ConfigEnvBranchActions { index: 0 })));
    assert!(matches!(step(&mut stack, &c, PageEvent::Row(1)), Effect::Nothing));
}

#[test]
fn deleting_the_last_environment_branch_is_refused() {
    let c = config(&["uat"]);
    let mut stack = vec![Page::ConfigEnvBranchesMenu, Page::ConfigEnvBranchActions { index: 0 }];
    step(&mut stack, &c, PageEvent::Row(3));
    assert_eq!(result_text(stack.last().unwrap()), "至少需要保留一个环境分支");
}

#[test]
fn deleting_an_environment_branch_with_its_mappings() {
    let mut c = config(&["uat", "test"]);
    c.branch_map.insert("hotfix".to_string(), "uat".to_string());
    let mut stack = vec![Page::ConfigEnvBranchesMenu, Page::ConfigEnvBranchActions { index: 0 }];
    step(&mut stack, &c, PageEvent::Row(3));
    match stack.last() {
        Some(Page::ConfigEnvBranchDeleteConfirm { index, branch, linked_mappings }) => {
            assert_eq!(*index, 0);
            assert_eq!(branch, "uat");
            assert_eq!(linked_mappings, &strings(&["hotfix", "uat_m_meger"]));
        }
        _ => panic!("expected the confirmation"),
    }
    match step(&mut stack, &c, PageEvent::Row(0)) {
        Effect::Save { change, then, failure } => {
            assert!(matches!(&change, ConfigChange::DeleteEnvBranch(0, l) if l.len() == 2));
            c.apply_change(change);
            assert_eq!(c.branch_map.len(), 1);
            finish_save(&mut stack, then, failure, Err("read-only".to_string()));
            assert_eq!(result_text(stack.last().unwrap()), "删除环境分支及关联映射失败: read-only");
        }
        _ => panic!("expected a save"),
    }
}

#[test]
fn editing_a_mapping_goes_through_source_and_target() {
    let mut c = config(&["uat"]);
    c.branch_map.insert("feature".to_string(), "release".to_string());
    let mut stack = vec![Page::ConfigBranchMapMenu];
    step(&mut stack, &c, PageEvent::Row(1));
    match stack.last() {
        Some(Page::ConfigBranchMapActions { source_branch }) => assert_eq!(source_branch, "feature"),
        _ => panic!("expected the actions of the first entry"),
    }
    step(&mut stack, &c, PageEvent::Row(0));
    step(&mut stack, &c, PageEvent::Text(" feature2 ".to_string()));
    match stack.last() {
        Some(Page::ConfigBranchMapTargetSelect { draft }) => {
            assert_eq!(draft.original_source, Some("feature".to_string()));
            assert_eq!(draft.source_branch, "feature2");
        }
        _ => panic!("expected the target menu"),
    }
    match step(&mut stack, &c, PageEvent::Row(0)) {
        Effect::Save { change: ConfigChange::SaveMapping(o, s, t), then, .. } => {
            assert_eq!(o, Some("feature".to_string()));
            assert_eq!(s, "feature2");
            assert_eq!(t, "release");
            assert!(then == AfterSave::CloseTwo);
        }
        _ => panic!("expected to keep the custom target"),
    }
    step(&mut stack, &c, PageEvent::Row(2));
    match stack.last() {
        Some(Page::ConfigBranchMapTargetCustomInput { state, .. }) => assert_eq!(state.value, "release"),
        _ => panic!("expected the custom target input"),
    }
    step(&mut stack, &c, PageEvent::Text("".to_string()));
    assert_eq!(input_error(stack.last().unwrap()), Some("目标分支不能为空".to_string()));
}

#[test]
fn merge_all_goes_to_a_preview_of_every_merge_branch() {
    let c = config(&["uat", "test"]);
    let mut stack = vec![Page::ProjectSelect];
    step(&mut stack, &c, PageEvent::Row(0));
    step(&mut stack, &c, PageEvent::Row(1));
    assert!(matches!(stack.last(), Some(Page::SourceBranch { project_idx: 0, operation: LocalOp::MergeAll })));
    step(&mut stack, &c, PageEvent::Branch("feature".to_string()));
    match stack.last() {
        Some(Page::ExecutionPreview { plan: ExecutionPlan::Merge { project_idx, source_branch, targets } }) => {
            assert_eq!(*project_idx, 0);
            assert_eq!(source_branch, "feature");
            assert_eq!(targets, &strings(&["uat_m_meger", "test_m_meger"]));
        }
        _ => panic!("expected a merge preview"),
    }
    assert!(matches!(step(&mut stack, &c, PageEvent::Confirm), Effect::Execute));
    stack.push(Page::ExecuteResult { lines: Vec::new() });
    step(&mut stack, &c, PageEvent::Back);
    assert_eq!(stack.len(), 1);
    assert!(matches!(stack.last(), Some(Page::ProjectSelect)));
}

#[test]
fn chosen_merge_branches_go_to_a_preview() {
    let c = config(&["uat", "test", "stage"]);
    let mut stack = vec![Page::LocalOperation { project_idx: 0 }];
    step(&mut stack, &c, PageEvent::Row(3));
    step(&mut stack, &c, PageEvent::Branch("feature".to_string()));
    match stack.last() {
        Some(Page::TargetBranchMulti { state, targets, .. }) => {
            assert_eq!(targets.len(), 3);
            assert_eq!(state.title, "gmux / 目标分支多选");
            assert_eq!(state.details[1], strings(&["环境分支: test", "目标合并分支: test_m_meger", "源分支: feature"]));
        }
        _ => panic!("expected the checklist"),
    }
    step(&mut stack, &c, PageEvent::Ticked(vec![2, 0, 7]));
    match stack.last() {
        Some(Page::ExecutionPreview { plan: ExecutionPlan::Merge { targets, .. } }) => {
            assert_eq!(targets, &strings(&["stage_m_meger", "uat_m_meger"]))
        }
        _ => panic!("expected a merge preview"),
    }
}

#[test]
fn single_merge_and_sync_previews() {
    let c = config(&["uat", "test"]);
    let mut stack = vec![Page::TargetBranch { project_idx: 0, source_branch: "f".to_string() }];
    step(&mut stack, &c, PageEvent::Row(1));
    assert!(matches!(stack.last(), Some(Page::ExecutionPreview { plan: ExecutionPlan::Merge { targets, .. } }) if targets == &strings(&["test_m_meger"])));
    let mut stack = vec![Page::LocalOperation { project_idx: 0 }];
    step(&mut stack, &c, PageEvent::Row(0));
    assert!(matches!(stack.last(), Some(Page::ExecutionPreview { plan: ExecutionPlan::Sync { project_idx: 0 } })));
}

#[test]
fn gitlab_project_list_outcomes() {
    let c = config(&["uat"]);
    let mut stack = vec![Page::MrMenu, Page::GitLabProjectSelect { mr_mode: MrMode::Batch }];
    step(&mut stack, &c, PageEvent::LoadFailed("请求 GitLab 项目列表失败".to_string()));
    assert_eq!(result_text(stack.last().unwrap()), "加载 GitLab 项目列表失败: 请求 GitLab 项目列表失败");
    let mut stack = vec![Page::MrMenu, Page::GitLabProjectSelect { mr_mode: MrMode::Batch }];
    step(&mut stack, &c, PageEvent::NothingLoaded);
    assert_eq!(stack.len(), 1);
    let mut stack = vec![Page::MrMenu, Page::GitLabProjectSelect { mr_mode: MrMode::Batch }];
    step(&mut stack, &c, PageEvent::GitLabProject(7, "shop".to_string()));
    match stack.last() {
        Some(Page::ExecutionPreview { plan: ExecutionPlan::MrBatch { project_id, mappings, .. } }) => {
            assert_eq!(*project_id, 7);
            assert_eq!(mappings, &vec![("uat_m_meger".to_string(), "uat".to_string())]);
        }
        _ => panic!("expected a batch preview"),
    }
}

#[test]
fn chosen_mappings_go_to_a_batch_preview() {
    let mut c = config(&["uat"]);
    c.branch_map.insert("a".to_string(), "x".to_string());
    let mut stack = vec![Page::GitLabProjectSelect { mr_mode: MrMode::BatchCustom }];
    step(&mut stack, &c, PageEvent::GitLabProject(7, "shop".to_string()));
    match stack.last() {
        Some(Page::BranchMapMultiSelect { state, mappings, .. }) => {
            assert_eq!(state.items, strings(&["a -> x", "uat_m_meger -> uat"]));
            assert_eq!(mappings.len(), 2);
        }
        _ => panic!("expected the mapping checklist"),
    }
    step(&mut stack, &c, PageEvent::Ticked(vec![1]));
    assert!(matches!(stack.last(), Some(Page::ExecutionPreview { plan: ExecutionPlan::MrBatch { mappings, .. } }) if mappings.len() == 1 && mappings[0].0 == "uat_m_meger"));
    let mut stack = vec![Page::BranchMapSelect { project_id: 7, project_name: "shop".to_string() }];
    step(&mut stack, &c, PageEvent::Row(0));
    assert!(matches!(stack.last(), Some(Page::ExecutionPreview { plan: ExecutionPlan::MrSingle { source_branch, target_branch, .. } }) if source_branch == "a" && target_branch == "x"));
}

#[test]
fn ready_requires_existing_indices() {
    let c = config(&["uat"]);
    assert!(!ready(&vec![Page::ConfigEnvBranchActions { index: 3 }], &c, &projects()));
    assert!(!ready(&vec![Page::TargetBranch { project_idx: 1, source_branch: "f".to_string() }], &c, &projects()));
    assert!(ready(&vec![Page::ConfigBranchMapTargetSelect {
        draft: BranchMapDraft { original_source: None, source_branch: "s".to_string() },
    }], &c, &projects()));
}

#[test]
fn applying_changes() {
    let mut c = config(&["uat"]);
    c.apply_change(ConfigChange::SetMiddle("x".to_string()));
    c.apply_change(ConfigChange::AddEnvBranch("test".to_string()));
    c.apply_change(ConfigChange::RenameEnvBranch(0, "dev".to_string()));
    assert_eq!(c.project.env_branches, strings(&["dev", "test"]));
    c.apply_change(ConfigChange::RegenerateMap);
    assert_eq!(
        c.branch_map.sorted_entries(),
        vec![("dev_x_meger".to_string(), "dev".to_string()), ("test_x_meger".to_string(), "test".to_string())]
    );
    c.apply_change(ConfigChange::DeleteMapping("dev_x_meger".to_string()));
    assert_eq!(c.branch_map.len(), 1);
    assert!(!ConfigChange::RenameEnvBranch(5, "z".to_string()).fits(&c));
    assert!(ConfigChange::SetToken("t".to_string()).reconnects());
    assert!(!ConfigChange::RegenerateMap.reconnects());
}

fn key(code: KeyCode) -> KeyEvent {
    KeyEvent { code, ctrl: false, press: true }
}

#[test]
fn config_menu_opens_the_project_roots_first() {
    let c = config(&["uat"]);
    let mut stack = vec![Page::MainMenu, Page::ConfigMenu];
    step(&mut stack, &c, PageEvent::Row(0));
    assert!(matches!(stack.last(), Some(Page::ConfigProjectRootsMenu)));
    step(&mut stack, &c, PageEvent::Row(2));
    assert!(matches!(stack.last(), Some(Page::ConfigProjectRootActions { index: 1 })));
    step(&mut stack, &c, PageEvent::Row(0));
    match stack.last() {
        Some(Page::ConfigProjectRootInput { index, state }) => {
            assert_eq!(*index, Some(1));
            assert_eq!(state.value, "/w");
            assert_eq!(state.subtitle, "新增或编辑一个项目根目录");
        }
        _ => panic!("expected the root input"),
    }
    assert!(matches!(step(&mut stack, &c, PageEvent::Text("  ".to_string())), Effect::Nothing));
    assert_eq!(input_error(stack.last().unwrap()), Some("项目根目录不能为空".to_string()));
    match step(&mut stack, &c, PageEvent::Text(" /tmp/x ".to_string())) {
        Effect::CheckRoot { index, path } => {
            assert_eq!(index, Some(1));
            assert_eq!(path, "/tmp/x");
        }
        _ => panic!("expected a root check"),
    }
}

#[test]
fn a_root_that_is_not_a_directory_is_refused() {
    let mut stack = vec![Page::ConfigProjectRootsMenu];
    let c = config(&["uat"]);
    step(&mut stack, &c, PageEvent::Row(0));
    assert!(matches!(root_checked(&mut stack, None, "/nope", false, None), Effect::Nothing));
    assert_eq!(input_error(stack.last().unwrap()), Some("项目根目录不存在: /nope".to_string()));
    assert!(matches!(root_checked(&mut stack, None, "/odd", true, None), Effect::Nothing));
    assert_eq!(input_error(stack.last().unwrap()), Some("规范化项目根目录失败: /odd".to_string()));
    match root_checked(&mut stack, None, "x", true, Some("/abs/x".to_string())) {
        Effect::Save { change: ConfigChange::SaveRoot(None, root), then, failure } => {
            assert_eq!(root, "/abs/x");
            assert!(then == AfterSave::Close);
            assert!(matches!(failure, SaveFailure::OnInput));
        }
        _ => panic!("expected a save of the root"),
    }
}

#[test]
fn deleting_a_root_needs_another_one() {
    let mut c = config(&["uat"]);
    let mut stack = vec![Page::ConfigProjectRootsMenu, Page::ConfigProjectRootActions { index: 0 }];
    match step(&mut stack, &c, PageEvent::Row(1)) {
        Effect::Save { change, then, failure } => {
            assert!(matches!(change, ConfigChange::DeleteRoot(0)));
            assert!(matches!(&failure, SaveFailure::Report(p) if p == "删除项目根目录失败"));
            c.apply_change(change);
            assert_eq!(c.project.root_dirs, strings(&["/w"]));
            finish_save(&mut stack, then, failure, Ok(()));
            assert_eq!(stack.len(), 1);
        }
        _ => panic!("expected a deletion"),
    }
    let mut stack = vec![Page::ConfigProjectRootsMenu, Page::ConfigProjectRootActions { index: 0 }];
    assert!(matches!(step(&mut stack, &c, PageEvent::Row(1)), Effect::Nothing));
    assert_eq!(stack.len(), 1);
}

#[test]
fn preview_keys() {
    assert!(matches!(preview_key(false, key(KeyCode::Enter)), (false, Some(PageEvent::Confirm))));
    assert!(matches!(preview_key(false, key(KeyCode::Char('?'))), (true, None)));
    assert!(matches!(preview_key(false, key(KeyCode::Char('b'))), (false, Some(PageEvent::Back))));
    assert!(matches!(preview_key(false, key(KeyCode::Esc)), (false, Some(PageEvent::Back))));
    assert!(matches!(preview_key(false, key(KeyCode::Char('q'))), (false, Some(PageEvent::Quit))));
    assert!(matches!(preview_key(false, key(KeyCode::Char('x'))), (false, None)));
    assert!(matches!(preview_key(true, key(KeyCode::Enter)), (true, None)));
    assert!(matches!(preview_key(true, key(KeyCode::Esc)), (false, None)));
    assert!(matches!(preview_key(true, key(KeyCode::Char('q'))), (true, Some(PageEvent::Quit))));
    let release = KeyEvent { code: KeyCode::Enter, ctrl: false, press: false };
    assert!(matches!(preview_key(false, release), (false, None)));
}

#[test]
fn results_keys() {
    assert!(matches!(results_key(false, key(KeyCode::Char('x'))), (false, Some(PageEvent::Back))));
    assert!(matches!(results_key(false, key(KeyCode::Char('?'))), (true, None)));
    assert!(matches!(results_key(true, key(KeyCode::Char('x'))), (true, None)));
    assert!(matches!(results_key(true, key(KeyCode::Char('b'))), (false, None)));
}
