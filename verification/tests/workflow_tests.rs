use gmux::config::{BranchMap, Config, GitLabConfig, ProjectConfig};
use gmux::project::{BranchOpResult, Project};
use gmux::workflow::{
    build_execution_help, build_execution_preview, can_mask_token, current_branch_line,
    custom_target, delete_confirm_choice, describe_branch_presence, list_menu_choice, mask_token,
    merge_preflight_lines, merge_result_lines, no_mapping_lines, no_target_lines, pop_after_results,
    result_lines, sync_preflight_lines, target_select_choice, tracking_line, worktree_line,
    targets_for_operation, DeleteChoice, ExecutionPlan, ListChoice, LocalOp, MrRun, MrStep, Page,
    TargetChoice,
};

fn strings(v: &[&str]) -> Vec<String> {
    v.iter().map(|s| s.to_string()).collect()
}

fn config(middle: &str, envs: &[&str]) -> Config {
    Config {
        gitlab: GitLabConfig { host: "h".to_string(), token: "t".to_string() },
        project: ProjectConfig {
            root_dirs: vec!["/r".to_string()],
            merge_branch_middle: middle.to_string(),
            env_branches: strings(envs),
        },
        branch_map: BranchMap::new(),
    }
}

fn shop() -> Project {
    Project { name: "shop".to_string(), path: "/r/shop".to_string(), source_root: "/r".to_string() }
}

fn lines(v: &[(bool, &str)]) -> Vec<(bool, String)> {
    v.iter().map(|(ok, s)| (*ok, s.to_string())).collect()
}

fn top_is_menu(stack: &[Page], menu: &str) -> bool {
    match (stack.last(), menu) {
        (Some(Page::MainMenu), "main") => true,
        (Some(Page::MrMenu), "mr") => true,
        (Some(Page::ProjectSelect), "projects") => true,
        _ => false,
    }
}

#[test]
fn leaving_results_returns_to_the_menu_that_started_the_operation() {
    let mut stack = vec![
        Page::MainMenu,
        Page::ProjectSelect,
        Page::LocalOperation { project_idx: 0 },
        Page::SourceBranch { project_idx: 0, operation: LocalOp::MergeAll },
        Page::ExecutionPreview { plan: ExecutionPlan::Sync { project_idx: 0 } },
        Page::ExecuteResult { lines: Vec::new() },
    ];
    pop_after_results(&mut stack);
    assert_eq!(stack.len(), 2);
    assert!(top_is_menu(&stack, "projects"));

    let mut mr = vec![
        Page::MainMenu,
        Page::MrMenu,
        Page::GitLabProjectSelect { mr_mode: gmux::workflow::MrMode::Batch },
        Page::BranchMapSelect { project_id: 1, project_name: "p".to_string() },
        Page::ExecuteResult { lines: Vec::new() },
    ];
    pop_after_results(&mut mr);
    assert!(top_is_menu(&mr, "mr"));

    let mut empty: Vec<Page> = Vec::new();
    pop_after_results(&mut empty);
    assert!(empty.is_empty());
}

#[test]
fn result_lines_report_each_branch() {
    let results = vec![
        BranchOpResult {
            branch: "uat".to_string(),
            target: "uat_m_meger".to_string(),
            success: true,
            message: "同步完成: uat -> uat_m_meger".to_string(),
        },
        BranchOpResult {
            branch: "f".to_string(),
            target: "t".to_string(),
            success: false,
            message: "boom".to_string(),
        },
    ];
    assert_eq!(
        result_lines(&results),
        lines(&[(true, "uat -> uat_m_meger: 同步完成: uat -> uat_m_meger"), (false, "f -> t: boom")])
    );
    assert_eq!(no_target_lines(), lines(&[(false, "未选择目标分支")]));
    assert_eq!(no_mapping_lines(), lines(&[(false, "未选择任何分支映射")]));
}

#[test]
fn merge_all_targets_every_merge_branch() {
    let c = config("PROJECT_NAME", &["uat", "test"]);
    assert_eq!(
        targets_for_operation(&c, "shop", LocalOp::MergeAll),
        strings(&["uat_shop_meger", "test_shop_meger"])
    );
    assert!(targets_for_operation(&c, "shop", LocalOp::MergeSingle).is_empty());
}

#[test]
fn token_masking() {
    assert_eq!(mask_token(""), "(未设置)");
    assert_eq!(mask_token("abc"), "abc****");
    assert_eq!(mask_token("glpat-1234567"), "glpat-****");
    assert!(can_mask_token("glpat-1234567"));
    assert!(can_mask_token("漢字"));
    assert!(!can_mask_token("ab漢字"));
}

#[test]
fn branch_presence_lines() {
    assert_eq!(
        describe_branch_presence("源分支", "f", "hint", true, true),
        "[OK] 源分支 `f` 已存在于本地和 origin"
    );
    assert_eq!(
        describe_branch_presence("源分支", "f", "hint", true, false),
        "[WARN] 源分支 `f` 仅存在于本地，origin 上不存在"
    );
    assert_eq!(
        describe_branch_presence("目标分支", "t", "hint", false, true),
        "[OK] 目标分支 `t` 仅存在于 origin，本地将在需要时检出"
    );
    assert_eq!(
        describe_branch_presence("目标分支", "t", "执行时会自动创建", false, false),
        "[WARN] 目标分支 `t` 本地和 origin 都不存在，执行时会自动创建"
    );
}

#[test]
fn current_branch_lines() {
    assert_eq!(current_branch_line(&Ok(Some("main".to_string()))), "[OK] 当前检出分支: main");
    assert_eq!(current_branch_line(&Ok(None)), "[WARN] 当前仓库处于 detached HEAD");
    assert_eq!(current_branch_line(&Err("x".to_string())), "[WARN] 无法检测当前分支: x");
}

#[test]
fn list_menu_rows() {
    assert!(list_menu_choice(0, 2) == ListChoice::Add);
    assert!(list_menu_choice(2, 2) == ListChoice::Select(1));
    assert!(list_menu_choice(3, 2) == ListChoice::Back);
    assert!(list_menu_choice(4, 2) == ListChoice::Nothing);
}

#[test]
fn delete_confirmation_rows() {
    assert!(delete_confirm_choice(false, 0) == DeleteChoice::DeleteOnly);
    assert!(delete_confirm_choice(false, 1) == DeleteChoice::Back);
    assert!(delete_confirm_choice(true, 0) == DeleteChoice::DeleteWithMappings);
    assert!(delete_confirm_choice(true, 1) == DeleteChoice::DeleteOnly);
    assert!(delete_confirm_choice(true, 2) == DeleteChoice::Back);
    assert!(delete_confirm_choice(true, 3) == DeleteChoice::Nothing);
}

#[test]
fn target_menu_rows() {
    assert!(target_select_choice(true, 2, 0) == TargetChoice::KeepExisting);
    assert!(target_select_choice(true, 2, 2) == TargetChoice::Env(1));
    assert!(target_select_choice(true, 2, 3) == TargetChoice::Custom);
    assert!(target_select_choice(true, 2, 4) == TargetChoice::Back);
    assert!(target_select_choice(false, 2, 0) == TargetChoice::Env(0));
    assert!(target_select_choice(false, 2, 5) == TargetChoice::Nothing);
}

#[test]
fn custom_target_only_for_non_environment_targets() {
    let mut c = config("m", &["uat"]);
    c.branch_map.insert("a".to_string(), "uat".to_string());
    c.branch_map.insert("b".to_string(), "release".to_string());
    assert_eq!(custom_target(&c, Some("a")), None);
    assert_eq!(custom_target(&c, Some("b")), Some("release".to_string()));
    assert_eq!(custom_target(&c, Some("c")), None);
    assert_eq!(custom_target(&c, None), None);
}

#[test]
fn sync_preview_lists_every_branch() {
    let c = config("m", &["uat"]);
    let (title, subtitle, body) = build_execution_preview(
        &ExecutionPlan::Sync { project_idx: 0 },
        &shop(),
        &c,
        &strings(&["[OK] 工作区干净"]),
    );
    assert_eq!(title, "gmux / 执行预览");
    assert_eq!(subtitle, "确认本地同步操作影响范围");
    assert_eq!(
        body,
        strings(&[
            "项目: shop",
            "仓库路径: /r/shop",
            "",
            "执行前检查:",
            "[OK] 工作区干净",
            "",
            "即将执行以下步骤:",
            "- 更新环境分支 `uat` 并 pull 最新代码",
            "- 同步到合并分支 `uat_m_meger` 并 push",
            "",
            "当前只是预览，按 Enter 后才会真正执行。",
        ])
    );
}

#[test]
fn merge_preview_lists_every_target() {
    let c = config("m", &["uat"]);
    let plan = ExecutionPlan::Merge {
        project_idx: 0,
        source_branch: "feature".to_string(),
        targets: strings(&["a", "b"]),
    };
    let (_, subtitle, body) = build_execution_preview(&plan, &shop(), &c, &Vec::new());
    assert_eq!(subtitle, "确认本地合并操作影响范围");
    assert_eq!(body[2], "源分支: feature");
    assert_eq!(body[3], "目标分支数量: 2");
    assert_eq!(body[8], "- checkout `a`");
    assert_eq!(body[9], "- merge `feature` 到 `a`");
    assert_eq!(body[13], "- push `b`");
    assert_eq!(body.len(), 16);
}

#[test]
fn merge_request_previews() {
    let c = config("m", &["uat"]);
    let single = ExecutionPlan::MrSingle {
        project_id: 12,
        project_name: "shop".to_string(),
        source_branch: "f".to_string(),
        target_branch: "t".to_string(),
    };
    let (_, _, body) = build_execution_preview(&single, &shop(), &c, &Vec::new());
    assert_eq!(body[1], "项目 ID: 12");
    assert_eq!(body[6], "- 调用 GitLab API 创建 MR: `f` -> `t`");

    let batch = ExecutionPlan::MrBatch {
        project_id: 12,
        project_name: "shop".to_string(),
        mappings: vec![("a".to_string(), "b".to_string())],
    };
    let (_, subtitle, body) = build_execution_preview(&batch, &shop(), &c, &Vec::new());
    assert_eq!(subtitle, "确认批量 GitLab MR 的创建与后续动作");
    assert_eq!(body[2], "计划创建 MR 数量: 1");
    assert_eq!(body[5], "- 创建 MR: `a` -> `b`");
    assert_eq!(build_execution_help(&batch).len(), 3);
    assert_eq!(
        build_execution_help(&ExecutionPlan::Sync { project_idx: 0 })[2],
        "按 Enter 才会真正开始执行；按 b 返回上一层。"
    );
}

#[test]
fn single_merge_request_run() {
    let mut run = MrRun::single("f".to_string(), "t".to_string());
    match run.next_step() {
        Some(MrStep::Create { source, target }) => {
            assert_eq!(source, "f");
            assert_eq!(target, "t");
        }
        _ => panic!("expected a creation"),
    }
    run.feed_create(Ok((5, "https://g/mr/5".to_string())));
    match run.next_step() {
        Some(MrStep::ApproveAndMerge { iid }) => assert_eq!(iid, 5),
        _ => panic!("expected approval"),
    }
    run.feed_finish(Err("审批失败".to_string()));
    assert!(run.is_finished());
    assert_eq!(
        run.into_lines(),
        lines(&[(true, "MR 创建成功: https://g/mr/5 (IID: 5)"), (false, "MR 审批/合并失败: 审批失败")])
    );
}

#[test]
fn batch_merge_request_run_skips_failed_creations() {
    let mut run = MrRun::batch(vec![
        ("a".to_string(), "x".to_string()),
        ("b".to_string(), "y".to_string()),
    ]);
    run.feed_create(Err("conflict".to_string()));
    run.feed_create(Ok((9, "u".to_string())));
    match run.next_step() {
        Some(MrStep::ApproveAndMerge { iid }) => assert_eq!(iid, 9),
        _ => panic!("expected approval"),
    }
    run.feed_finish(Ok(()));
    assert!(run.next_step().is_none());
    assert_eq!(
        run.into_lines(),
        lines(&[
            (false, "创建 MR 失败 a -> x: conflict"),
            (true, "MR 创建成功: b -> y (IID: 9)"),
            (true, "已审批并合并: b -> y"),
        ])
    );
}

#[test]
fn empty_batch_reports_no_mapping() {
    let run = MrRun::batch(Vec::new());
    assert!(run.is_finished());
    assert_eq!(run.into_lines(), lines(&[(false, "未选择任何分支映射")]));
}

#[test]
fn worktree_lines() {
    assert_eq!(worktree_line(&Ok(true)), "[WARN] 工作区存在未提交改动，切换/合并分支时可能失败或引入额外风险");
    assert_eq!(worktree_line(&Ok(false)), "[OK] 工作区干净，没有未提交改动");
    assert_eq!(worktree_line(&Err("boom".to_string())), "[WARN] 无法检查工作区状态: boom");
}

#[test]
fn tracking_lines_in_six_cases() {
    assert_eq!(tracking_line("dev", &Ok(Some((0, 0)))), "[OK] 分支 `dev` 与 origin 保持同步");
    assert_eq!(tracking_line("dev", &Ok(Some((3, 0)))), "[WARN] 分支 `dev` 比 origin 领先 3 个提交");
    assert_eq!(tracking_line("dev", &Ok(Some((0, 12)))), "[WARN] 分支 `dev` 比 origin 落后 12 个提交");
    assert_eq!(tracking_line("dev", &Ok(Some((2, 5)))), "[WARN] 分支 `dev` 与 origin 已分叉：领先 2，落后 5");
    assert_eq!(tracking_line("dev", &Ok(None)), "[INFO] 分支 `dev` 缺少本地或远端一侧，无法计算 ahead/behind");
    assert_eq!(
        tracking_line("dev", &Err("x".to_string())),
        "[WARN] 无法检查分支 `dev` 的远端跟踪状态: x"
    );
}

#[test]
fn sync_preflight_puts_worktree_and_branch_first() {
    let pairs = vec![("uat".to_string(), "uat_m_meger".to_string())];
    let lines = sync_preflight_lines(&Ok(false), &Ok(Some("main".to_string())), &pairs, &vec![((true, true), (false, false))]);
    assert_eq!(
        lines,
        strings(&[
            "[OK] 工作区干净，没有未提交改动",
            "[OK] 当前检出分支: main",
            "[OK] 环境分支 `uat` 已存在于本地和 origin",
            "[WARN] 目标合并分支 `uat_m_meger` 本地和 origin 都不存在，不存在时会在执行中创建",
        ])
    );
}

#[test]
fn merge_preflight_adds_tracking_lines() {
    let lines = merge_preflight_lines(
        &Ok(true),
        &Ok(None),
        "feature",
        (true, false),
        &Ok(None),
        &strings(&["t"]),
        &vec![(true, true)],
        &vec![Ok(Some((1, 0)))],
    );
    assert_eq!(
        lines,
        strings(&[
            "[WARN] 工作区存在未提交改动，切换/合并分支时可能失败或引入额外风险",
            "[WARN] 当前仓库处于 detached HEAD",
            "[WARN] 源分支 `feature` 仅存在于本地，origin 上不存在",
            "[INFO] 分支 `feature` 缺少本地或远端一侧，无法计算 ahead/behind",
            "[OK] 目标合并分支 `t` 已存在于本地和 origin",
            "[WARN] 分支 `t` 比 origin 领先 1 个提交",
        ])
    );
}

#[test]
fn merge_without_targets_reports_it() {
    let r = merge_result_lines(&Vec::new(), &Vec::new());
    assert_eq!(r, vec![(false, "未选择目标分支".to_string())]);
    let results = vec![BranchOpResult { branch: "f".to_string(), target: "t".to_string(), success: true, message: "ok".to_string() }];
    let r = merge_result_lines(&strings(&["t"]), &results);
    assert_eq!(r, vec![(true, "f -> t: ok".to_string())]);
}
