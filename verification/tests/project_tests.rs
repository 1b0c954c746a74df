use gmux::config::{BranchMap, Config, GitLabConfig, ProjectConfig};
use gmux::git::{GitCommand, MergeResult};
use gmux::project::{
    get_target_merge_branches, merge_to_targets, select_projects, sync_and_push, BranchRun,
    reply_of_run, select_projects_in_roots, GitReply, Project, RepoCandidate, RootScan, ScanError,
};

fn strings(v: &[&str]) -> Vec<String> {
    v.iter().map(|s| s.to_string()).collect()
}

fn config(middle: &str, envs: &[&str]) -> Config {
    Config {
        gitlab: GitLabConfig { host: "h".to_string(), token: "t".to_string() },
        project: ProjectConfig {
            root_dirs: vec!["/r".to_string()],
            merge_branch_middle: middle.to_string(),
            env_branches: strings(envs),
        },
        branch_map: BranchMap::new(),
    }
}

fn project(name: &str) -> Project {
    Project { name: name.to_string(), path: format!("/r/{name}"), source_root: "/r".to_string() }
}

fn describe(c: &GitCommand) -> String {
    match c {
        GitCommand::BranchExists(b) => format!("exists {b}"),
        GitCommand::Checkout(b) => format!("checkout {b}"),
        GitCommand::CheckoutNewBranch { new_branch, from } => format!("new {new_branch} {from}"),
        GitCommand::Pull(b) => format!("pull {b}"),
        GitCommand::Merge(b) => format!("merge {b}"),
        GitCommand::Push(b) => format!("push {b}"),
    }
}

/// Runs a branch run, answering each command with the next reply, and
/// returns the commands it asked for.
fn drive(run: &mut BranchRun, replies: Vec<GitReply>) -> Vec<String> {
    let mut asked = Vec::new();
    for reply in replies {
        let c = run.next_command().expect("the run asked for no command");
        asked.push(describe(&c));
        assert!(run.accepts(&reply));
        run.feed(reply);
    }
    assert!(run.is_finished());
    assert!(run.next_command().is_none());
    asked
}

fn candidate(name: &str, is_dir: bool, has_git_dir: bool) -> RepoCandidate {
    RepoCandidate { name: name.to_string(), path: format!("/r/{name}"), is_dir, has_git_dir }
}

#[test]
fn target_merge_branches_pair_each_environment() {
    let c = config("PROJECT_NAME", &["uat", "test"]);
    assert_eq!(
        get_target_merge_branches(&c, "shop"),
        vec![
            ("uat".to_string(), "uat_shop_meger".to_string()),
            ("test".to_string(), "test_shop_meger".to_string()),
        ]
    );
}

#[test]
fn sync_creates_a_missing_merge_branch() {
    let c = config("m", &["uat"]);
    let mut run = sync_and_push(&project("shop"), &c);
    let asked = drive(
        &mut run,
        vec![
            GitReply::Exists(true),
            GitReply::Done,
            GitReply::Done,
            GitReply::Exists(false),
            GitReply::Done,
            GitReply::Done,
        ],
    );
    assert_eq!(
        asked,
        strings(&[
            "exists uat",
            "checkout uat",
            "pull uat",
            "exists uat_m_meger",
            "new uat_m_meger uat",
            "push uat_m_meger",
        ])
    );
    let results = run.into_results();
    assert_eq!(results.len(), 1);
    assert!(results[0].success);
    assert_eq!(results[0].branch, "uat");
    assert_eq!(results[0].target, "uat_m_meger");
    assert_eq!(results[0].message, "创建并推送新分支: uat_m_meger");
}

#[test]
fn sync_merges_into_an_existing_merge_branch() {
    let c = config("m", &["uat"]);
    let mut run = sync_and_push(&project("shop"), &c);
    let asked = drive(
        &mut run,
        vec![
            GitReply::Exists(true),
            GitReply::Done,
            GitReply::Done,
            GitReply::Exists(true),
            GitReply::Done,
            GitReply::Merged(MergeResult::Success),
            GitReply::Done,
        ],
    );
    assert_eq!(
        asked,
        strings(&[
            "exists uat",
            "checkout uat",
            "pull uat",
            "exists uat_m_meger",
            "checkout uat_m_meger",
            "merge uat",
            "push uat_m_meger",
        ])
    );
    let results = run.into_results();
    assert!(results[0].success);
    assert_eq!(results[0].message, "同步完成: uat -> uat_m_meger");
}

#[test]
fn sync_reports_a_missing_environment_branch_and_continues() {
    let c = config("m", &["uat", "test"]);
    let mut run = sync_and_push(&project("shop"), &c);
    drive(
        &mut run,
        vec![
            GitReply::Exists(false),
            GitReply::Exists(true),
            GitReply::Done,
            GitReply::Done,
            GitReply::Exists(true),
            GitReply::Done,
            GitReply::Merged(MergeResult::AlreadyUpToDate),
        ],
    );
    let results = run.into_results();
    assert_eq!(results.len(), 2);
    assert!(!results[0].success);
    assert_eq!(results[0].message, "更新分支失败: 分支 uat 不存在");
    assert!(results[1].success);
    assert_eq!(results[1].message, "已是最新: test -> test_m_meger");
}

#[test]
fn sync_reports_a_failed_pull() {
    let c = config("m", &["uat"]);
    let mut run = sync_and_push(&project("shop"), &c);
    drive(
        &mut run,
        vec![GitReply::Exists(true), GitReply::Done, GitReply::Failed("no network".to_string())],
    );
    let results = run.results();
    assert!(!results[0].success);
    assert_eq!(results[0].message, "更新分支失败: no network");
}

#[test]
fn merge_conflict_names_the_conflicting_files() {
    let mut run = merge_to_targets(&project("shop"), "feature", &strings(&["uat_m_meger"]));
    let asked = drive(
        &mut run,
        vec![
            GitReply::Exists(true),
            GitReply::Done,
            GitReply::Merged(MergeResult::Conflict { files: strings(&["a.rs", "b.rs"]) }),
        ],
    );
    assert_eq!(asked, strings(&["exists uat_m_meger", "checkout uat_m_meger", "merge feature"]));
    let results = run.into_results();
    assert!(!results[0].success);
    assert_eq!(
        results[0].message,
        "合并冲突已自动中止: feature -> uat_m_meger，冲突文件: a.rs, b.rs"
    );
}

#[test]
fn merge_conflict_without_known_files() {
    let mut run = merge_to_targets(&project("shop"), "feature", &strings(&["t"]));
    drive(
        &mut run,
        vec![
            GitReply::Exists(true),
            GitReply::Done,
            GitReply::Merged(MergeResult::Conflict { files: Vec::new() }),
        ],
    );
    assert_eq!(
        run.into_results()[0].message,
        "合并冲突已自动中止: feature -> t，冲突文件: （无法获取冲突文件）"
    );
}

#[test]
fn merge_into_several_targets_in_order() {
    let mut run = merge_to_targets(&project("shop"), "feature", &strings(&["a", "b"]));
    let asked = drive(
        &mut run,
        vec![
            GitReply::Exists(false),
            GitReply::Failed("cannot create".to_string()),
            GitReply::Exists(true),
            GitReply::Done,
            GitReply::Merged(MergeResult::Success),
            GitReply::Failed("rejected".to_string()),
        ],
    );
    assert_eq!(
        asked,
        strings(&["exists a", "new a feature", "exists b", "checkout b", "merge feature", "push b"])
    );
    let results = run.into_results();
    assert_eq!(results.len(), 2);
    assert_eq!(results[0].message, "cannot create");
    assert_eq!(results[1].message, "rejected");
    assert!(!results[1].success);
}

#[test]
fn merge_to_no_targets_is_finished_at_once() {
    let run = merge_to_targets(&project("shop"), "feature", &Vec::new());
    assert!(run.is_finished());
    assert!(run.next_command().is_none());
    assert!(run.into_results().is_empty());
}

#[test]
fn a_run_refuses_a_reply_of_the_wrong_kind() {
    let run = merge_to_targets(&project("shop"), "feature", &strings(&["a"]));
    assert!(!run.accepts(&GitReply::Done));
    assert!(run.accepts(&GitReply::Exists(true)));
}

#[test]
fn select_projects_sorts_repositories_by_name() {
    let found = select_projects(
        &"/r".to_string(),
        true,
        &vec![
            candidate("zeta", true, true),
            candidate("notes.txt", false, false),
            candidate("alpha", true, true),
            candidate("plain", true, false),
        ],
    );
    match found {
        Ok(ps) => {
            let names: Vec<String> = ps.iter().map(|p| p.name.clone()).collect();
            assert_eq!(names, strings(&["alpha", "zeta"]));
            assert_eq!(ps[0].path, "/r/alpha");
            assert_eq!(ps[0].source_root, "/r");
        }
        Err(e) => panic!("unexpected error: {}", e.message()),
    }
}

#[test]
fn select_projects_reports_a_missing_root() {
    match select_projects(&"/nowhere".to_string(), false, &Vec::new()) {
        Err(e @ ScanError::RootMissing(_)) => assert_eq!(e.message(), "项目根目录不存在: /nowhere"),
        _ => panic!("expected a missing root"),
    }
}

#[test]
fn select_projects_reports_no_repositories() {
    match select_projects(&"/r".to_string(), true, &vec![candidate("plain", true, false)]) {
        Err(e @ ScanError::NoRepositories(_)) => {
            assert_eq!(e.message(), "在目录 /r 中未找到任何 Git 仓库")
        }
        _ => panic!("expected no repositories"),
    }
}

#[test]
fn projects_of_several_roots_come_root_by_root() {
    let scans = vec![
        RootScan { root: "/r".to_string(), is_dir: true, candidates: vec![candidate("zeta", true, true)] },
        RootScan { root: "/w".to_string(), is_dir: true, candidates: vec![candidate("alpha", true, true)] },
    ];
    match select_projects_in_roots(&scans) {
        Ok(ps) => {
            let names: Vec<String> = ps.iter().map(|p| p.name.clone()).collect();
            assert_eq!(names, strings(&["zeta", "alpha"]));
            assert_eq!(ps[1].source_root, "/w");
        }
        Err(e) => panic!("unexpected error: {}", e.message()),
    }
    let scans = vec![
        RootScan { root: "/r".to_string(), is_dir: true, candidates: vec![candidate("zeta", true, true)] },
        RootScan { root: "/gone".to_string(), is_dir: false, candidates: Vec::new() },
    ];
    match select_projects_in_roots(&scans) {
        Err(e) => assert_eq!(e.message(), "项目根目录不存在: /gone"),
        Ok(_) => panic!("expected the missing root"),
    }
}

#[test]
fn replies_of_git_runs() {
    let merge = GitCommand::Merge("feature".to_string());
    assert!(matches!(
        reply_of_run(&merge, true, true, b"Already up to date.\n", b"", None),
        GitReply::Merged(MergeResult::AlreadyUpToDate)
    ));
    assert!(matches!(
        reply_of_run(&merge, true, true, b"Fast-forward\n", b"", None),
        GitReply::Merged(MergeResult::Success)
    ));
    match reply_of_run(&merge, true, false, b"", b"CONFLICT", Some(strings(&["a.txt"]))) {
        GitReply::Merged(MergeResult::Conflict { files }) => assert_eq!(files, strings(&["a.txt"])),
        _ => panic!("expected a conflict"),
    }
    match reply_of_run(&merge, true, false, b"", b"not something we can merge", None) {
        GitReply::Failed(e) => assert_eq!(e, "合并失败 feature: not something we can merge"),
        _ => panic!("expected a failure"),
    }
    match reply_of_run(&merge, false, false, b"", b"", None) {
        GitReply::Failed(e) => assert_eq!(e, "执行 git merge 失败"),
        _ => panic!("expected a spawn failure"),
    }
    let push = GitCommand::Push("t".to_string());
    assert!(matches!(reply_of_run(&push, true, true, b"", b"", None), GitReply::Done));
    match reply_of_run(&push, true, false, b"", b"denied", Some(Vec::new())) {
        GitReply::Failed(e) => assert_eq!(e, "推送失败 t: denied"),
        _ => panic!("expected a failure"),
    }
}
