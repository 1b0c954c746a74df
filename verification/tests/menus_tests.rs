use gmux::config::{BranchMap, Config, GitLabConfig, ProjectConfig};
use gmux::gitlab::GitLabProject;
use gmux::menus::{
    branch_map_screen, config_menu_screen, delete_confirm_screen, env_actions_screen,
    env_branches_screen, gitlab_projects_screen, main_menu_screen, mr_menu_screen,
    project_root_actions_screen, project_roots_screen, project_select_screen, results_help, root_label, source_branch_screen, target_select_screen,
};
use gmux::project::Project;
use gmux::workflow::BranchMapDraft;

fn strings(v: &[&str]) -> Vec<String> {
    v.iter().map(|s| s.to_string()).collect()
}

fn config(envs: &[&str], token: &str) -> Config {
    let mut c = Config {
        gitlab: GitLabConfig { host: "git.corp".to_string(), token: token.to_string() },
        project: ProjectConfig {
            root_dirs: vec!["/r".to_string(), "/home/u/work/".to_string()],
            merge_branch_middle: "henry".to_string(),
            env_branches: strings(envs),
        },
        branch_map: BranchMap::new(),
    };
    c.ensure_branch_map();
    c
}

#[test]
fn main_menu_offers_the_four_workflows() {
    let m = main_menu_screen();
    assert_eq!(m.title, "gmux");
    assert_eq!(m.items, strings(&["本地分支同步 / 合并（含推送）", "GitLab MR 创建", "配置管理", "退出程序"]));
    assert_eq!(m.details.len(), 4);
    assert_eq!(m.details[3], strings(&["结束 gmux。"]));
    assert!(m.search_hint.is_none());
}

#[test]
fn config_menu_masks_the_token_and_previews_the_map() {
    let c = config(&["dev", "test"], "glpat-abcdef");
    let m = config_menu_screen(&c, "/home/u/.config/gmux/gmux.toml");
    assert_eq!(m.items.len(), 8);
    assert_eq!(m.items[0], "管理项目根目录");
    assert_eq!(
        m.details[0],
        strings(&["当前共 2 个项目根目录", "当前值: /r | /home/u/work/", "gmux 会汇总扫描这些目录下的本地 Git 仓库。"])
    );
    assert_eq!(m.details[1], strings(&["当前共 2 个环境分支", "当前值: dev test"]));
    assert_eq!(
        m.details[2],
        strings(&["当前共 2 组映射", "dev_henry_meger -> dev", "test_henry_meger -> test"])
    );
    assert_eq!(m.details[3][0], "当前值: henry");
    assert_eq!(m.details[4][0], "当前值: git.corp");
    assert_eq!(m.details[5][0], "当前 Token: glpat-****");
    assert_eq!(m.details[7][0], "配置路径: /home/u/.config/gmux/gmux.toml");
    assert_eq!(m.help.len(), 5);
}

#[test]
fn config_menu_shows_an_unset_token_and_an_empty_map() {
    let mut c = config(&[], "");
    c.branch_map = BranchMap::new();
    let m = config_menu_screen(&c, "/c");
    assert_eq!(m.details[5][0], "当前 Token: (未设置)");
    assert_eq!(m.details[2], strings(&["当前共 0 组映射", "当前没有映射"]));
}

#[test]
fn config_menu_shows_at_most_four_mappings() {
    let c = config(&["a", "b", "c", "d", "e"], "tok");
    let m = config_menu_screen(&c, "/c");
    assert_eq!(m.details[2].len(), 5);
    assert_eq!(m.details[2][0], "当前共 5 组映射");
    assert_eq!(m.details[5][0], "当前 Token: tok****");
}

#[test]
fn env_branches_list_numbers_the_branches() {
    let c = config(&["dev", "uat"], "t");
    let m = env_branches_screen(&c);
    assert_eq!(m.items, strings(&["新增环境分支", "dev", "uat", "返回配置管理"]));
    assert_eq!(m.details[2], strings(&["当前顺序: 2", "分支名: uat", "进入后可以重命名、删除或调整顺序。"]));
}

#[test]
fn env_actions_name_the_branch() {
    let c = config(&["dev", "uat"], "t");
    let m = env_actions_screen(&c, 1);
    assert_eq!(m.subtitle, "正在管理环境分支: uat");
    assert_eq!(m.items, strings(&["重命名", "上移", "下移", "删除", "返回环境分支列表"]));
    assert_eq!(m.details[1], strings(&["当前顺序: 2"]));
}

#[test]
fn delete_confirm_without_linked_mappings() {
    let m = delete_confirm_screen("uat", &Vec::new());
    assert_eq!(m.items, strings(&["确认删除环境分支", "取消"]));
    assert_eq!(m.details[0], strings(&["将删除环境分支: uat"]));
}

#[test]
fn delete_confirm_with_linked_mappings() {
    let m = delete_confirm_screen("uat", &strings(&["uat_henry_meger", "hotfix"]));
    assert_eq!(
        m.items,
        strings(&["删除环境分支，并删除 2 组关联映射", "只删除环境分支，保留现有映射", "取消"])
    );
    assert_eq!(
        m.details[0],
        strings(&["将删除环境分支: uat", "关联映射: uat_henry_meger -> uat", "关联映射: hotfix -> uat"])
    );
}

#[test]
fn branch_map_list_is_sorted_and_searchable() {
    let c = config(&["test", "dev"], "t");
    let m = branch_map_screen(&c);
    assert_eq!(
        m.items,
        strings(&["新增映射", "dev_henry_meger -> dev", "test_henry_meger -> test", "返回配置管理"])
    );
    assert_eq!(m.search_hint, Some("输入源分支或目标分支关键词".to_string()));
}

#[test]
fn target_select_keeps_a_custom_target_first() {
    let mut c = config(&["dev"], "t");
    c.branch_map.insert("feature".to_string(), "release".to_string());
    let draft = BranchMapDraft { original_source: Some("feature".to_string()), source_branch: "feature".to_string() };
    let m = target_select_screen(&c, &draft);
    assert_eq!(
        m.items,
        strings(&["保留当前自定义目标分支: release", "使用环境分支: dev", "手动输入其他目标分支", "返回上一步"])
    );
    assert_eq!(m.subtitle, "为 `feature` 选择目标分支");
    assert_eq!(m.details[0], strings(&["源分支: feature", "目标分支: release"]));
}

#[test]
fn target_select_for_a_new_entry_offers_the_environments() {
    let c = config(&["dev", "uat"], "t");
    let draft = BranchMapDraft { original_source: None, source_branch: "x".to_string() };
    let m = target_select_screen(&c, &draft);
    assert_eq!(
        m.items,
        strings(&["使用环境分支: dev", "使用环境分支: uat", "手动输入其他目标分支", "返回上一步"])
    );
}

#[test]
fn mr_menu_counts_the_mappings() {
    let c = config(&["dev", "test", "uat"], "t");
    let m = mr_menu_screen(&c);
    assert_eq!(m.items[1], "批量创建（全部 3 组映射）");
}

#[test]
fn gitlab_projects_show_name_and_id() {
    let projects = vec![GitLabProject { id: 7, name: "shop".to_string() }];
    let m = gitlab_projects_screen(&projects);
    assert_eq!(m.items, strings(&["shop  [ID: 7]"]));
    assert_eq!(m.details[0], strings(&["名称: shop", "ID: 7"]));
    assert_eq!(m.search_hint, Some("输入项目名或 ID 关键词".to_string()));
}

#[test]
fn project_select_shows_the_sync_pairs() {
    let c = config(&["dev"], "t");
    let projects = vec![Project { name: "shop".to_string(), path: "/r/shop".to_string(), source_root: "/r".to_string() }];
    let m = project_select_screen(&c, &projects);
    assert_eq!(m.items, strings(&["shop"]));
    assert_eq!(m.details[0], strings(&["名称: shop", "路径: /r/shop", "来源目录: /r", "dev -> dev_henry_meger"]));
}

#[test]
fn source_branch_marks_the_checked_out_branch() {
    let m = source_branch_screen(&strings(&["main", "feat"]), &Some("feat".to_string()));
    assert_eq!(m.details[0], strings(&["分支: main"]));
    assert_eq!(m.details[1], strings(&["分支: feat", "当前检出: 是"]));
}

#[test]
fn into_menu_keeps_rows_and_search() {
    let projects = vec![GitLabProject { id: 1, name: "a".to_string() }, GitLabProject { id: 2, name: "b".to_string() }];
    let (menu, help) = gitlab_projects_screen(&projects).into_menu();
    assert!(menu.search_enabled);
    assert_eq!(menu.items, strings(&["a  [ID: 1]", "b  [ID: 2]"]));
    assert_eq!(menu.list_state.selected, Some(0));
    assert_eq!(help.len(), 3);
    let (menu, _) = main_menu_screen().into_menu();
    assert!(!menu.search_enabled);
}

#[test]
fn results_help_has_three_lines() {
    assert_eq!(results_help().len(), 3);
}

#[test]
fn project_roots_are_listed_by_label() {
    let c = config(&["dev"], "t");
    let m = project_roots_screen(&c);
    assert_eq!(m.items, strings(&["新增项目根目录", "目录 1: r", "目录 2: work", "返回配置管理"]));
    assert_eq!(m.details[2], strings(&["完整路径: /home/u/work/", "进入后可以编辑或删除这个项目根目录。"]));
    assert_eq!(m.search_hint, Some("过滤项目根目录".to_string()));
    assert_eq!(root_label("/"), "/");
    assert_eq!(root_label("/a/.."), "/a/..");
}

#[test]
fn root_actions_offer_delete_only_with_another_root() {
    let c = config(&["dev"], "t");
    let m = project_root_actions_screen(&c, 1);
    assert_eq!(m.items, strings(&["编辑路径", "删除目录", "返回项目根目录列表"]));
    assert_eq!(m.details[0], strings(&["当前路径: /home/u/work/", "重新指定这个项目根目录。"]));
    let mut one = config(&["dev"], "t");
    one.project.root_dirs = strings(&["/r"]);
    let m = project_root_actions_screen(&one, 0);
    assert_eq!(m.items, strings(&["编辑路径", "返回项目根目录列表"]));
}

#[test]
fn projects_sharing_a_name_show_their_root() {
    let c = config(&["dev"], "t");
    let projects = vec![
        Project { name: "shop".to_string(), path: "/r/shop".to_string(), source_root: "/r".to_string() },
        Project { name: "shop".to_string(), path: "/w/x/shop".to_string(), source_root: "/w/x".to_string() },
        Project { name: "cart".to_string(), path: "/w/x/cart".to_string(), source_root: "/w/x".to_string() },
    ];
    let m = project_select_screen(&c, &projects);
    assert_eq!(m.items, strings(&["shop (r)", "shop (x)", "cart"]));
    assert_eq!(m.help[1], "如果多个工作目录里有同名仓库，项目名后会带上来源目录。");
}
