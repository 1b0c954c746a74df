use gmux::config::{dedupe_root_dirs, 
    accept_setting, default_env_branches, BranchMap, Config, ConfigError, GitLabConfig,
    ProjectConfig,
};

fn strings(v: &[&str]) -> Vec<String> {
    v.iter().map(|s| s.to_string()).collect()
}

fn config(host: &str, token: &str, root: &str, middle: &str, envs: &[&str]) -> Config {
    Config {
        gitlab: GitLabConfig { host: host.to_string(), token: token.to_string() },
        project: ProjectConfig {
            root_dirs: if root.is_empty() { Vec::new() } else { vec![root.to_string()] },
            merge_branch_middle: middle.to_string(),
            env_branches: strings(envs),
        },
        branch_map: BranchMap::new(),
    }
}

fn sorted(m: &BranchMap) -> Vec<(String, String)> {
    m.sorted_entries()
}

#[test]
fn default_env_branches_are_the_four_environments() {
    assert_eq!(default_env_branches(), strings(&["uat", "test", "stage", "pre_prod"]));
}

#[test]
fn merge_branch_name_uses_configured_middle() {
    let c = config("h", "t", "/r", "team", &["uat"]);
    assert_eq!(c.get_merge_branch_name("uat", "shop"), "uat_team_meger");
}

#[test]
fn merge_branch_name_uses_project_name_for_placeholder() {
    let c = config("h", "t", "/r", "PROJECT_NAME", &["uat"]);
    assert_eq!(c.get_merge_branch_name("pre_prod", "shop"), "pre_prod_shop_meger");
}

#[test]
fn default_branch_map_maps_merge_branches_to_environments() {
    let envs = strings(&["uat", "test"]);
    let m = Config::generate_default_branch_map(&envs, "x");
    assert_eq!(
        sorted(&m),
        vec![
            ("test_x_meger".to_string(), "test".to_string()),
            ("uat_x_meger".to_string(), "uat".to_string()),
        ]
    );
    assert_eq!(m.len(), 2);
}

#[test]
fn default_branch_map_of_no_environments_is_empty() {
    let m = Config::generate_default_branch_map(&[], "x");
    assert!(m.is_empty());
}

#[test]
fn ensure_branch_map_fills_only_an_empty_map() {
    let mut c = config("h", "t", "/r", "m", &["uat"]);
    c.ensure_branch_map();
    assert_eq!(sorted(&c.branch_map), vec![("uat_m_meger".to_string(), "uat".to_string())]);

    let mut d = config("h", "t", "/r", "m", &["uat"]);
    d.branch_map.insert("feature".to_string(), "uat".to_string());
    d.ensure_branch_map();
    assert_eq!(sorted(&d.branch_map), vec![("feature".to_string(), "uat".to_string())]);
}

#[test]
fn ensure_branch_map_twice_is_the_same_as_once() {
    let mut c = config("h", "t", "/r", "m", &["uat", "test"]);
    c.ensure_branch_map();
    let once = sorted(&c.branch_map);
    c.ensure_branch_map();
    assert_eq!(sorted(&c.branch_map), once);
}

#[test]
fn validate_accepts_a_complete_configuration() {
    let c = config("h", "t", "/r", "m", &[]);
    assert!(c.validate().is_ok());
}

#[test]
fn validate_names_every_missing_field_in_order() {
    let c = config("", "", "", "", &["uat"]);
    match c.validate() {
        Err(ConfigError::MissingFields(names)) => assert_eq!(
            names,
            strings(&["gitlab.host", "gitlab.token", "project.root_dirs", "project.merge_branch_middle"])
        ),
        Ok(()) => panic!("an empty configuration was accepted"),
    }
}

#[test]
fn validate_error_message_joins_the_names() {
    let c = config("h", "", "/r", "", &[]);
    match c.validate() {
        Err(e) => assert_eq!(
            e.message(),
            "配置缺少必填项: gitlab.token, project.merge_branch_middle"
        ),
        Ok(()) => panic!("missing token was accepted"),
    }
}

#[test]
fn config_path_is_under_the_home_directory() {
    assert_eq!(
        Config::default_global_config_path(Some("/home/u")),
        "/home/u/.config/gmux/gmux.toml"
    );
    assert_eq!(
        Config::default_global_config_path(Some("/home/u/")),
        "/home/u/.config/gmux/gmux.toml"
    );
    assert_eq!(Config::default_global_config_path(None), "./.config/gmux/gmux.toml");
}

#[test]
fn find_config_file_only_when_the_file_exists() {
    assert_eq!(
        Config::find_config_file(Some("/home/u"), true),
        Some("/home/u/.config/gmux/gmux.toml".to_string())
    );
    assert_eq!(Config::find_config_file(Some("/home/u"), false), None);
}

#[test]
fn accept_answer_trims_and_refuses_blank() {
    assert_eq!(Config::accept_answer("  gitlab.example.com \n"), Some("gitlab.example.com".to_string()));
    assert_eq!(Config::accept_answer(" \t\n"), None);
}

#[test]
fn accept_setting_returns_the_given_error_for_blank() {
    assert_eq!(accept_setting(" abc ", "empty"), Ok("abc".to_string()));
    assert_eq!(accept_setting("   ", "empty"), Err("empty".to_string()));
}

#[test]
fn parse_env_branches_defaults_on_blank_line() {
    assert_eq!(Config::parse_env_branches("   \n"), strings(&["uat", "test", "stage", "pre_prod"]));
    assert_eq!(Config::parse_env_branches(" dev  qa\tprod\n"), strings(&["dev", "qa", "prod"]));
}

#[test]
fn from_answers_builds_the_default_map() {
    let c = Config::from_answers(
        "h".to_string(),
        "t".to_string(),
        "/r".to_string(),
        "mid".to_string(),
        strings(&["uat"]),
    );
    assert_eq!(c.gitlab.host, "h");
    assert_eq!(c.project.env_branches, strings(&["uat"]));
    assert_eq!(sorted(&c.branch_map), vec![("uat_mid_meger".to_string(), "uat".to_string())]);
}

#[test]
fn branch_map_insert_get_remove() {
    let mut m = BranchMap::new();
    m.insert("a".to_string(), "1".to_string());
    m.insert("b".to_string(), "2".to_string());
    m.insert("a".to_string(), "3".to_string());
    assert_eq!(m.len(), 2);
    assert_eq!(m.get("a"), Some(&"3".to_string()));
    assert!(m.contains_key("b"));
    m.remove("b");
    assert!(!m.contains_key("b"));
    assert_eq!(m.get("b"), None);
    assert_eq!(m.len(), 1);
}

#[test]
fn branch_map_sources_targeting_a_branch() {
    let mut m = BranchMap::new();
    m.insert("z".to_string(), "uat".to_string());
    m.insert("a".to_string(), "uat".to_string());
    m.insert("m".to_string(), "test".to_string());
    assert_eq!(m.sources_targeting("uat"), strings(&["a", "z"]));
    assert_eq!(m.sources_targeting("prod"), Vec::<String>::new());
    let mut p = m.pairs();
    p.sort();
    assert_eq!(p.len(), 3);
    assert_eq!(p[0], ("a".to_string(), "uat".to_string()));
}

#[test]
fn swapping_environment_branches_twice_restores_them() {
    let mut c = config("h", "t", "/r", "m", &["uat", "test", "stage"]);
    c.swap_env_branches(0, 2);
    assert_eq!(c.project.env_branches, strings(&["stage", "test", "uat"]));
    c.swap_env_branches(0, 2);
    assert_eq!(c.project.env_branches, strings(&["uat", "test", "stage"]));
}

#[test]
fn environment_branch_editing() {
    let mut c = config("h", "t", "/r", "m", &["uat"]);
    c.add_env_branch("test".to_string());
    c.rename_env_branch(0, "dev".to_string());
    assert_eq!(c.project.env_branches, strings(&["dev", "test"]));
}

#[test]
fn deleting_an_environment_branch_drops_its_linked_mappings() {
    let mut c = config("h", "t", "/r", "m", &["uat", "test"]);
    c.ensure_branch_map();
    c.branch_map.insert("hotfix".to_string(), "uat".to_string());
    let linked = c.branch_map.sources_targeting("uat");
    assert_eq!(linked, strings(&["hotfix", "uat_m_meger"]));
    c.delete_env_branch(0, &linked);
    assert_eq!(c.project.env_branches, strings(&["test"]));
    assert_eq!(sorted(&c.branch_map), vec![("test_m_meger".to_string(), "test".to_string())]);
}

#[test]
fn deleting_an_environment_branch_alone_keeps_the_mappings() {
    let mut c = config("h", "t", "/r", "m", &["uat", "test"]);
    c.ensure_branch_map();
    c.delete_env_branch(1, &Vec::new());
    assert_eq!(c.project.env_branches, strings(&["uat"]));
    assert_eq!(c.branch_map.len(), 2);
}

#[test]
fn saving_an_edited_mapping_replaces_the_old_source() {
    let mut c = config("h", "t", "/r", "m", &["uat"]);
    c.save_branch_mapping(None, "feature".to_string(), "uat".to_string());
    c.save_branch_mapping(Some("feature"), "feature2".to_string(), "test".to_string());
    assert_eq!(sorted(&c.branch_map), vec![("feature2".to_string(), "test".to_string())]);
    c.delete_branch_mapping("feature2");
    assert!(c.branch_map.is_empty());
}

#[test]
fn regenerate_branch_map_discards_custom_mappings() {
    let mut c = config("h", "t", "/r", "m", &["uat"]);
    c.branch_map.insert("custom".to_string(), "x".to_string());
    c.regenerate_branch_map();
    assert_eq!(sorted(&c.branch_map), vec![("uat_m_meger".to_string(), "uat".to_string())]);
}

#[test]
fn settings_setters_change_one_field() {
    let mut c = config("h", "t", "/r", "m", &["uat"]);
    c.set_gitlab_host("new-host".to_string());
    c.set_gitlab_token("tok".to_string());
    c.set_merge_branch_middle("PROJECT_NAME".to_string());
    assert_eq!(c.gitlab.host, "new-host");
    assert_eq!(c.gitlab.token, "tok");
    assert_eq!(c.project.merge_branch_middle, "PROJECT_NAME");
    assert_eq!(c.project.root_dirs, vec!["/r".to_string()]);
}

#[test]
fn dedupe_keeps_first_occurrences() {
    let mut roots = strings(&["/a", "/b", "/a", "/c", "/b"]);
    dedupe_root_dirs(&mut roots);
    assert_eq!(roots, strings(&["/a", "/b", "/c"]));
}

#[test]
fn saving_a_root_drops_repeats() {
    let mut c = config("h", "t", "/a", "m", &["uat"]);
    c.save_project_root(None, "/b".to_string());
    assert_eq!(c.project.root_dirs, strings(&["/a", "/b"]));
    c.save_project_root(Some(1), "/a".to_string());
    assert_eq!(c.project.root_dirs, strings(&["/a"]));
    c.save_project_root(None, "/c".to_string());
    c.delete_project_root(0);
    assert_eq!(c.project.root_dirs, strings(&["/c"]));
}

#[test]
fn an_empty_root_is_refused() {
    let mut c = config("h", "t", "/r", "m", &["uat"]);
    c.project.root_dirs.push(String::new());
    match c.validate() {
        Err(ConfigError::MissingFields(names)) => assert_eq!(names, strings(&["project.root_dirs"])),
        Ok(()) => panic!("an empty root was accepted"),
    }
}

#[test]
fn a_staged_change_is_kept_only_when_written() {
    let mut current = config("h", "t", "/r", "m", &["uat"]);
    let mut copy = config("h", "t", "/r", "m", &["uat"]);
    assert!(copy.stage_change(gmux::config::ConfigChange::AddEnvBranch("test".to_string())).is_ok());
    current.commit(copy, false);
    assert_eq!(current.project.env_branches, strings(&["uat"]));
    let mut copy = config("h", "t", "/r", "m", &["uat"]);
    assert!(copy.stage_change(gmux::config::ConfigChange::AddEnvBranch("test".to_string())).is_ok());
    current.commit(copy, true);
    assert_eq!(current.project.env_branches, strings(&["uat", "test"]));
    let mut bad = config("h", "t", "/r", "m", &["uat"]);
    assert!(bad.stage_change(gmux::config::ConfigChange::SetHost(String::new())).is_err());
}
