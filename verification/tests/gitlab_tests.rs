use gmux::gitlab::{
    approved_by_user, merge_state, normalize_base_url, ApiCall, GitLabApi, HttpMethod,
    MergeRetry, RequestBody,
};

fn strings(v: &[&str]) -> Vec<String> {
    v.iter().map(|s| s.to_string()).collect()
}

#[test]
fn base_url_gets_a_scheme_and_loses_trailing_slashes() {
    assert_eq!(normalize_base_url("gitlab.example.com"), "http://gitlab.example.com");
    assert_eq!(normalize_base_url("  https://git.corp/// "), "https://git.corp");
    assert_eq!(normalize_base_url("http://10.0.0.1:8080/"), "http://10.0.0.1:8080");
    assert_eq!(normalize_base_url(""), "http://");
}

#[test]
fn api_new_normalizes_the_host() {
    let api = GitLabApi::new("git.corp/", "tok");
    assert_eq!(api.base_url, "http://git.corp");
    assert_eq!(api.token, "tok");
    assert_eq!(api.api_url("/user"), "http://git.corp/api/v4/user");
}

#[test]
fn list_projects_request() {
    let api = GitLabApi::new("https://g", "t");
    let r = api.list_projects_request();
    assert!(r.call == ApiCall::ListProjects);
    assert!(r.method == HttpMethod::Get);
    assert_eq!(r.url, "https://g/api/v4/projects?membership=true&per_page=100");
    assert_eq!(r.token, "t");
    assert!(matches!(r.body, RequestBody::Empty));
}

#[test]
fn create_mr_request_carries_title_and_branches() {
    let api = GitLabApi::new("https://g", "t");
    let r = api.create_mr_request(42, "shop", "feature", "uat_m_meger");
    assert!(r.method == HttpMethod::Post);
    assert_eq!(r.url, "https://g/api/v4/projects/42/merge_requests");
    match r.body {
        RequestBody::CreateMr { source_branch, target_branch, title, description } => {
            assert_eq!(source_branch, "feature");
            assert_eq!(target_branch, "uat_m_meger");
            assert_eq!(title, "Auto MR: shop feature → uat_m_meger");
            assert_eq!(description, "由 gmux 自动创建的合并请求");
        }
        _ => panic!("wrong body"),
    }
}

#[test]
fn merge_request_item_requests() {
    let api = GitLabApi::new("https://g", "t");
    assert_eq!(
        api.list_open_mrs_request(7).url,
        "https://g/api/v4/projects/7/merge_requests?state=opened&scope=all&per_page=100"
    );
    assert_eq!(api.approve_mr_request(7, 105).url, "https://g/api/v4/projects/7/merge_requests/105/approve");
    let close = api.close_mr_request(7, 0);
    assert!(close.method == HttpMethod::Put);
    assert!(matches!(close.body, RequestBody::CloseMr));
    assert_eq!(close.url, "https://g/api/v4/projects/7/merge_requests/0");
    let merge = api.merge_mr_request(1234567890, 9);
    assert!(matches!(merge.body, RequestBody::MergeMr));
    assert_eq!(merge.url, "https://g/api/v4/projects/1234567890/merge_requests/9/merge");
    assert_eq!(api.current_user_request().url, "https://g/api/v4/user");
    assert_eq!(api.approvals_request(3, 4).url, "https://g/api/v4/projects/3/merge_requests/4/approvals");
}

#[test]
fn failure_messages_of_calls() {
    assert_eq!(ApiCall::MergeMr.send_failure_message(), "合并 MR 请求失败");
    assert_eq!(ApiCall::ApproveMr.parse_failure_message(), None);
    assert_eq!(ApiCall::CreateMr.parse_failure_message(), Some("解析 MR 响应失败".to_string()));
    assert_eq!(
        ApiCall::CloseMr.status_failure_message("404 Not Found", "gone"),
        "关闭 MR 失败 (HTTP 404 Not Found): gone"
    );
    assert_eq!(
        ApiCall::ListProjects.status_failure_message("401 Unauthorized", "ignored"),
        "GitLab API 返回错误: 401 Unauthorized"
    );
}

#[test]
fn approval_by_user() {
    let approvers = strings(&["alice", "bob"]);
    assert!(approved_by_user(&approvers, "bob"));
    assert!(!approved_by_user(&approvers, "carol"));
    assert!(!approved_by_user(&Vec::new(), "bob"));
}

#[test]
fn merge_state_defaults_to_unknown() {
    assert_eq!(merge_state(Some("merged")), "merged");
    assert_eq!(merge_state(None), "unknown");
}

#[test]
fn merge_retry_succeeds_on_a_later_attempt() {
    let mut m = MergeRetry::new(2, 2);
    assert_eq!(m.wait_seconds(), Some(2));
    m.feed(Ok("opened".to_string()));
    assert!(m.outcome().is_none());
    m.feed(Err("合并 MR 请求失败".to_string()));
    assert!(m.outcome().is_none());
    m.feed(Ok("merged".to_string()));
    assert_eq!(m.wait_seconds(), None);
    match m.outcome() {
        Some(Ok(logs)) => assert_eq!(
            logs,
            &strings(&[
                "第 1 次合并前等待 2 秒",
                "第 1 次合并返回状态: opened",
                "第 2 次合并前等待 2 秒",
                "第 2 次合并失败: 合并 MR 请求失败",
                "第 3 次合并前等待 2 秒",
                "第 3 次合并成功",
            ])
        ),
        _ => panic!("expected success"),
    }
}

#[test]
fn merge_retry_without_retries_fails_on_an_odd_state() {
    let mut m = MergeRetry::new(0, 0);
    m.feed(Ok("opened".to_string()));
    assert_eq!(m.wait_seconds(), None);
    match m.outcome() {
        Some(Err(e)) => assert_eq!(e, "MR 合并状态异常: opened"),
        _ => panic!("expected failure"),
    }
}

#[test]
fn merge_retry_gives_the_last_error() {
    let mut m = MergeRetry::new(0, 1);
    m.feed(Err("first".to_string()));
    assert_eq!(m.wait_seconds(), Some(0));
    m.feed(Err("second".to_string()));
    match m.outcome() {
        Some(Err(e)) => assert_eq!(e, "second"),
        _ => panic!("expected failure"),
    }
}

#[test]
fn base_url_is_stable_when_normalized_again() {
    for host in ["gitlab.example.com:8099/", " https://git.corp// ", "http://h"] {
        let once = normalize_base_url(host);
        assert_eq!(normalize_base_url(&once), once);
        assert!(once.starts_with("http://") || once.starts_with("https://"));
        assert!(!once.ends_with('/'));
    }
}
