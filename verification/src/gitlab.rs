//! The GitLab REST requests the tool makes, how it reads their failures, and
//! the retry policy for merging a merge request. Sending the requests is left
//! to the caller.

use vstd::prelude::*;
use crate::text::{chars_of, decimal, is_ws, owned, push_decimal, str_eq, trim, trim_end, trim_start, trim_str};

verus! {

/// A GitLab project the token can access.
#[derive(Debug, Clone)]
pub struct GitLabProject {
    pub id: u64,
    pub name: String,
}

/// A GitLab user.
#[derive(Debug, Clone)]
pub struct GitLabUser {
    pub name: String,
    pub username: String,
}

/// A merge request as GitLab reports it, with whether the current user has
/// approved it.
#[derive(Debug, Clone)]
pub struct MergeRequest {
    pub id: u64,
    pub iid: u64,
    pub title: String,
    pub web_url: String,
    pub state: String,
    pub source_branch: String,
    pub target_branch: String,
    pub author: GitLabUser,
    pub approved_by_me: bool,
}

/// `s` without its trailing slashes.
pub open spec fn strip_trailing_slashes(s: Seq<char>) -> Seq<char>
    decreases s.len(),
{
    if s.len() > 0 && s.last() == '/' {
        strip_trailing_slashes(s.drop_last())
    } else {
        s
    }
}

/// `s` starts with `prefix`.
pub open spec fn has_prefix(s: Seq<char>, prefix: Seq<char>) -> bool {
    prefix.len() <= s.len() && s.subrange(0, prefix.len() as int) == prefix
}

/// The base URL of a GitLab host setting: trimmed, without trailing slashes,
/// with `http://` in front unless it names `http://` or `https://` itself.
pub open spec fn base_url(host: Seq<char>) -> Seq<char> {
    let t = strip_trailing_slashes(trim(host));
    if has_prefix(t, "http://"@) || has_prefix(t, "https://"@) {
        t
    } else {
        "http://"@ + t
    }
}

proof fn lemma_strip_no_trailing(s: Seq<char>)
    ensures
        strip_trailing_slashes(s).len() <= s.len(),
        strip_trailing_slashes(s).len() > 0 ==> strip_trailing_slashes(s).last() != '/',
        strip_trailing_slashes(s) == s.subrange(0, strip_trailing_slashes(s).len() as int),
    decreases s.len(),
{
    if s.len() > 0 && s.last() == '/' {
        lemma_strip_no_trailing(s.drop_last());
        let t = strip_trailing_slashes(s.drop_last());
        assert(s.drop_last().subrange(0, t.len() as int) =~= s.subrange(0, t.len() as int));
    } else {
        assert(s.subrange(0, s.len() as int) =~= s);
    }
}

proof fn lemma_trim_lengths(s: Seq<char>)
    ensures
        trim_start(s).len() <= s.len(),
        trim_end(s).len() <= s.len(),
        s.len() > 0 && is_ws(s[0]) ==> trim_start(s).len() < s.len(),
        s.len() > 0 && is_ws(s.last()) ==> trim_end(s).len() < s.len(),
    decreases s.len(),
{
    if s.len() > 0 {
        lemma_trim_lengths(s.drop_first());
        lemma_trim_lengths(s.drop_last());
    }
}

/// A trimmed text starts and ends with a character other than whitespace.
proof fn lemma_trimmed_ends(t: Seq<char>)
    requires
        t.len() > 0,
        trim(t) == t,
    ensures
        !is_ws(t[0]),
        !is_ws(t.last()),
{
    lemma_trim_lengths(t);
    lemma_trim_lengths(trim_start(t));
    if !is_ws(t[0]) {
        assert(trim_start(t) == t);
    }
}

/// The GitLab base URL of a host setting whose trimmed text, without its
/// trailing slashes, is not empty and has no whitespace at either end: it
/// starts with `http://` or `https://`, does not end with `/`, is the host
/// itself when that names its scheme, and taking it as the host setting
/// again gives it back.
pub proof fn law_base_url_normal(host: Seq<char>)
    requires
        strip_trailing_slashes(trim(host)).len() > 0,
        trim(strip_trailing_slashes(trim(host))) == strip_trailing_slashes(trim(host)),
    ensures
        has_prefix(base_url(host), "http://"@) || has_prefix(base_url(host), "https://"@),
        base_url(host).last() != '/',
        has_prefix(strip_trailing_slashes(trim(host)), "http://"@) || has_prefix(
            strip_trailing_slashes(trim(host)),
            "https://"@,
        ) ==> base_url(host) == strip_trailing_slashes(trim(host)),
        base_url(base_url(host)) == base_url(host),
{
    let t = strip_trailing_slashes(trim(host));
    let u = base_url(host);
    reveal_strlit("http://");
    reveal_strlit("https://");
    lemma_strip_no_trailing(trim(host));
    lemma_trimmed_ends(t);
    if !(has_prefix(t, "http://"@) || has_prefix(t, "https://"@)) {
        assert(u == "http://"@ + t);
        assert(u.subrange(0, 7) =~= "http://"@);
        assert(u.last() == t.last());
        assert(u[0] == 'h');
        assert(!is_ws('h'));
    }
    assert(!is_ws(u[0]));
    assert(!is_ws(u.last()));
    assert(trim_start(u) == u);
    assert(trim_end(u) == u);
    assert(trim(u) == u);
    assert(strip_trailing_slashes(u) == u);
}

fn starts_with(s: &Vec<char>, prefix: &str) -> (r: bool)
    ensures
        r == has_prefix(s@, prefix@),
{
    let p = chars_of(prefix);
    if p.len() > s.len() {
        return false;
    }
    let mut i: usize = 0;
    while i < p.len()
        invariant
            p@ == prefix@,
            p.len() <= s.len(),
            i <= p.len(),
            forall|k: int| 0 <= k < i ==> s@[k] == p@[k],
        decreases p.len() - i,
    {
        if s[i] != p[i] {
            assert(s@.subrange(0, p@.len() as int)[i as int] != p@[i as int]);
            return false;
        }
        i = i + 1;
    }
    assert(s@.subrange(0, p@.len() as int) =~= p@);
    true
}

proof fn lemma_strip_take(s: Seq<char>, j: int)
    requires
        0 <= j <= s.len(),
        forall|k: int| j <= k < s.len() ==> #[trigger] s[k] == '/',
        j == 0 || s[j - 1] != '/',
    ensures
        strip_trailing_slashes(s) == s.subrange(0, j),
    decreases s.len() - j,
{
    if j < s.len() {
        lemma_strip_take(s.drop_last(), j);
        assert(s.drop_last().subrange(0, j) =~= s.subrange(0, j));
    } else {
        assert(s.subrange(0, j) =~= s);
    }
}

/// The base URL that the client for a host setting uses.
pub fn normalize_base_url(host: &str) -> (r: String)
    ensures
        r@ == base_url(host@),
{
    let t = trim_str(host);
    let v = chars_of(t.as_str());
    let mut end = v.len();
    while end > 0 && v[end - 1] == '/'
        invariant
            end <= v.len(),
            forall|k: int| end <= k < v.len() ==> #[trigger] v@[k] == '/',
        decreases end,
    {
        end = end - 1;
    }
    proof {
        lemma_strip_take(v@, end as int);
    }
    let stripped = crate::text::string_from_range(&v, 0, end);
    let sv = chars_of(stripped.as_str());
    if starts_with(&sv, "http://") || starts_with(&sv, "https://") {
        stripped
    } else {
        let mut r = owned("http://");
        r.append(stripped.as_str());
        r
    }
}

/// HTTP methods of the requests.
#[derive(Clone, Copy, PartialEq, Eq, Structural)]
pub enum HttpMethod {
    Get,
    Post,
    Put,
}

/// The GitLab API calls the tool makes.
#[derive(Clone, Copy, PartialEq, Eq, Structural)]
pub enum ApiCall {
    ListProjects,
    CreateMr,
    ListOpenMrs,
    ApproveMr,
    CloseMr,
    MergeMr,
    CurrentUser,
    Approvals,
}

/// The JSON body a request carries.
pub enum RequestBody {
    /// No body.
    Empty,
    /// `{"source_branch", "target_branch", "title", "description"}`.
    CreateMr { source_branch: String, target_branch: String, title: String, description: String },
    /// `{"state_event": "close"}`.
    CloseMr,
    /// `{"merge_when_pipeline_succeeds": false}`.
    MergeMr,
}

/// A request to send, with the private token in the `PRIVATE-TOKEN` header.
pub struct ApiRequest {
    pub call: ApiCall,
    pub method: HttpMethod,
    pub url: String,
    pub token: String,
    pub body: RequestBody,
}

/// The error text when a request could not be sent.
pub open spec fn send_failure_text(c: ApiCall) -> Seq<char> {
    match c {
        ApiCall::ListProjects => "请求 GitLab 项目列表失败"@,
        ApiCall::CreateMr => "创建 MR 请求失败"@,
        ApiCall::ListOpenMrs => "请求 MR 列表失败"@,
        ApiCall::ApproveMr => "审批 MR 请求失败"@,
        ApiCall::CloseMr => "关闭 MR 请求失败"@,
        ApiCall::MergeMr => "合并 MR 请求失败"@,
        ApiCall::CurrentUser => "请求当前 GitLab 用户失败"@,
        ApiCall::Approvals => "请求 MR 审批状态失败"@,
    }
}

/// The error text when a response body could not be read as JSON; none for
/// the calls whose body is not read.
pub open spec fn parse_failure_text(c: ApiCall) -> Option<Seq<char>> {
    match c {
        ApiCall::ListProjects => Some("解析项目列表 JSON 失败"@),
        ApiCall::CreateMr => Some("解析 MR 响应失败"@),
        ApiCall::ListOpenMrs => Some("解析 MR 列表响应失败"@),
        ApiCall::ApproveMr => None,
        ApiCall::CloseMr => None,
        ApiCall::MergeMr => Some("解析合并响应失败"@),
        ApiCall::CurrentUser => Some("解析当前 GitLab 用户响应失败"@),
        ApiCall::Approvals => Some("解析 MR 审批状态响应失败"@),
    }
}

/// The error text when the server answered with an unsuccessful status
/// (`status` as `reqwest` displays it) and body `text`.
pub open spec fn status_failure_text(c: ApiCall, status: Seq<char>, text: Seq<char>) -> Seq<char> {
    match c {
        ApiCall::ListProjects => "GitLab API 返回错误: "@ + status,
        ApiCall::CreateMr => "创建 MR 失败 (HTTP "@ + status + "): "@ + text,
        ApiCall::ListOpenMrs => "读取 MR 列表失败 (HTTP "@ + status + "): "@ + text,
        ApiCall::ApproveMr => "审批 MR 失败 (HTTP "@ + status + "): "@ + text,
        ApiCall::CloseMr => "关闭 MR 失败 (HTTP "@ + status + "): "@ + text,
        ApiCall::MergeMr => "合并 MR 失败 (HTTP "@ + status + "): "@ + text,
        ApiCall::CurrentUser => "读取当前 GitLab 用户失败 (HTTP "@ + status + "): "@ + text,
        ApiCall::Approvals => "读取 MR 审批状态失败 (HTTP "@ + status + "): "@ + text,
    }
}

fn status_failure(prefix: &str, status: &str, text: &str) -> (r: String)
    ensures
        r@ == prefix@ + status@ + "): "@ + text@,
{
    let mut r = owned(prefix);
    r.append(status);
    r.append("): ");
    r.append(text);
    r
}

impl ApiCall {
    /// The error text when the request could not be sent.
    pub fn send_failure_message(&self) -> (r: String)
        ensures
            r@ == send_failure_text(*self),
    {
        match self {
            ApiCall::ListProjects => owned("请求 GitLab 项目列表失败"),
            ApiCall::CreateMr => owned("创建 MR 请求失败"),
            ApiCall::ListOpenMrs => owned("请求 MR 列表失败"),
            ApiCall::ApproveMr => owned("审批 MR 请求失败"),
            ApiCall::CloseMr => owned("关闭 MR 请求失败"),
            ApiCall::MergeMr => owned("合并 MR 请求失败"),
            ApiCall::CurrentUser => owned("请求当前 GitLab 用户失败"),
            ApiCall::Approvals => owned("请求 MR 审批状态失败"),
        }
    }

    /// The error text when the response body could not be read; none for the
    /// calls whose body is not read.
    pub fn parse_failure_message(&self) -> (r: Option<String>)
        ensures
            match parse_failure_text(*self) {
                Some(t) => r matches Some(m) && m@ == t,
                None => r is None,
            },
    {
        match self {
            ApiCall::ListProjects => Some(owned("解析项目列表 JSON 失败")),
            ApiCall::CreateMr => Some(owned("解析 MR 响应失败")),
            ApiCall::ListOpenMrs => Some(owned("解析 MR 列表响应失败")),
            ApiCall::ApproveMr => None,
            ApiCall::CloseMr => None,
            ApiCall::MergeMr => Some(owned("解析合并响应失败")),
            ApiCall::CurrentUser => Some(owned("解析当前 GitLab 用户响应失败")),
            ApiCall::Approvals => Some(owned("解析 MR 审批状态响应失败")),
        }
    }

    /// The error text for an unsuccessful status and the response body.
    pub fn status_failure_message(&self, status: &str, text: &str) -> (r: String)
        ensures
            r@ == status_failure_text(*self, status@, text@),
    {
        match self {
            ApiCall::ListProjects => {
                let mut r = owned("GitLab API 返回错误: ");
                r.append(status);
                r
            },
            ApiCall::CreateMr => status_failure("创建 MR 失败 (HTTP ", status, text),
            ApiCall::ListOpenMrs => status_failure("读取 MR 列表失败 (HTTP ", status, text),
            ApiCall::ApproveMr => status_failure("审批 MR 失败 (HTTP ", status, text),
            ApiCall::CloseMr => status_failure("关闭 MR 失败 (HTTP ", status, text),
            ApiCall::MergeMr => status_failure("合并 MR 失败 (HTTP ", status, text),
            ApiCall::CurrentUser => status_failure("读取当前 GitLab 用户失败 (HTTP ", status, text),
            ApiCall::Approvals => status_failure("读取 MR 审批状态失败 (HTTP ", status, text),
        }
    }
}

/// `/projects/{project_id}/merge_requests`.
pub open spec fn mr_collection_path(project_id: u64) -> Seq<char> {
    "/projects/"@ + decimal(project_id as nat) + "/merge_requests"@
}

/// `/projects/{project_id}/merge_requests/{mr_iid}`.
pub open spec fn mr_path(project_id: u64, mr_iid: u64) -> Seq<char> {
    mr_collection_path(project_id) + "/"@ + decimal(mr_iid as nat)
}

/// The title of a merge request created by the tool.
pub open spec fn mr_title(project_name: Seq<char>, source: Seq<char>, target: Seq<char>) -> Seq<char> {
    "Auto MR: "@ + project_name + " "@ + source + " → "@ + target
}

/// Endpoint and credentials of a GitLab server.
pub struct GitLabApi {
    pub base_url: String,
    pub token: String,
}

fn collection_path(project_id: u64) -> (r: String)
    ensures
        r@ == mr_collection_path(project_id),
{
    let mut r = owned("/projects/");
    push_decimal(&mut r, project_id);
    r.append("/merge_requests");
    r
}

fn item_path(project_id: u64, mr_iid: u64) -> (r: String)
    ensures
        r@ == mr_path(project_id, mr_iid),
{
    let mut r = collection_path(project_id);
    r.append("/");
    push_decimal(&mut r, mr_iid);
    r
}

impl GitLabApi {
    /// The API of the server named by a host setting, with a private token.
    pub fn new(host: &str, token: &str) -> (r: GitLabApi)
        ensures
            r.base_url@ == base_url(host@),
            r.token@ == token@,
    {
        GitLabApi { base_url: normalize_base_url(host), token: owned(token) }
    }

    /// The URL of an API path: `{base}/api/v4{path}`.
    pub fn api_url(&self, path: &str) -> (r: String)
        ensures
            r@ == self.base_url@ + "/api/v4"@ + path@,
    {
        let mut r = self.base_url.clone();
        r.append("/api/v4");
        r.append(path);
        r
    }

    fn request(&self, call: ApiCall, method: HttpMethod, path: &str, body: RequestBody) -> (r:
        ApiRequest)
        ensures
            r.call == call,
            r.method == method,
            r.url@ == self.base_url@ + "/api/v4"@ + path@,
            r.token == self.token,
            r.body == body,
    {
        ApiRequest { call, method, url: self.api_url(path), token: self.token.clone(), body }
    }

    /// GET the projects the token is a member of, up to a hundred.
    pub fn list_projects_request(&self) -> (r: ApiRequest)
        ensures
            r.call == ApiCall::ListProjects,
            r.method == HttpMethod::Get,
            r.url@ == self.base_url@ + "/api/v4"@ + "/projects?membership=true&per_page=100"@,
            r.token == self.token,
            r.body is Empty,
    {
        self.request(
            ApiCall::ListProjects,
            HttpMethod::Get,
            "/projects?membership=true&per_page=100",
            RequestBody::Empty,
        )
    }

    /// POST a new merge request from `source_branch` into `target_branch`.
    pub fn create_mr_request(
        &self,
        project_id: u64,
        project_name: &str,
        source_branch: &str,
        target_branch: &str,
    ) -> (r: ApiRequest)
        ensures
            r.call == ApiCall::CreateMr,
            r.method == HttpMethod::Post,
            r.url@ == self.base_url@ + "/api/v4"@ + mr_collection_path(project_id),
            r.token == self.token,
            match r.body {
                RequestBody::CreateMr { source_branch: s, target_branch: t, title, description } => s@
                    == source_branch@ && t@ == target_branch@ && title@ == mr_title(
                    project_name@,
                    source_branch@,
                    target_branch@,
                ) && description@ == "由 gmux 自动创建的合并请求"@,
                _ => false,
            },
    {
        let path = collection_path(project_id);
        let mut title = owned("Auto MR: ");
        title.append(project_name);
        title.append(" ");
        title.append(source_branch);
        title.append(" → ");
        title.append(target_branch);
        let body = RequestBody::CreateMr {
            source_branch: owned(source_branch),
            target_branch: owned(target_branch),
            title,
            description: owned("由 gmux 自动创建的合并请求"),
        };
        self.request(ApiCall::CreateMr, HttpMethod::Post, path.as_str(), body)
    }

    /// GET the open merge requests of a project, up to a hundred.
    pub fn list_open_mrs_request(&self, project_id: u64) -> (r: ApiRequest)
        ensures
            r.call == ApiCall::ListOpenMrs,
            r.method == HttpMethod::Get,
            r.url@ == self.base_url@ + "/api/v4"@ + mr_collection_path(project_id)
                + "?state=opened&scope=all&per_page=100"@,
            r.token == self.token,
            r.body is Empty,
    {
        let mut path = collection_path(project_id);
        path.append("?state=opened&scope=all&per_page=100");
        self.request(ApiCall::ListOpenMrs, HttpMethod::Get, path.as_str(), RequestBody::Empty)
    }

    /// POST an approval of a merge request.
    pub fn approve_mr_request(&self, project_id: u64, mr_iid: u64) -> (r: ApiRequest)
        ensures
            r.call == ApiCall::ApproveMr,
            r.method == HttpMethod::Post,
            r.url@ == self.base_url@ + "/api/v4"@ + mr_path(project_id, mr_iid) + "/approve"@,
            r.token == self.token,
            r.body is Empty,
    {
        let mut path = item_path(project_id, mr_iid);
        path.append("/approve");
        self.request(ApiCall::ApproveMr, HttpMethod::Post, path.as_str(), RequestBody::Empty)
    }

    /// PUT the closing of a merge request.
    pub fn close_mr_request(&self, project_id: u64, mr_iid: u64) -> (r: ApiRequest)
        ensures
            r.call == ApiCall::CloseMr,
            r.method == HttpMethod::Put,
            r.url@ == self.base_url@ + "/api/v4"@ + mr_path(project_id, mr_iid),
            r.token == self.token,
            r.body is CloseMr,
    {
        let path = item_path(project_id, mr_iid);
        self.request(ApiCall::CloseMr, HttpMethod::Put, path.as_str(), RequestBody::CloseMr)
    }

    /// PUT the merging of a merge request, without waiting for its pipeline.
    pub fn merge_mr_request(&self, project_id: u64, mr_iid: u64) -> (r: ApiRequest)
        ensures
            r.call == ApiCall::MergeMr,
            r.method == HttpMethod::Put,
            r.url@ == self.base_url@ + "/api/v4"@ + mr_path(project_id, mr_iid) + "/merge"@,
            r.token == self.token,
            r.body is MergeMr,
    {
        let mut path = item_path(project_id, mr_iid);
        path.append("/merge");
        self.request(ApiCall::MergeMr, HttpMethod::Put, path.as_str(), RequestBody::MergeMr)
    }

    /// GET the user the token belongs to.
    pub fn current_user_request(&self) -> (r: ApiRequest)
        ensures
            r.call == ApiCall::CurrentUser,
            r.method == HttpMethod::Get,
            r.url@ == self.base_url@ + "/api/v4"@ + "/user"@,
            r.token == self.token,
            r.body is Empty,
    {
        self.request(ApiCall::CurrentUser, HttpMethod::Get, "/user", RequestBody::Empty)
    }

    /// GET the approvals of a merge request.
    pub fn approvals_request(&self, project_id: u64, mr_iid: u64) -> (r: ApiRequest)
        ensures
            r.call == ApiCall::Approvals,
            r.method == HttpMethod::Get,
            r.url@ == self.base_url@ + "/api/v4"@ + mr_path(project_id, mr_iid) + "/approvals"@,
            r.token == self.token,
            r.body is Empty,
    {
        let mut path = item_path(project_id, mr_iid);
        path.append("/approvals");
        self.request(ApiCall::Approvals, HttpMethod::Get, path.as_str(), RequestBody::Empty)
    }
}

/// Whether `username` is among the users who approved a merge request.
pub fn approved_by_user(approvers: &Vec<String>, username: &str) -> (r: bool)
    ensures
        r == exists|i: int| 0 <= i < approvers@.len() && #[trigger] approvers@[i]@ == username@,
{
    let mut i: usize = 0;
    while i < approvers.len()
        invariant
            i <= approvers@.len(),
            forall|k: int| 0 <= k < i ==> #[trigger] approvers@[k]@ != username@,
        decreases approvers@.len() - i,
    {
        if str_eq(approvers[i].as_str(), username) {
            return true;
        }
        i = i + 1;
    }
    false
}

/// The state a merge response reports, `unknown` when it reports none.
pub fn merge_state(state: Option<&str>) -> (r: String)
    ensures
        r@ == match state {
            Some(s) => s@,
            None => "unknown"@,
        },
{
    match state {
        Some(s) => owned(s),
        None => owned("unknown"),
    }
}


/// The view of a merge with retries: seconds to wait before each attempt, the
/// number of attempts allowed, the attempt to make next (counted from one),
/// the log so far, and the outcome once decided.
pub struct RetryView {
    pub delay: nat,
    pub total: nat,
    pub attempt: nat,
    pub logs: Seq<Seq<char>>,
    pub outcome: Option<Result<Seq<Seq<char>>, Seq<char>>>,
}

/// The log line before waiting for an attempt.
pub open spec fn wait_line(attempt: nat, delay: nat) -> Seq<char> {
    "第 "@ + decimal(attempt) + " 次合并前等待 "@ + decimal(delay) + " 秒"@
}

/// What a merge with retries becomes when its attempt replies `reply`: the
/// merge's reported state, or the error text of the request.
pub open spec fn retry_step(v: RetryView, reply: Result<Seq<char>, Seq<char>>) -> RetryView {
    let a = v.attempt;
    let logs = if v.delay > 0 {
        v.logs.push(wait_line(a, v.delay))
    } else {
        v.logs
    };
    match reply {
        Ok(state) => if state == "merged"@ {
            let logs = logs.push("第 "@ + decimal(a) + " 次合并成功"@);
            RetryView { logs, outcome: Some(Ok(logs)), ..v }
        } else {
            let logs = logs.push("第 "@ + decimal(a) + " 次合并返回状态: "@ + state);
            if a == v.total {
                RetryView { logs, outcome: Some(Err("MR 合并状态异常: "@ + state)), ..v }
            } else {
                RetryView { logs, attempt: a + 1, ..v }
            }
        },
        Err(e) => {
            let logs = logs.push("第 "@ + decimal(a) + " 次合并失败: "@ + e);
            if a == v.total {
                RetryView { logs, outcome: Some(Err(e)), ..v }
            } else {
                RetryView { logs, attempt: a + 1, ..v }
            }
        },
    }
}

/// A merge with retries is consistent: the attempt in progress is one of
/// those allowed.
pub open spec fn retry_wf(v: RetryView) -> bool {
    1 <= v.attempt <= v.total
}

/// Merging a merge request, retried a fixed number of times with a wait before
/// each attempt. The caller waits, sends the merge request and feeds the
/// outcome back until the outcome is decided.
pub struct MergeRetry {
    delay_seconds: u64,
    total_attempts: u32,
    attempt: u32,
    logs: Vec<String>,
    outcome: Option<Result<Vec<String>, String>>,
}

impl View for MergeRetry {
    type V = RetryView;

    closed spec fn view(&self) -> RetryView {
        RetryView {
            delay: self.delay_seconds as nat,
            total: self.total_attempts as nat,
            attempt: self.attempt as nat,
            logs: self.logs@.map_values(|l: String| l@),
            outcome: match self.outcome {
                Some(Ok(logs)) => Some(Ok(logs@.map_values(|l: String| l@))),
                Some(Err(e)) => Some(Err(e@)),
                None => None,
            },
        }
    }
}

impl MergeRetry {
    /// A merge with `retry_count` retries after the first attempt (the count
    /// of attempts saturating at `u32::MAX`), each after `delay_seconds`.
    pub fn new(delay_seconds: u64, retry_count: u32) -> (r: MergeRetry)
        ensures
            r@.delay == delay_seconds,
            r@.total == (if retry_count == u32::MAX {
                u32::MAX as int
            } else {
                retry_count + 1
            }),
            r@.attempt == 1,
            r@.logs.len() == 0,
            r@.outcome is None,
            retry_wf(r@),
    {
        let total = retry_count.saturating_add(1);
        let r = MergeRetry {
            delay_seconds,
            total_attempts: total,
            attempt: 1,
            logs: Vec::new(),
            outcome: None,
        };
        assert(r@.logs =~= Seq::<Seq<char>>::empty());
        r
    }

    /// Seconds to wait before the next attempt, or none once the outcome is
    /// decided.
    pub fn wait_seconds(&self) -> (r: Option<u64>)
        ensures
            r is None <==> self@.outcome is Some,
            r matches Some(d) ==> d == self@.delay,
    {
        if self.outcome.is_some() {
            None
        } else {
            Some(self.delay_seconds)
        }
    }

    /// The outcome once decided: the log on success, the error otherwise.
    pub fn outcome(&self) -> (r: &Option<Result<Vec<String>, String>>)
        ensures
            match self@.outcome {
                Some(Ok(logs)) => r matches Some(Ok(l)) && l@.map_values(|x: String| x@) == logs,
                Some(Err(e)) => r matches Some(Err(m)) && m@ == e,
                None => r is None,
            },
    {
        &self.outcome
    }

    /// Records the outcome of the attempt in progress: the merge's reported
    /// state or the error text of the request.
    pub fn feed(&mut self, reply: Result<String, String>)
        requires
            retry_wf(old(self)@),
            old(self)@.outcome is None,
        ensures
            final(self)@ == retry_step(
                old(self)@,
                match reply {
                    Ok(s) => Ok(s@),
                    Err(e) => Err(e@),
                },
            ),
            final(self)@.outcome is None ==> retry_wf(final(self)@),
    {
        let ghost v = self@;
        let ghost r = match &reply {
            Ok(s) => Ok(s@),
            Err(e) => Err(e@),
        };
        let a = self.attempt as u64;
        if self.delay_seconds > 0 {
            let mut line = owned("第 ");
            push_decimal(&mut line, a);
            line.append(" 次合并前等待 ");
            push_decimal(&mut line, self.delay_seconds);
            line.append(" 秒");
            self.logs.push(line);
        }
        let ghost logs1 = self@.logs;
        let mut line = owned("第 ");
        push_decimal(&mut line, a);
        match reply {
            Ok(state) => {
                if str_eq(state.as_str(), "merged") {
                    line.append(" 次合并成功");
                    self.logs.push(line);
                    let mut copy: Vec<String> = Vec::new();
                    let mut i: usize = 0;
                    while i < self.logs.len()
                        invariant
                            i <= self.logs@.len(),
                            copy@ == self.logs@.subrange(0, i as int),
                        decreases self.logs@.len() - i,
                    {
                        copy.push(self.logs[i].clone());
                        i = i + 1;
                        assert(copy@ =~= self.logs@.subrange(0, i as int));
                    }
                    assert(copy@ =~= self.logs@);
                    self.outcome = Some(Ok(copy));
                } else {
                    line.append(" 次合并返回状态: ");
                    line.append(state.as_str());
                    self.logs.push(line);
                    if self.attempt == self.total_attempts {
                        let mut e = owned("MR 合并状态异常: ");
                        e.append(state.as_str());
                        self.outcome = Some(Err(e));
                    } else {
                        self.attempt = self.attempt + 1;
                    }
                }
            },
            Err(e) => {
                line.append(" 次合并失败: ");
                line.append(e.as_str());
                self.logs.push(line);
                if self.attempt == self.total_attempts {
                    self.outcome = Some(Err(e));
                } else {
                    self.attempt = self.attempt + 1;
                }
            },
        }
        proof {
            assert(self@.logs =~= retry_step(v, r).logs);
            assert(self@ =~= retry_step(v, r));
        }
    }
}

/// Every attempt either decides the outcome or moves to the next attempt, and
/// the last allowed attempt always decides it: a merge with retries sends at
/// most `total` merge requests.
pub proof fn law_retry_bounded(v: RetryView, reply: Result<Seq<char>, Seq<char>>)
    requires
        retry_wf(v),
        v.outcome is None,
    ensures
        retry_step(v, reply).outcome is Some || (retry_step(v, reply).attempt == v.attempt + 1
            && retry_wf(retry_step(v, reply))),
        v.attempt == v.total ==> retry_step(v, reply).outcome is Some,
        retry_step(v, reply).outcome matches Some(Ok(_)) <==> reply == Ok::<Seq<char>, Seq<char>>(
            "merged"@,
        ),
{
}

} // verus!
