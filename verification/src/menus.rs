//! The menus of the workflow: for each page that is a list to choose from,
//! its title, rows, the details of each row and the help page, built from the
//! configuration and the data the page shows.

use vstd::prelude::*;
use crate::config::{pair_views, sorted_pairs, views, Config};
use crate::gitlab::GitLabProject;
use crate::project::Project;
use crate::text::{decimal, is_empty_str, join, join_strings, owned, push_decimal};
use crate::tui::menu::{matching_indices, refreshed_selection, search_key, MenuState};
use crate::workflow::{custom_target, custom_target_of, masked, mask_token, sync_pairs, token_maskable, BranchMapDraft};

verus! {

/// A menu to show: its texts, rows, the detail lines of each row, its help
/// lines and, when it can be searched, the search hint.
pub struct MenuScreen {
    pub title: String,
    pub subtitle: String,
    pub items: Vec<String>,
    pub details: Vec<Vec<String>>,
    pub help: Vec<String>,
    pub search_hint: Option<String>,
}

/// The view of a menu to show.
pub struct ScreenView {
    pub title: Seq<char>,
    pub subtitle: Seq<char>,
    pub items: Seq<Seq<char>>,
    pub details: Seq<Seq<Seq<char>>>,
    pub help: Seq<Seq<char>>,
    pub search_hint: Option<Seq<char>>,
}

/// Views of the detail lines of rows.
pub open spec fn detail_views(d: Seq<Vec<String>>) -> Seq<Seq<Seq<char>>> {
    d.map_values(|v: Vec<String>| views(v@))
}

impl View for MenuScreen {
    type V = ScreenView;

    open spec fn view(&self) -> ScreenView {
        ScreenView {
            title: self.title@,
            subtitle: self.subtitle@,
            items: views(self.items@),
            details: detail_views(self.details@),
            help: views(self.help@),
            search_hint: match self.search_hint {
                Some(h) => Some(h@),
                None => None,
            },
        }
    }
}

impl MenuScreen {
    /// The menu state that shows this menu, with its help lines.
    pub fn into_menu(self) -> (r: (MenuState, Vec<String>))
        ensures
            r.0.title@ == self@.title,
            r.0.subtitle@ == self@.subtitle,
            r.0.items == self.items,
            r.0.details == self.details,
            r.0.search_enabled == self.search_hint is Some,
            self.search_hint matches Some(h) ==> r.0.search_hint@ == h@,
            !r.0.search_mode,
            r.0.search_query@.len() == 0,
            r.0.filtered() == matching_indices(self.items@, seq![], search_key(seq![]), self.items@.len()),
            r.0.list_state.selected == refreshed_selection(
                if self.items@.len() > 0 {
                    Some(0usize)
                } else {
                    None
                },
                r.0.filtered().len(),
            ),
            r.0.wf(),
            r.1 == self.help,
    {
        let menu = MenuState::new(self.title.as_str(), self.subtitle.as_str(), self.items).with_details(
            self.details,
        );
        let menu = match self.search_hint {
            Some(h) => {
                let m = menu.with_search(h.as_str());
                m
            },
            None => menu,
        };
        (menu, self.help)
    }
}

// ---- building lines ----

fn push_str(v: &mut Vec<String>, s: &str)
    ensures
        views(final(v)@) == views(old(v)@).push(s@),
{
    v.push(owned(s));
    assert(views(final(v)@) =~= views(old(v)@).push(s@));
}

fn push_joined(v: &mut Vec<String>, a: &str, b: &str)
    ensures
        views(final(v)@) == views(old(v)@).push(a@ + b@),
{
    let mut s = owned(a);
    s.append(b);
    v.push(s);
    assert(views(final(v)@) =~= views(old(v)@).push(a@ + b@));
}

fn push_three(v: &mut Vec<String>, a: &str, b: &str, c: &str)
    ensures
        views(final(v)@) == views(old(v)@).push(a@ + b@ + c@),
{
    let mut s = owned(a);
    s.append(b);
    s.append(c);
    v.push(s);
    assert(views(final(v)@) =~= views(old(v)@).push(a@ + b@ + c@));
}

fn push_number(v: &mut Vec<String>, a: &str, n: u64, c: &str)
    ensures
        views(final(v)@) == views(old(v)@).push(a@ + decimal(n as nat) + c@),
{
    let mut s = owned(a);
    push_decimal(&mut s, n);
    s.append(c);
    v.push(s);
    assert(views(final(v)@) =~= views(old(v)@).push(a@ + decimal(n as nat) + c@));
}

fn push_count(v: &mut Vec<String>, a: &str, n: u64)
    ensures
        views(final(v)@) == views(old(v)@).push(a@ + decimal(n as nat)),
{
    let mut s = owned(a);
    push_decimal(&mut s, n);
    v.push(s);
    assert(views(final(v)@) =~= views(old(v)@).push(a@ + decimal(n as nat)));
}

fn one(s: &str) -> (r: Vec<String>)
    ensures
        views(r@) == seq![s@],
{
    let mut r: Vec<String> = Vec::new();
    push_str(&mut r, s);
    assert(views(r@) =~= seq![s@]);
    r
}

fn two(a: &str, b: &str) -> (r: Vec<String>)
    ensures
        views(r@) == seq![a@, b@],
{
    let mut r: Vec<String> = Vec::new();
    push_str(&mut r, a);
    push_str(&mut r, b);
    assert(views(r@) =~= seq![a@, b@]);
    r
}

fn three(a: &str, b: &str, c: &str) -> (r: Vec<String>)
    ensures
        views(r@) == seq![a@, b@, c@],
{
    let mut r: Vec<String> = Vec::new();
    push_str(&mut r, a);
    push_str(&mut r, b);
    push_str(&mut r, c);
    assert(views(r@) =~= seq![a@, b@, c@]);
    r
}

fn four(a: &str, b: &str, c: &str, d: &str) -> (r: Vec<String>)
    ensures
        views(r@) == seq![a@, b@, c@, d@],
{
    let mut r: Vec<String> = Vec::new();
    push_str(&mut r, a);
    push_str(&mut r, b);
    push_str(&mut r, c);
    push_str(&mut r, d);
    assert(views(r@) =~= seq![a@, b@, c@, d@]);
    r
}

fn push_detail(d: &mut Vec<Vec<String>>, lines: Vec<String>)
    ensures
        detail_views(final(d)@) == detail_views(old(d)@).push(views(lines@)),
{
    d.push(lines);
    assert(detail_views(final(d)@) =~= detail_views(old(d)@).push(views(lines@)));
}

/// `{source} -> {target}` for each entry.
pub open spec fn arrows(m: Seq<(Seq<char>, Seq<char>)>) -> Seq<Seq<char>> {
    m.map_values(|p: (Seq<char>, Seq<char>)| p.0 + " -> "@ + p.1)
}

/// The `{source} -> {target}` lines of the first `n` entries.
fn arrow_lines(v: &mut Vec<String>, pairs: &Vec<(String, String)>, n: usize)
    requires
        n <= pairs@.len(),
    ensures
        views(final(v)@) == views(old(v)@) + arrows(pair_views(pairs@).subrange(0, n as int)),
{
    let ghost m = pair_views(pairs@);
    let ghost start = views(v@);
    let mut i: usize = 0;
    while i < n
        invariant
            i <= n <= pairs@.len(),
            m == pair_views(pairs@),
            views(v@) == start + arrows(m.subrange(0, i as int)),
        decreases n - i,
    {
        push_three(v, pairs[i].0.as_str(), " -> ", pairs[i].1.as_str());
        proof {
            assert(m.subrange(0, i + 1) =~= m.subrange(0, i as int).push(m[i as int]));
            assert(arrows(m.subrange(0, i + 1)) =~= arrows(m.subrange(0, i as int)).push(
                m[i as int].0 + " -> "@ + m[i as int].1,
            ));
        }
        i = i + 1;
    }
}

/// The detail lines of each entry: its source and target, then `extra`.
pub open spec fn pair_details(m: Seq<(Seq<char>, Seq<char>)>, extra: Seq<Seq<char>>) -> Seq<Seq<Seq<char>>> {
    m.map_values(|p: (Seq<char>, Seq<char>)| seq!["源分支: "@ + p.0, "目标分支: "@ + p.1] + extra)
}

fn pair_detail_lines(d: &mut Vec<Vec<String>>, pairs: &Vec<(String, String)>, extra: &Vec<String>)
    ensures
        detail_views(final(d)@) == detail_views(old(d)@) + pair_details(pair_views(pairs@), views(extra@)),
{
    let ghost m = pair_views(pairs@);
    let ghost start = detail_views(d@);
    let mut i: usize = 0;
    while i < pairs.len()
        invariant
            i <= pairs@.len(),
            m == pair_views(pairs@),
            detail_views(d@) == start + pair_details(m.subrange(0, i as int), views(extra@)),
        decreases pairs@.len() - i,
    {
        let mut lines: Vec<String> = Vec::new();
        push_joined(&mut lines, "源分支: ", pairs[i].0.as_str());
        push_joined(&mut lines, "目标分支: ", pairs[i].1.as_str());
        let mut k: usize = 0;
        let ghost head = views(lines@);
        while k < extra.len()
            invariant
                k <= extra@.len(),
                views(lines@) == head + views(extra@).subrange(0, k as int),
            decreases extra@.len() - k,
        {
            push_str(&mut lines, extra[k].as_str());
            assert(views(extra@).subrange(0, k + 1) =~= views(extra@).subrange(0, k as int).push(
                extra@[k as int]@,
            ));
            k = k + 1;
        }
        assert(views(extra@).subrange(0, extra@.len() as int) =~= views(extra@));
        assert(views(lines@) =~= seq!["源分支: "@ + m[i as int].0, "目标分支: "@ + m[i as int].1] + views(
            extra@,
        ));
        push_detail(d, lines);
        proof {
            let f = |p: (Seq<char>, Seq<char>)| seq!["源分支: "@ + p.0, "目标分支: "@ + p.1] + views(extra@);
            assert(m.subrange(0, i + 1) =~= m.subrange(0, i as int).push(m[i as int]));
            assert(m.subrange(0, i + 1).map_values(f) =~= m.subrange(0, i as int).map_values(f).push(
                f(m[i as int]),
            ));
        }
        i = i + 1;
    }
    assert(m.subrange(0, pairs@.len() as int) =~= m);
}

// ---- the menus ----

/// The main menu.
pub open spec fn main_menu_view() -> ScreenView {
    ScreenView {
        title: "gmux"@,
        subtitle: "终端 Git 工作流工具"@,
        items: seq!["本地分支同步 / 合并（含推送）"@, "GitLab MR 创建"@, "配置管理"@, "退出程序"@],
        details: seq![
            seq!["适合处理本地项目的环境分支同步、批量合并、单分支合并和推送。"@],
            seq!["适合直接创建单个或批量 Merge Request，并支持后续审批合并。"@],
            seq!["在 TUI 里直接修改分支相关配置，改动会自动写回 ~/.config/gmux/gmux.toml。"@],
            seq!["结束 gmux。"@],
        ],
        help: seq![
            "本地分支同步 / 合并：用于本地仓库的环境分支同步、批量 merge 和 push。"@,
            "GitLab MR 创建：用于创建单个或批量 Merge Request，并在成功后自动尝试审批与合并。"@,
            "配置管理：可以直接在界面里调整 merge_branch_middle、env_branches 和 branch_map，改动会自动保存。"@,
            "按 Enter 进入当前选中的功能，按 b 或 Esc 返回，按 q 退出程序。"@,
        ],
        search_hint: None,
    }
}

/// The main menu.
pub fn main_menu_screen() -> (r: MenuScreen)
    ensures
        r@ == main_menu_view(),
{
    let mut details: Vec<Vec<String>> = Vec::new();
    push_detail(&mut details, one("适合处理本地项目的环境分支同步、批量合并、单分支合并和推送。"));
    push_detail(&mut details, one("适合直接创建单个或批量 Merge Request，并支持后续审批合并。"));
    push_detail(&mut details, one("在 TUI 里直接修改分支相关配置，改动会自动写回 ~/.config/gmux/gmux.toml。"));
    push_detail(&mut details, one("结束 gmux。"));
    let r = MenuScreen {
        title: owned("gmux"),
        subtitle: owned("终端 Git 工作流工具"),
        items: four("本地分支同步 / 合并（含推送）", "GitLab MR 创建", "配置管理", "退出程序"),
        details,
        help: four(
            "本地分支同步 / 合并：用于本地仓库的环境分支同步、批量 merge 和 push。",
            "GitLab MR 创建：用于创建单个或批量 Merge Request，并在成功后自动尝试审批与合并。",
            "配置管理：可以直接在界面里调整 merge_branch_middle、env_branches 和 branch_map，改动会自动保存。",
            "按 Enter 进入当前选中的功能，按 b 或 Esc 返回，按 q 退出程序。",
        ),
        search_hint: None,
    };
    assert(r@.details =~= main_menu_view().details);
    r
}

/// The count line and the first four entries of the branch map, or a note
/// that it is empty.
pub open spec fn mapping_preview(m: Seq<(Seq<char>, Seq<char>)>) -> Seq<Seq<char>> {
    seq!["当前共 "@ + decimal(m.len()) + " 组映射"@] + if m.len() == 0 {
        seq!["当前没有映射"@]
    } else {
        arrows(
            m.subrange(
                0,
                if m.len() < 4 {
                    m.len() as int
                } else {
                    4
                },
            ),
        )
    }
}

/// The settings menu; `path` is where the configuration is saved.
pub open spec fn config_menu_view(config: Config, path: Seq<char>) -> ScreenView {
    let envs = views(config.project.env_branches@);
    let roots = views(config.project.root_dirs@);
    ScreenView {
        title: "gmux / 配置管理"@,
        subtitle: "动态修改分支相关配置，改动会自动保存"@,
        items: seq![
            "管理项目根目录"@,
            "管理环境分支"@,
            "管理 MR 映射"@,
            "修改合并分支中间名"@,
            "修改 GitLab 地址"@,
            "修改 GitLab Token"@,
            "预览并重建默认 MR 映射"@,
            "返回主菜单"@,
        ],
        details: seq![
            seq![
                "当前共 "@ + decimal(roots.len()) + " 个项目根目录"@,
                "当前值: "@ + join(roots, " | "@),
                "gmux 会汇总扫描这些目录下的本地 Git 仓库。"@,
            ],
            seq!["当前共 "@ + decimal(envs.len()) + " 个环境分支"@, "当前值: "@ + join(envs, " "@)],
            mapping_preview(sorted_pairs(config.branch_map@)),
            seq!["当前值: "@ + config.project.merge_branch_middle@, "会影响默认生成的 merge 分支名和默认 branch_map。"@],
            seq!["当前值: "@ + config.gitlab.host@, "用于加载 GitLab 项目和创建/审批/合并 MR。"@],
            seq!["当前 Token: "@ + masked(config.gitlab.token@), "修改后后续 GitLab API 请求会立即使用新的 Token。"@],
            seq![
                "先预览即将生成的默认映射，再决定是否覆盖当前 branch_map。"@,
                "适合在你调整了环境分支或 merge_branch_middle 之后使用。"@,
            ],
            seq!["配置路径: "@ + path, "这里的改动会立即自动保存并立刻影响后续操作。"@],
        ],
        help: seq![
            "这里更像一个工作流设置台：改完会自动保存并立刻生效。"@,
            "项目根目录支持多目录配置，适合把不同业务线或不同工作区一起纳入扫描。"@,
            "环境分支列表决定本地同步和本地合并的目标分支集合。"@,
            "MR 映射决定 GitLab 批量创建 MR 时会使用哪些 source -> target 关系。"@,
            "这里的修改会自动写回 ~/.config/gmux/gmux.toml，不需要额外手动保存。"@,
        ],
        search_hint: None,
    }
}

/// The settings menu; `path` is where the configuration is saved.
pub fn config_menu_screen(config: &Config, path: &str) -> (r: MenuScreen)
    requires
        token_maskable(config.gitlab.token@),
    ensures
        r@ == config_menu_view(*config, path@),
{
    let roots = &config.project.root_dirs;
    let mut root_lines: Vec<String> = Vec::new();
    push_number(&mut root_lines, "当前共 ", roots.len() as u64, " 个项目根目录");
    let joined_roots = join_strings(roots, " | ");
    push_joined(&mut root_lines, "当前值: ", joined_roots.as_str());
    push_str(&mut root_lines, "gmux 会汇总扫描这些目录下的本地 Git 仓库。");
    assert(roots@.map_values(|w: String| w@) =~= views(roots@));

    let envs = &config.project.env_branches;
    let mut env_lines: Vec<String> = Vec::new();
    push_number(&mut env_lines, "当前共 ", envs.len() as u64, " 个环境分支");
    let joined = join_strings(envs, " ");
    push_joined(&mut env_lines, "当前值: ", joined.as_str());
    assert(envs@.map_values(|w: String| w@) =~= views(envs@));

    let mappings = config.branch_map.sorted_entries();
    let ghost m = pair_views(mappings@);
    let mut map_lines: Vec<String> = Vec::new();
    push_number(&mut map_lines, "当前共 ", mappings.len() as u64, " 组映射");
    if mappings.len() == 0 {
        push_str(&mut map_lines, "当前没有映射");
    } else {
        let n = if mappings.len() < 4 {
            mappings.len()
        } else {
            4
        };
        arrow_lines(&mut map_lines, &mappings, n);
    }
    assert(views(map_lines@) =~= mapping_preview(m));

    let mut middle_lines: Vec<String> = Vec::new();
    push_joined(&mut middle_lines, "当前值: ", config.project.merge_branch_middle.as_str());
    push_str(&mut middle_lines, "会影响默认生成的 merge 分支名和默认 branch_map。");
    let mut host_lines: Vec<String> = Vec::new();
    push_joined(&mut host_lines, "当前值: ", config.gitlab.host.as_str());
    push_str(&mut host_lines, "用于加载 GitLab 项目和创建/审批/合并 MR。");
    let mut token_lines: Vec<String> = Vec::new();
    let token = mask_token(config.gitlab.token.as_str());
    push_joined(&mut token_lines, "当前 Token: ", token.as_str());
    push_str(&mut token_lines, "修改后后续 GitLab API 请求会立即使用新的 Token。");
    let mut path_lines: Vec<String> = Vec::new();
    push_joined(&mut path_lines, "配置路径: ", path);
    push_str(&mut path_lines, "这里的改动会立即自动保存并立刻影响后续操作。");

    let mut details: Vec<Vec<String>> = Vec::new();
    push_detail(&mut details, root_lines);
    push_detail(&mut details, env_lines);
    push_detail(&mut details, map_lines);
    push_detail(&mut details, middle_lines);
    push_detail(&mut details, host_lines);
    push_detail(&mut details, token_lines);
    push_detail(
        &mut details,
        two(
            "先预览即将生成的默认映射，再决定是否覆盖当前 branch_map。",
            "适合在你调整了环境分支或 merge_branch_middle 之后使用。",
        ),
    );
    push_detail(&mut details, path_lines);

    let mut items = four("管理项目根目录", "管理环境分支", "管理 MR 映射", "修改合并分支中间名");
    push_str(&mut items, "修改 GitLab 地址");
    push_str(&mut items, "修改 GitLab Token");
    push_str(&mut items, "预览并重建默认 MR 映射");
    push_str(&mut items, "返回主菜单");
    let mut help = four(
        "这里更像一个工作流设置台：改完会自动保存并立刻生效。",
        "项目根目录支持多目录配置，适合把不同业务线或不同工作区一起纳入扫描。",
        "环境分支列表决定本地同步和本地合并的目标分支集合。",
        "MR 映射决定 GitLab 批量创建 MR 时会使用哪些 source -> target 关系。",
    );
    push_str(&mut help, "这里的修改会自动写回 ~/.config/gmux/gmux.toml，不需要额外手动保存。");
    let r = MenuScreen {
        title: owned("gmux / 配置管理"),
        subtitle: owned("动态修改分支相关配置，改动会自动保存"),
        items,
        details,
        help,
        search_hint: None,
    };
    assert(r@.items =~= config_menu_view(*config, path@).items);
    assert(r@.help =~= config_menu_view(*config, path@).help);
    assert(r@.details =~~= config_menu_view(*config, path@).details);
    r
}

/// The details of the environment branch rows: position, name, what the row
/// leads to.
pub open spec fn env_rows(envs: Seq<Seq<char>>) -> Seq<Seq<Seq<char>>> {
    Seq::new(
        envs.len(),
        |i: int|
            seq![
                "当前顺序: "@ + decimal((i + 1) as nat),
                "分支名: "@ + envs[i],
                "进入后可以重命名、删除或调整顺序。"@,
            ],
    )
}

/// The name of what `Path::file_name` gives for a path.
pub uninterp spec fn file_name_of(path: Seq<char>) -> Option<Seq<char>>;

/// Calls `Path::file_name` on the path: the result is the name
/// [`file_name_of`] applied to the path. How the final component is found
/// (separators, `.` and `..`) is not written out here.
#[verifier::external_body]
fn file_name(path: &str) -> (r: Option<String>)
    ensures
        match r {
            Some(n) => file_name_of(path@) == Some(n@),
            None => file_name_of(path@) is None,
        },
{
    match std::path::Path::new(path).file_name() {
        Some(n) => Some(n.to_string_lossy().into_owned()),
        None => None,
    }
}

/// How a project root is named in the root list: its final component, or
/// the whole path when it has none or an empty one.
pub open spec fn root_label_of(root: Seq<char>) -> Seq<char> {
    match file_name_of(root) {
        Some(n) => if n.len() > 0 {
            n
        } else {
            root
        },
        None => root,
    }
}

/// How a project root is named in the root list.
pub fn root_label(root: &str) -> (r: String)
    ensures
        r@ == root_label_of(root@),
{
    match file_name(root) {
        Some(n) => if !is_empty_str(n.as_str()) {
            n
        } else {
            owned(root)
        },
        None => owned(root),
    }
}

/// The rows of the project roots: position and label.
pub open spec fn root_rows(roots: Seq<Seq<char>>) -> Seq<Seq<char>> {
    Seq::new(roots.len(), |i: int| "目录 "@ + decimal((i + 1) as nat) + ": "@ + root_label_of(roots[i]))
}

/// The details of the project root rows.
pub open spec fn root_details(roots: Seq<Seq<char>>) -> Seq<Seq<Seq<char>>> {
    Seq::new(roots.len(), |i: int| seq!["完整路径: "@ + roots[i], "进入后可以编辑或删除这个项目根目录。"@])
}

/// The list of project roots: add, the roots, back; searchable.
pub open spec fn project_roots_view(config: Config) -> ScreenView {
    let roots = views(config.project.root_dirs@);
    ScreenView {
        title: "gmux / 项目根目录"@,
        subtitle: "管理一个或多个项目扫描目录"@,
        items: seq!["新增项目根目录"@] + root_rows(roots) + seq!["返回配置管理"@],
        details: seq![seq!["添加新的项目扫描目录。"@]] + root_details(roots) + seq![seq!["返回上一层配置管理。"@]],
        help: seq![
            "这里管理 gmux 会扫描哪些本地工作目录。"@,
            "支持同时配置多个项目根目录，适合不同业务线或不同代码区。"@,
            "如果多个目录里有同名仓库，项目选择页会显示来源目录帮助你区分。"@,
        ],
        search_hint: Some("过滤项目根目录"@),
    }
}

/// The list of project roots.
pub fn project_roots_screen(config: &Config) -> (r: MenuScreen)
    ensures
        r@ == project_roots_view(*config),
{
    let roots = &config.project.root_dirs;
    let ghost rv = views(roots@);
    let mut items: Vec<String> = Vec::new();
    let mut details: Vec<Vec<String>> = Vec::new();
    push_str(&mut items, "新增项目根目录");
    push_detail(&mut details, one("添加新的项目扫描目录。"));
    let mut i: usize = 0;
    while i < roots.len()
        invariant
            i <= roots@.len(),
            rv == views(roots@),
            views(items@) == seq!["新增项目根目录"@] + root_rows(rv).subrange(0, i as int),
            detail_views(details@) == seq![seq!["添加新的项目扫描目录。"@]] + root_details(rv).subrange(0, i as int),
        decreases roots@.len() - i,
    {
        let mut row = owned("目录 ");
        push_decimal(&mut row, (i + 1) as u64);
        row.append(": ");
        let label = root_label(roots[i].as_str());
        row.append(label.as_str());
        assert(row@ == root_rows(rv)[i as int]);
        push_str(&mut items, row.as_str());
        let mut lines: Vec<String> = Vec::new();
        push_joined(&mut lines, "完整路径: ", roots[i].as_str());
        push_str(&mut lines, "进入后可以编辑或删除这个项目根目录。");
        assert(views(lines@) =~= root_details(rv)[i as int]);
        push_detail(&mut details, lines);
        proof {
            assert(root_rows(rv).subrange(0, i + 1) =~= root_rows(rv).subrange(0, i as int).push(
                root_rows(rv)[i as int],
            ));
            assert(seq!["新增项目根目录"@] + root_rows(rv).subrange(0, i + 1) =~= (seq!["新增项目根目录"@]
                + root_rows(rv).subrange(0, i as int)).push(root_rows(rv)[i as int]));
            assert(root_details(rv).subrange(0, i + 1) =~= root_details(rv).subrange(0, i as int).push(
                root_details(rv)[i as int],
            ));
        }
        i = i + 1;
    }
    assert(root_rows(rv).subrange(0, roots@.len() as int) =~= root_rows(rv));
    assert(root_details(rv).subrange(0, roots@.len() as int) =~= root_details(rv));
    push_str(&mut items, "返回配置管理");
    push_detail(&mut details, one("返回上一层配置管理。"));
    let r = MenuScreen {
        title: owned("gmux / 项目根目录"),
        subtitle: owned("管理一个或多个项目扫描目录"),
        items,
        details,
        help: three(
            "这里管理 gmux 会扫描哪些本地工作目录。",
            "支持同时配置多个项目根目录，适合不同业务线或不同代码区。",
            "如果多个目录里有同名仓库，项目选择页会显示来源目录帮助你区分。",
        ),
        search_hint: Some(owned("过滤项目根目录")),
    };
    assert(r@.items =~= project_roots_view(*config).items);
    assert(r@.details =~= project_roots_view(*config).details);
    r
}

/// The actions on the project root at `index`: edit, delete (only while
/// another root remains), back.
pub open spec fn project_root_actions_view(config: Config, index: int) -> ScreenView {
    let root = config.project.root_dirs@[index]@;
    let spare = config.project.root_dirs@.len() > 1;
    ScreenView {
        title: "gmux / 项目根目录操作"@,
        subtitle: "选择对当前项目根目录执行的操作"@,
        items: seq!["编辑路径"@] + (if spare {
            seq!["删除目录"@]
        } else {
            seq![]
        }) + seq!["返回项目根目录列表"@],
        details: seq![seq!["当前路径: "@ + root, "重新指定这个项目根目录。"@]] + (if spare {
            seq![seq!["当前路径: "@ + root, "从扫描列表中移除这个项目根目录。"@]]
        } else {
            seq![]
        }) + seq![seq!["返回项目根目录列表。"@]],
        help: seq!["每个项目根目录都可以单独编辑或删除。"@, "至少需要保留一个项目根目录。"@],
        search_hint: None,
    }
}

/// The actions on the project root at `index`.
pub fn project_root_actions_screen(config: &Config, index: usize) -> (r: MenuScreen)
    requires
        index < config.project.root_dirs@.len(),
    ensures
        r@ == project_root_actions_view(*config, index as int),
{
    let root = config.project.root_dirs[index].as_str();
    let spare = config.project.root_dirs.len() > 1;
    let mut items = one("编辑路径");
    let mut details: Vec<Vec<String>> = Vec::new();
    let mut first: Vec<String> = Vec::new();
    push_joined(&mut first, "当前路径: ", root);
    push_str(&mut first, "重新指定这个项目根目录。");
    push_detail(&mut details, first);
    if spare {
        push_str(&mut items, "删除目录");
        let mut del: Vec<String> = Vec::new();
        push_joined(&mut del, "当前路径: ", root);
        push_str(&mut del, "从扫描列表中移除这个项目根目录。");
        push_detail(&mut details, del);
    }
    push_str(&mut items, "返回项目根目录列表");
    push_detail(&mut details, one("返回项目根目录列表。"));
    let r = MenuScreen {
        title: owned("gmux / 项目根目录操作"),
        subtitle: owned("选择对当前项目根目录执行的操作"),
        items,
        details,
        help: two("每个项目根目录都可以单独编辑或删除。", "至少需要保留一个项目根目录。"),
        search_hint: None,
    };
    assert(r@.items =~= project_root_actions_view(*config, index as int).items);
    assert(r@.details =~~= project_root_actions_view(*config, index as int).details);
    r
}

/// The list of environment branches: add, the branches, back.
pub open spec fn env_branches_view(config: Config) -> ScreenView {
    let envs = views(config.project.env_branches@);
    ScreenView {
        title: "gmux / 环境分支管理"@,
        subtitle: "逐条管理 env_branches，不再需要一整行输入"@,
        items: seq!["新增环境分支"@] + envs + seq!["返回配置管理"@],
        details: seq![seq!["添加一个新的环境分支条目。"@]] + env_rows(envs) + seq![seq!["返回上一层配置管理。"@]],
        help: seq![
            "这里管理本地同步和本地合并会使用到的环境分支列表。"@,
            "你可以逐条新增、重命名、删除，或调整顺序。"@,
            "如果你还需要同步修改 GitLab MR 映射，去配置管理里的 branch_map 再调整。"@,
        ],
        search_hint: None,
    }
}

/// The list of environment branches: add, the branches, back.
pub fn env_branches_screen(config: &Config) -> (r: MenuScreen)
    ensures
        r@ == env_branches_view(*config),
{
    let envs = &config.project.env_branches;
    let ghost ev = views(envs@);
    let mut items: Vec<String> = Vec::new();
    let mut details: Vec<Vec<String>> = Vec::new();
    push_str(&mut items, "新增环境分支");
    push_detail(&mut details, one("添加一个新的环境分支条目。"));
    let mut i: usize = 0;
    while i < envs.len()
        invariant
            i <= envs@.len(),
            ev == views(envs@),
            views(items@) == seq!["新增环境分支"@] + ev.subrange(0, i as int),
            detail_views(details@) == seq![seq!["添加一个新的环境分支条目。"@]] + env_rows(ev).subrange(0, i as int),
        decreases envs@.len() - i,
    {
        push_str(&mut items, envs[i].as_str());
        let mut lines: Vec<String> = Vec::new();
        push_count(&mut lines, "当前顺序: ", (i + 1) as u64);
        push_joined(&mut lines, "分支名: ", envs[i].as_str());
        push_str(&mut lines, "进入后可以重命名、删除或调整顺序。");
        assert(views(lines@) =~= env_rows(ev)[i as int]);
        push_detail(&mut details, lines);
        proof {
            assert(ev.subrange(0, i + 1) =~= ev.subrange(0, i as int).push(ev[i as int]));
            assert(env_rows(ev).subrange(0, i + 1) =~= env_rows(ev).subrange(0, i as int).push(
                env_rows(ev)[i as int],
            ));
        }
        i = i + 1;
    }
    assert(ev.subrange(0, envs@.len() as int) =~= ev);
    assert(env_rows(ev).subrange(0, envs@.len() as int) =~= env_rows(ev));
    push_str(&mut items, "返回配置管理");
    push_detail(&mut details, one("返回上一层配置管理。"));
    let r = MenuScreen {
        title: owned("gmux / 环境分支管理"),
        subtitle: owned("逐条管理 env_branches，不再需要一整行输入"),
        items,
        details,
        help: three(
            "这里管理本地同步和本地合并会使用到的环境分支列表。",
            "你可以逐条新增、重命名、删除，或调整顺序。",
            "如果你还需要同步修改 GitLab MR 映射，去配置管理里的 branch_map 再调整。",
        ),
        search_hint: None,
    };
    assert(r@.items =~= env_branches_view(*config).items);
    assert(r@.details =~= env_branches_view(*config).details);
    r
}

/// The actions on the environment branch at `index`.
pub open spec fn env_actions_view(config: Config, index: int) -> ScreenView {
    let b = config.project.env_branches@[index]@;
    ScreenView {
        title: "gmux / 环境分支操作"@,
        subtitle: "正在管理环境分支: "@ + b,
        items: seq!["重命名"@, "上移"@, "下移"@, "删除"@, "返回环境分支列表"@],
        details: seq![
            seq!["当前分支: "@ + b],
            seq!["当前顺序: "@ + decimal((index + 1) as nat)],
            seq!["当前顺序: "@ + decimal((index + 1) as nat)],
            seq!["删除当前环境分支。"@],
            seq!["返回环境分支列表。"@],
        ],
        help: seq![
            "重命名：只修改这个环境分支自己的名称。"@,
            "上移/下移：调整分支顺序，影响列表展示和默认映射生成顺序。"@,
            "删除时如果有映射仍然指向这个环境分支，gmux 会继续问你要不要一起清理。"@,
        ],
        search_hint: None,
    }
}

/// The actions on the environment branch at `index`.
pub fn env_actions_screen(config: &Config, index: usize) -> (r: MenuScreen)
    requires
        index < config.project.env_branches@.len(),
    ensures
        r@ == env_actions_view(*config, index as int),
{
    let n = config.project.env_branches.len();
    assert(index < n);
    let b = config.project.env_branches[index].as_str();
    let mut first: Vec<String> = Vec::new();
    push_joined(&mut first, "当前分支: ", b);
    let mut up: Vec<String> = Vec::new();
    push_count(&mut up, "当前顺序: ", (index + 1) as u64);
    let mut down: Vec<String> = Vec::new();
    push_count(&mut down, "当前顺序: ", (index + 1) as u64);
    let mut details: Vec<Vec<String>> = Vec::new();
    push_detail(&mut details, first);
    push_detail(&mut details, up);
    push_detail(&mut details, down);
    push_detail(&mut details, one("删除当前环境分支。"));
    push_detail(&mut details, one("返回环境分支列表。"));
    let mut items = four("重命名", "上移", "下移", "删除");
    push_str(&mut items, "返回环境分支列表");
    let mut subtitle = owned("正在管理环境分支: ");
    subtitle.append(b);
    let r = MenuScreen {
        title: owned("gmux / 环境分支操作"),
        subtitle,
        items,
        details,
        help: three(
            "重命名：只修改这个环境分支自己的名称。",
            "上移/下移：调整分支顺序，影响列表展示和默认映射生成顺序。",
            "删除时如果有映射仍然指向这个环境分支，gmux 会继续问你要不要一起清理。",
        ),
        search_hint: None,
    };
    assert(r@.items =~= env_actions_view(*config, index as int).items);
    assert(r@.details =~~= env_actions_view(*config, index as int).details);
    r
}

/// The confirmation of deleting environment branch `b`, whose linked
/// branch map sources are `linked`.
pub open spec fn delete_confirm_view(b: Seq<char>, linked: Seq<Seq<char>>) -> ScreenView {
    ScreenView {
        title: "gmux / 删除环境分支"@,
        subtitle: "你正在删除环境分支: "@ + b,
        items: if linked.len() == 0 {
            seq!["确认删除环境分支"@, "取消"@]
        } else {
            seq![
                "删除环境分支，并删除 "@ + decimal(linked.len()) + " 组关联映射"@,
                "只删除环境分支，保留现有映射"@,
                "取消"@,
            ]
        },
        details: if linked.len() == 0 {
            seq![seq!["将删除环境分支: "@ + b], seq!["不执行删除。"@]]
        } else {
            seq![
                seq!["将删除环境分支: "@ + b] + linked.map_values(|s: Seq<char>| "关联映射: "@ + s + " -> "@ + b),
                seq!["将删除环境分支: "@ + b, "当前 branch_map 仍然会保留这些映射。"@],
                seq!["不执行删除。"@],
            ]
        },
        help: seq![
            "如果一个环境分支仍然被 branch_map 当作目标分支引用，最好一起清理对应映射。"@,
            "保留映射也不是不可以，但后续批量 MR 可能会继续用到已经不在环境列表里的目标分支。"@,
        ],
        search_hint: None,
    }
}

/// The confirmation of deleting environment branch `branch`.
pub fn delete_confirm_screen(branch: &str, linked: &Vec<String>) -> (r: MenuScreen)
    ensures
        r@ == delete_confirm_view(branch@, views(linked@)),
{
    let ghost lv = views(linked@);
    let mut items: Vec<String> = Vec::new();
    let mut details: Vec<Vec<String>> = Vec::new();
    let mut first: Vec<String> = Vec::new();
    push_joined(&mut first, "将删除环境分支: ", branch);
    if linked.len() == 0 {
        push_str(&mut items, "确认删除环境分支");
        push_str(&mut items, "取消");
        push_detail(&mut details, first);
        push_detail(&mut details, one("不执行删除。"));
    } else {
        push_number(&mut items, "删除环境分支，并删除 ", linked.len() as u64, " 组关联映射");
        push_str(&mut items, "只删除环境分支，保留现有映射");
        push_str(&mut items, "取消");
        let mut i: usize = 0;
        while i < linked.len()
            invariant
                i <= linked@.len(),
                lv == views(linked@),
                views(first@) == seq!["将删除环境分支: "@ + branch@] + lv.subrange(0, i as int).map_values(
                    |s: Seq<char>| "关联映射: "@ + s + " -> "@ + branch@,
                ),
            decreases linked@.len() - i,
        {
            let mut line = owned("关联映射: ");
            line.append(linked[i].as_str());
            line.append(" -> ");
            line.append(branch);
            let ghost before = views(first@);
            first.push(line);
            proof {
                let f = |s: Seq<char>| "关联映射: "@ + s + " -> "@ + branch@;
                assert(views(first@) =~= before.push(f(lv[i as int])));
                assert(lv.subrange(0, i + 1) =~= lv.subrange(0, i as int).push(lv[i as int]));
                assert(lv.subrange(0, i + 1).map_values(f) =~= lv.subrange(0, i as int).map_values(f).push(
                    f(lv[i as int]),
                ));
            }
            i = i + 1;
        }
        assert(lv.subrange(0, linked@.len() as int) =~= lv);
        push_detail(&mut details, first);
        let mut second: Vec<String> = Vec::new();
        push_joined(&mut second, "将删除环境分支: ", branch);
        push_str(&mut second, "当前 branch_map 仍然会保留这些映射。");
        push_detail(&mut details, second);
        push_detail(&mut details, one("不执行删除。"));
    }
    let mut subtitle = owned("你正在删除环境分支: ");
    subtitle.append(branch);
    let r = MenuScreen {
        title: owned("gmux / 删除环境分支"),
        subtitle,
        items,
        details,
        help: two(
            "如果一个环境分支仍然被 branch_map 当作目标分支引用，最好一起清理对应映射。",
            "保留映射也不是不可以，但后续批量 MR 可能会继续用到已经不在环境列表里的目标分支。",
        ),
        search_hint: None,
    };
    assert(r@.items =~= delete_confirm_view(branch@, lv).items);
    assert(r@.details =~~= delete_confirm_view(branch@, lv).details);
    r
}

/// The list of branch map entries, in order of source: add, the entries,
/// back; searchable.
pub open spec fn branch_map_view(config: Config) -> ScreenView {
    let m = sorted_pairs(config.branch_map@);
    ScreenView {
        title: "gmux / branch_map 管理"@,
        subtitle: "逐条管理 GitLab MR 的源分支与目标分支映射"@,
        items: seq!["新增映射"@] + arrows(m) + seq!["返回配置管理"@],
        details: seq![seq!["添加一组新的 GitLab MR 映射。"@]] + pair_details(m, seq!["进入后可以编辑或删除这组映射。"@])
            + seq![seq!["返回上一层配置管理。"@]],
        help: seq![
            "这里管理 GitLab MR 使用的 branch_map。"@,
            "批量 MR 会按这里的映射逐组创建。"@,
            "你可以逐条新增、编辑或删除，不需要再手写整行映射文本。"@,
        ],
        search_hint: Some("输入源分支或目标分支关键词"@),
    }
}

/// The list of branch map entries.
pub fn branch_map_screen(config: &Config) -> (r: MenuScreen)
    ensures
        r@ == branch_map_view(*config),
{
    let mappings = config.branch_map.sorted_entries();
    let ghost m = pair_views(mappings@);
    let mut items: Vec<String> = Vec::new();
    push_str(&mut items, "新增映射");
    arrow_lines(&mut items, &mappings, mappings.len());
    assert(m.subrange(0, mappings@.len() as int) =~= m);
    push_str(&mut items, "返回配置管理");
    let mut details: Vec<Vec<String>> = Vec::new();
    push_detail(&mut details, one("添加一组新的 GitLab MR 映射。"));
    let extra = one("进入后可以编辑或删除这组映射。");
    pair_detail_lines(&mut details, &mappings, &extra);
    push_detail(&mut details, one("返回上一层配置管理。"));
    let r = MenuScreen {
        title: owned("gmux / branch_map 管理"),
        subtitle: owned("逐条管理 GitLab MR 的源分支与目标分支映射"),
        items,
        details,
        help: three(
            "这里管理 GitLab MR 使用的 branch_map。",
            "批量 MR 会按这里的映射逐组创建。",
            "你可以逐条新增、编辑或删除，不需要再手写整行映射文本。",
        ),
        search_hint: Some(owned("输入源分支或目标分支关键词")),
    };
    assert(r@.items =~= branch_map_view(*config).items);
    assert(r@.details =~~= branch_map_view(*config).details);
    r
}

/// The target of `source` in the branch map, empty when it has none.
pub open spec fn target_of(config: Config, source: Seq<char>) -> Seq<char> {
    if config.branch_map@.contains_key(source) {
        config.branch_map@[source]
    } else {
        seq![]
    }
}

/// The actions on the entry of `source`.
pub open spec fn map_actions_view(config: Config, source: Seq<char>) -> ScreenView {
    let target = target_of(config, source);
    ScreenView {
        title: "gmux / 映射操作"@,
        subtitle: "正在管理映射: "@ + source + " -> "@ + target,
        items: seq!["编辑映射"@, "删除映射"@, "返回映射列表"@],
        details: seq![
            seq!["源分支: "@ + source, "目标分支: "@ + target],
            seq!["删除当前这组映射。"@],
            seq!["返回 branch_map 列表。"@],
        ],
        help: seq![
            "编辑映射：修改当前这组 source -> target。"@,
            "删除映射后，这组关系不会再出现在单个 MR、批量 MR 和多选 MR 中。"@,
        ],
        search_hint: None,
    }
}

/// The actions on the entry of `source`.
pub fn map_actions_screen(config: &Config, source: &str) -> (r: MenuScreen)
    ensures
        r@ == map_actions_view(*config, source@),
{
    let target = match config.branch_map.get(source) {
        Some(t) => t.clone(),
        None => String::new(),
    };
    let mut first: Vec<String> = Vec::new();
    push_joined(&mut first, "源分支: ", source);
    push_joined(&mut first, "目标分支: ", target.as_str());
    let mut details: Vec<Vec<String>> = Vec::new();
    push_detail(&mut details, first);
    push_detail(&mut details, one("删除当前这组映射。"));
    push_detail(&mut details, one("返回 branch_map 列表。"));
    let mut subtitle = owned("正在管理映射: ");
    subtitle.append(source);
    subtitle.append(" -> ");
    subtitle.append(target.as_str());
    let r = MenuScreen {
        title: owned("gmux / 映射操作"),
        subtitle,
        items: three("编辑映射", "删除映射", "返回映射列表"),
        details,
        help: two(
            "编辑映射：修改当前这组 source -> target。",
            "删除映射后，这组关系不会再出现在单个 MR、批量 MR 和多选 MR 中。",
        ),
        search_hint: None,
    };
    assert(r@.details =~~= map_actions_view(*config, source@).details);
    r
}

/// The targets offered for the entry of a draft: its custom target when it
/// has one, each environment branch, another to type, back.
pub open spec fn target_select_view(config: Config, draft: BranchMapDraft) -> ScreenView {
    let custom = custom_target_of(
        config,
        match draft.original_source {
            Some(o) => Some(o@),
            None => None,
        },
    );
    let envs = views(config.project.env_branches@);
    let src = draft.source_branch@;
    ScreenView {
        title: "gmux / 选择目标分支"@,
        subtitle: "为 `"@ + src + "` 选择目标分支"@,
        items: (match custom {
            Some(t) => seq!["保留当前自定义目标分支: "@ + t],
            None => seq![],
        }) + envs.map_values(|e: Seq<char>| "使用环境分支: "@ + e) + seq!["手动输入其他目标分支"@, "返回上一步"@],
        details: (match custom {
            Some(t) => seq![seq!["源分支: "@ + src, "目标分支: "@ + t]],
            None => seq![],
        }) + envs.map_values(|e: Seq<char>| seq!["源分支: "@ + src, "目标分支: "@ + e]) + seq![
            seq!["源分支: "@ + src, "适合目标分支不在环境分支列表中的场景。"@],
            seq!["返回源分支编辑页。"@],
        ],
        help: seq![
            "优先直接从环境分支列表里选目标分支，这样最不容易拼错。"@,
            "只有目标分支不在环境分支列表里时，再使用“手动输入其他目标分支”。"@,
        ],
        search_hint: None,
    }
}

/// The targets offered for the entry of a draft.
pub fn target_select_screen(config: &Config, draft: &BranchMapDraft) -> (r: MenuScreen)
    ensures
        r@ == target_select_view(*config, *draft),
{
    let custom = custom_target(
        config,
        match &draft.original_source {
            Some(o) => Some(o.as_str()),
            None => None,
        },
    );
    let src = draft.source_branch.as_str();
    let envs = &config.project.env_branches;
    let ghost ev = views(envs@);
    let mut items: Vec<String> = Vec::new();
    let mut details: Vec<Vec<String>> = Vec::new();
    match &custom {
        Some(t) => {
            push_joined(&mut items, "保留当前自定义目标分支: ", t.as_str());
            let mut lines: Vec<String> = Vec::new();
            push_joined(&mut lines, "源分支: ", src);
            push_joined(&mut lines, "目标分支: ", t.as_str());
            push_detail(&mut details, lines);
        },
        None => {},
    }
    let ghost head_items = views(items@);
    let ghost head_details = detail_views(details@);
    let mut i: usize = 0;
    while i < envs.len()
        invariant
            i <= envs@.len(),
            ev == views(envs@),
            views(items@) == head_items + ev.subrange(0, i as int).map_values(|e: Seq<char>| "使用环境分支: "@ + e),
            detail_views(details@) == head_details + ev.subrange(0, i as int).map_values(
                |e: Seq<char>| seq!["源分支: "@ + src@, "目标分支: "@ + e],
            ),
        decreases envs@.len() - i,
    {
        push_joined(&mut items, "使用环境分支: ", envs[i].as_str());
        let mut lines: Vec<String> = Vec::new();
        push_joined(&mut lines, "源分支: ", src);
        push_joined(&mut lines, "目标分支: ", envs[i].as_str());
        assert(views(lines@) =~= seq!["源分支: "@ + src@, "目标分支: "@ + ev[i as int]]);
        push_detail(&mut details, lines);
        proof {
            let f = |e: Seq<char>| "使用环境分支: "@ + e;
            let g = |e: Seq<char>| seq!["源分支: "@ + src@, "目标分支: "@ + e];
            assert(ev.subrange(0, i + 1) =~= ev.subrange(0, i as int).push(ev[i as int]));
            assert(ev.subrange(0, i + 1).map_values(f) =~= ev.subrange(0, i as int).map_values(f).push(
                f(ev[i as int]),
            ));
            assert(ev.subrange(0, i + 1).map_values(g) =~= ev.subrange(0, i as int).map_values(g).push(
                g(ev[i as int]),
            ));
        }
        i = i + 1;
    }
    assert(ev.subrange(0, envs@.len() as int) =~= ev);
    push_str(&mut items, "手动输入其他目标分支");
    push_str(&mut items, "返回上一步");
    let mut custom_lines: Vec<String> = Vec::new();
    push_joined(&mut custom_lines, "源分支: ", src);
    push_str(&mut custom_lines, "适合目标分支不在环境分支列表中的场景。");
    push_detail(&mut details, custom_lines);
    push_detail(&mut details, one("返回源分支编辑页。"));
    let mut subtitle = owned("为 `");
    subtitle.append(src);
    subtitle.append("` 选择目标分支");
    let r = MenuScreen {
        title: owned("gmux / 选择目标分支"),
        subtitle,
        items,
        details,
        help: two(
            "优先直接从环境分支列表里选目标分支，这样最不容易拼错。",
            "只有目标分支不在环境分支列表里时，再使用“手动输入其他目标分支”。",
        ),
        search_hint: None,
    };
    assert(r@.items =~= target_select_view(*config, *draft).items);
    assert(r@.details =~~= target_select_view(*config, *draft).details);
    r
}

/// The preview of replacing the branch map with the default `mappings`:
/// the counts and the first eight entries.
pub open spec fn reset_preview_view(config: Config, mappings: Seq<(Seq<char>, Seq<char>)>) -> ScreenView {
    ScreenView {
        title: "gmux / 预览默认 MR 映射"@,
        subtitle: "确认是否用新的默认映射覆盖当前 branch_map"@,
        items: seq!["确认覆盖当前映射"@, "取消"@],
        details: seq![
            seq![
                "当前映射数: "@ + decimal(config.branch_map@.dom().len()),
                "新默认映射数: "@ + decimal(mappings.len()),
            ] + arrows(
                mappings.subrange(
                    0,
                    if mappings.len() < 8 {
                        mappings.len() as int
                    } else {
                        8
                    },
                ),
            ),
            seq!["取消本次重建，保持当前 branch_map 不变。"@],
        ],
        help: seq![
            "这一步会用当前环境分支列表和 merge_branch_middle 重新生成默认 MR 映射。"@,
            "如果你已经手工定制过 branch_map，确认前先看清楚会生成哪些新映射。"@,
        ],
        search_hint: None,
    }
}

/// The preview of replacing the branch map with the default `mappings`.
pub fn reset_preview_screen(config: &Config, mappings: &Vec<(String, String)>) -> (r: MenuScreen)
    ensures
        r@ == reset_preview_view(*config, pair_views(mappings@)),
{
    let mut first: Vec<String> = Vec::new();
    push_count(&mut first, "当前映射数: ", config.branch_map.len() as u64);
    push_count(&mut first, "新默认映射数: ", mappings.len() as u64);
    let n = if mappings.len() < 8 {
        mappings.len()
    } else {
        8
    };
    arrow_lines(&mut first, mappings, n);
    let mut details: Vec<Vec<String>> = Vec::new();
    push_detail(&mut details, first);
    push_detail(&mut details, one("取消本次重建，保持当前 branch_map 不变。"));
    let r = MenuScreen {
        title: owned("gmux / 预览默认 MR 映射"),
        subtitle: owned("确认是否用新的默认映射覆盖当前 branch_map"),
        items: two("确认覆盖当前映射", "取消"),
        details,
        help: two(
            "这一步会用当前环境分支列表和 merge_branch_middle 重新生成默认 MR 映射。",
            "如果你已经手工定制过 branch_map，确认前先看清楚会生成哪些新映射。",
        ),
        search_hint: None,
    };
    assert(r@.details =~~= reset_preview_view(*config, pair_views(mappings@)).details);
    r
}

/// The branch map entries to create one merge request from; searchable.
pub open spec fn mapping_select_view(config: Config) -> ScreenView {
    let m = sorted_pairs(config.branch_map@);
    ScreenView {
        title: "gmux / 分支映射"@,
        subtitle: "选择源分支与目标分支的映射关系"@,
        items: arrows(m),
        details: pair_details(m, seq![]),
        help: seq![
            "这里使用配置文件中的 branch_map 定义源分支和目标分支关系。"@,
            "选择后会先进入 GitLab MR 执行预览，再决定是否真正创建。"@,
            "按 / 可以搜索源分支名或目标分支名。"@,
        ],
        search_hint: Some("输入源分支或目标分支关键词"@),
    }
}

/// The branch map entries to create one merge request from.
pub fn mapping_select_screen(config: &Config) -> (r: MenuScreen)
    ensures
        r@ == mapping_select_view(*config),
{
    let mappings = config.branch_map.sorted_entries();
    let ghost m = pair_views(mappings@);
    let mut items: Vec<String> = Vec::new();
    arrow_lines(&mut items, &mappings, mappings.len());
    assert(m.subrange(0, mappings@.len() as int) =~= m);
    let mut details: Vec<Vec<String>> = Vec::new();
    let extra: Vec<String> = Vec::new();
    pair_detail_lines(&mut details, &mappings, &extra);
    assert(views(extra@) =~= seq![]);
    let r = MenuScreen {
        title: owned("gmux / 分支映射"),
        subtitle: owned("选择源分支与目标分支的映射关系"),
        items,
        details,
        help: three(
            "这里使用配置文件中的 branch_map 定义源分支和目标分支关系。",
            "选择后会先进入 GitLab MR 执行预览，再决定是否真正创建。",
            "按 / 可以搜索源分支名或目标分支名。",
        ),
        search_hint: Some(owned("输入源分支或目标分支关键词")),
    };
    assert(r@.items =~= mapping_select_view(*config).items);
    assert(r@.details =~~= mapping_select_view(*config).details);
    r
}

/// The details of a project row: its name, path and each environment branch
/// with its merge branch.
pub open spec fn project_details(config: Config, p: Project) -> Seq<Seq<char>> {
    seq!["名称: "@ + p.name@, "路径: "@ + p.path@, "来源目录: "@ + p.source_root@] + arrows(
        sync_pairs(config, p.name@),
    )
}

/// Whether another project in the list has the same name as project `i`.
pub open spec fn name_shared(projects: Seq<Project>, i: int) -> bool {
    exists|j: int| 0 <= j < projects.len() && j != i && #[trigger] projects[j].name@ == projects[i].name@
}

/// How project `i` is named in the project list: its name, followed by the
/// label of its project root in brackets when another project has the same
/// name.
pub open spec fn display_label(projects: Seq<Project>, i: int) -> Seq<char> {
    if name_shared(projects, i) {
        projects[i].name@ + " ("@ + root_label_of(projects[i].source_root@) + ")"@
    } else {
        projects[i].name@
    }
}

/// Whether another project in the list has the same name as project `i`.
fn shares_name(projects: &Vec<Project>, i: usize) -> (r: bool)
    requires
        i < projects@.len(),
    ensures
        r == name_shared(projects@, i as int),
{
    let mut j: usize = 0;
    while j < projects.len()
        invariant
            i < projects@.len(),
            j <= projects@.len(),
            forall|k: int| 0 <= k < j && k != i ==> projects@[k].name@ != projects@[i as int].name@,
        decreases projects@.len() - j,
    {
        if j != i && crate::text::str_eq(projects[j].name.as_str(), projects[i].name.as_str()) {
            assert(projects@[j as int].name@ == projects@[i as int].name@);
            return true;
        }
        j = j + 1;
    }
    false
}

/// How project `i` is named in the project list.
pub fn display_name(projects: &Vec<Project>, i: usize) -> (r: String)
    requires
        i < projects@.len(),
    ensures
        r@ == display_label(projects@, i as int),
{
    let p = &projects[i];
    let mut r = owned(p.name.as_str());
    if shares_name(projects, i) {
        r.append(" (");
        let label = root_label(p.source_root.as_str());
        r.append(label.as_str());
        r.append(")");
    }
    r
}

/// The list of local repositories; searchable.
pub open spec fn project_select_view(config: Config, projects: Seq<Project>) -> ScreenView {
    ScreenView {
        title: "gmux / 项目选择"@,
        subtitle: "选择一个本地 Git 仓库进行同步或合并操作"@,
        items: Seq::new(projects.len(), |i: int| display_label(projects, i)),
        details: projects.map_values(|p: Project| project_details(config, p)),
        help: seq![
            "这里显示所有项目根目录下扫描到的本地 Git 仓库。"@,
            "如果多个工作目录里有同名仓库，项目名后会带上来源目录。"@,
            "按 / 搜索项目名或路径关键词，便于仓库较多时快速定位。"@,
            "进入项目后可以继续做本地同步、批量 merge 或单目标 merge。"@,
        ],
        search_hint: Some("输入项目名或路径关键词"@),
    }
}

/// The list of local repositories.
pub fn project_select_screen(config: &Config, projects: &Vec<Project>) -> (r: MenuScreen)
    ensures
        r@ == project_select_view(*config, projects@),
{
    let ghost ps = projects@;
    let mut items: Vec<String> = Vec::new();
    let mut details: Vec<Vec<String>> = Vec::new();
    let mut i: usize = 0;
    while i < projects.len()
        invariant
            i <= projects@.len(),
            ps == projects@,
            views(items@) == Seq::new(ps.len(), |k: int| display_label(ps, k)).subrange(0, i as int),
            detail_views(details@) == ps.subrange(0, i as int).map_values(|p: Project| project_details(*config, p)),
        decreases projects@.len() - i,
    {
        let p = &projects[i];
        let label = display_name(projects, i);
        push_str(&mut items, label.as_str());
        let mut lines: Vec<String> = Vec::new();
        push_joined(&mut lines, "名称: ", p.name.as_str());
        push_joined(&mut lines, "路径: ", p.path.as_str());
        push_joined(&mut lines, "来源目录: ", p.source_root.as_str());
        let pairs = crate::project::get_target_merge_branches(config, p.name.as_str());
        let ghost sp = sync_pairs(*config, p.name@);
        assert(pair_views(pairs@) =~= sp);
        arrow_lines(&mut lines, &pairs, pairs.len());
        assert(sp.subrange(0, pairs@.len() as int) =~= sp);
        assert(views(lines@) =~= project_details(*config, *p));
        push_detail(&mut details, lines);
        proof {
            let f = Seq::new(ps.len(), |k: int| display_label(ps, k));
            let g = |p: Project| project_details(*config, p);
            assert(ps.subrange(0, i + 1) =~= ps.subrange(0, i as int).push(ps[i as int]));
            assert(f.subrange(0, i + 1) =~= f.subrange(0, i as int).push(f[i as int]));
            assert(ps.subrange(0, i + 1).map_values(g) =~= ps.subrange(0, i as int).map_values(g).push(
                g(ps[i as int]),
            ));
        }
        i = i + 1;
    }
    assert(ps.subrange(0, projects@.len() as int) =~= ps);
    assert(Seq::new(ps.len(), |k: int| display_label(ps, k)).subrange(0, ps.len() as int) =~= Seq::new(
        ps.len(),
        |k: int| display_label(ps, k),
    ));
    MenuScreen {
        title: owned("gmux / 项目选择"),
        subtitle: owned("选择一个本地 Git 仓库进行同步或合并操作"),
        items,
        details,
        help: four(
            "这里显示所有项目根目录下扫描到的本地 Git 仓库。",
            "如果多个工作目录里有同名仓库，项目名后会带上来源目录。",
            "按 / 搜索项目名或路径关键词，便于仓库较多时快速定位。",
            "进入项目后可以继续做本地同步、批量 merge 或单目标 merge。",
        ),
        search_hint: Some(owned("输入项目名或路径关键词")),
    }
}

/// The operations on a project, with the number of environment branches.
pub open spec fn local_operation_view(config: Config) -> ScreenView {
    let n = decimal(config.project.env_branches@.len());
    ScreenView {
        title: "gmux / 本地操作"@,
        subtitle: "上下选择操作类型，Enter 确认"@,
        items: seq![
            "同步 "@ + n + " 个环境分支并推送到对应合并分支"@,
            "将指定分支合并到全部 "@ + n + " 个目标合并分支"@,
            "将指定分支合并到单个目标合并分支"@,
            "自定义选择多个目标合并分支"@,
        ],
        details: seq![
            seq!["依次更新各环境分支，再同步到对应合并分支并 push。"@],
            seq!["从本地分支列表中选择源分支，再合并到所有目标合并分支并分别 push。"@],
            seq!["先选择源分支，再选择一个目标合并分支进行 merge + push。"@],
            seq!["从目标分支列表中手动勾选多个环境分支，适合灰度或局部回合并。"@],
        ],
        help: seq![
            "同步：更新各环境分支，再同步到对应合并分支并 push。"@,
            "批量合并：选择一个源分支后，将其 merge 到全部目标合并分支。"@,
            "自定义多选：适合灰度、局部回合并或临时只处理部分环境。"@,
        ],
        search_hint: None,
    }
}

/// The operations on a project.
pub fn local_operation_screen(config: &Config) -> (r: MenuScreen)
    ensures
        r@ == local_operation_view(*config),
{
    let n = config.project.env_branches.len() as u64;
    let mut items: Vec<String> = Vec::new();
    push_number(&mut items, "同步 ", n, " 个环境分支并推送到对应合并分支");
    push_number(&mut items, "将指定分支合并到全部 ", n, " 个目标合并分支");
    push_str(&mut items, "将指定分支合并到单个目标合并分支");
    push_str(&mut items, "自定义选择多个目标合并分支");
    let mut details: Vec<Vec<String>> = Vec::new();
    push_detail(&mut details, one("依次更新各环境分支，再同步到对应合并分支并 push。"));
    push_detail(&mut details, one("从本地分支列表中选择源分支，再合并到所有目标合并分支并分别 push。"));
    push_detail(&mut details, one("先选择源分支，再选择一个目标合并分支进行 merge + push。"));
    push_detail(&mut details, one("从目标分支列表中手动勾选多个环境分支，适合灰度或局部回合并。"));
    let r = MenuScreen {
        title: owned("gmux / 本地操作"),
        subtitle: owned("上下选择操作类型，Enter 确认"),
        items,
        details,
        help: three(
            "同步：更新各环境分支，再同步到对应合并分支并 push。",
            "批量合并：选择一个源分支后，将其 merge 到全部目标合并分支。",
            "自定义多选：适合灰度、局部回合并或临时只处理部分环境。",
        ),
        search_hint: None,
    };
    assert(r@.items =~= local_operation_view(*config).items);
    assert(r@.details =~~= local_operation_view(*config).details);
    r
}

/// The details of a branch row: its name, and whether it is checked out.
pub open spec fn branch_details(b: Seq<char>, current: Option<Seq<char>>) -> Seq<Seq<char>> {
    seq!["分支: "@ + b] + if current == Some(b) {
        seq!["当前检出: 是"@]
    } else {
        seq![]
    }
}

/// The local branches to take as the source; searchable.
pub open spec fn source_branch_view(branches: Seq<Seq<char>>, current: Option<Seq<char>>) -> ScreenView {
    ScreenView {
        title: "gmux / 源分支"@,
        subtitle: "选择一个本地分支作为源分支"@,
        items: branches,
        details: branches.map_values(|b: Seq<char>| branch_details(b, current)),
        help: seq![
            "源分支是这次 merge 或同步的输入分支。"@,
            "列表来自当前本地仓库的本地分支；可按 / 搜索。"@,
            "进入下一步后，gmux 会先展示执行前检查和完整预览。"@,
        ],
        search_hint: Some("输入分支关键词"@),
    }
}

/// The local branches to take as the source; `current` is the checked-out one.
pub fn source_branch_screen(branches: &Vec<String>, current: &Option<String>) -> (r: MenuScreen)
    ensures
        r@ == source_branch_view(
            views(branches@),
            match current {
                Some(c) => Some(c@),
                None => None,
            },
        ),
{
    let ghost bv = views(branches@);
    let ghost cur = match current {
        Some(c) => Some(c@),
        None => None,
    };
    let mut details: Vec<Vec<String>> = Vec::new();
    let mut i: usize = 0;
    while i < branches.len()
        invariant
            i <= branches@.len(),
            bv == views(branches@),
            cur == match current {
                Some(c) => Some(c@),
                None => None::<Seq<char>>,
            },
            detail_views(details@) == bv.subrange(0, i as int).map_values(|b: Seq<char>| branch_details(b, cur)),
        decreases branches@.len() - i,
    {
        assert(bv[i as int] == branches@[i as int]@);
        let mut lines: Vec<String> = Vec::new();
        push_joined(&mut lines, "分支: ", branches[i].as_str());
        let checked_out = match current {
            Some(c) => crate::text::str_eq(c.as_str(), branches[i].as_str()),
            None => false,
        };
        if checked_out {
            push_str(&mut lines, "当前检出: 是");
            assert(cur == Some(bv[i as int]));
            assert(views(lines@) =~= seq!["分支: "@ + bv[i as int]] + seq!["当前检出: 是"@]);
        } else {
            assert(cur != Some(bv[i as int]));
            assert(views(lines@) =~= seq!["分支: "@ + bv[i as int]] + Seq::<Seq<char>>::empty());
        }
        push_detail(&mut details, lines);
        proof {
            let f = |b: Seq<char>| branch_details(b, cur);
            assert(bv.subrange(0, i + 1) =~= bv.subrange(0, i as int).push(bv[i as int]));
            assert(bv.subrange(0, i + 1).map_values(f) =~= bv.subrange(0, i as int).map_values(f).push(
                f(bv[i as int]),
            ));
        }
        i = i + 1;
    }
    assert(bv.subrange(0, branches@.len() as int) =~= bv);
    let items = crate::text::clone_strings(branches);
    MenuScreen {
        title: owned("gmux / 源分支"),
        subtitle: owned("选择一个本地分支作为源分支"),
        items,
        details,
        help: three(
            "源分支是这次 merge 或同步的输入分支。",
            "列表来自当前本地仓库的本地分支；可按 / 搜索。",
            "进入下一步后，gmux 会先展示执行前检查和完整预览。",
        ),
        search_hint: Some(owned("输入分支关键词")),
    }
}

/// The merge branches of a project to merge into; searchable.
pub open spec fn target_branch_view(config: Config, name: Seq<char>) -> ScreenView {
    let pairs = sync_pairs(config, name);
    ScreenView {
        title: "gmux / 目标分支"@,
        subtitle: "选择一个目标合并分支"@,
        items: pairs.map_values(|p: (Seq<char>, Seq<char>)| p.1),
        details: pairs.map_values(
            |p: (Seq<char>, Seq<char>)| seq!["环境分支: "@ + p.0, "目标合并分支: "@ + p.1],
        ),
        help: seq![
            "这里选择一个目标合并分支，用于单目标 merge。"@,
            "环境分支和目标合并分支的对应关系由配置文件决定。"@,
            "确认后仍会先进入执行预览，再决定是否真正执行。"@,
        ],
        search_hint: Some("输入环境名或目标分支关键词"@),
    }
}

/// The merge branches of project `name` to merge into.
pub fn target_branch_screen(config: &Config, name: &str) -> (r: MenuScreen)
    ensures
        r@ == target_branch_view(*config, name@),
{
    let pairs = crate::project::get_target_merge_branches(config, name);
    let ghost sp = sync_pairs(*config, name@);
    assert(pair_views(pairs@) =~= sp);
    let mut items: Vec<String> = Vec::new();
    let mut details: Vec<Vec<String>> = Vec::new();
    let mut i: usize = 0;
    while i < pairs.len()
        invariant
            i <= pairs@.len(),
            sp == pair_views(pairs@),
            views(items@) == sp.subrange(0, i as int).map_values(|p: (Seq<char>, Seq<char>)| p.1),
            detail_views(details@) == sp.subrange(0, i as int).map_values(
                |p: (Seq<char>, Seq<char>)| seq!["环境分支: "@ + p.0, "目标合并分支: "@ + p.1],
            ),
        decreases pairs@.len() - i,
    {
        push_str(&mut items, pairs[i].1.as_str());
        let mut lines: Vec<String> = Vec::new();
        push_joined(&mut lines, "环境分支: ", pairs[i].0.as_str());
        push_joined(&mut lines, "目标合并分支: ", pairs[i].1.as_str());
        assert(views(lines@) =~= seq!["环境分支: "@ + sp[i as int].0, "目标合并分支: "@ + sp[i as int].1]);
        push_detail(&mut details, lines);
        proof {
            let f = |p: (Seq<char>, Seq<char>)| p.1;
            let g = |p: (Seq<char>, Seq<char>)| seq!["环境分支: "@ + p.0, "目标合并分支: "@ + p.1];
            assert(sp.subrange(0, i + 1) =~= sp.subrange(0, i as int).push(sp[i as int]));
            assert(sp.subrange(0, i + 1).map_values(f) =~= sp.subrange(0, i as int).map_values(f).push(
                f(sp[i as int]),
            ));
            assert(sp.subrange(0, i + 1).map_values(g) =~= sp.subrange(0, i as int).map_values(g).push(
                g(sp[i as int]),
            ));
        }
        i = i + 1;
    }
    assert(sp.subrange(0, pairs@.len() as int) =~= sp);
    MenuScreen {
        title: owned("gmux / 目标分支"),
        subtitle: owned("选择一个目标合并分支"),
        items,
        details,
        help: three(
            "这里选择一个目标合并分支，用于单目标 merge。",
            "环境分支和目标合并分支的对应关系由配置文件决定。",
            "确认后仍会先进入执行预览，再决定是否真正执行。",
        ),
        search_hint: Some(owned("输入环境名或目标分支关键词")),
    }
}

/// The merge request menu, with the number of branch map entries.
pub open spec fn mr_menu_view(config: Config) -> ScreenView {
    ScreenView {
        title: "gmux / MR 模式"@,
        subtitle: "选择 MR 处理方式"@,
        items: seq![
            "单个创建"@,
            "批量创建（全部 "@ + decimal(config.branch_map@.dom().len()) + " 组映射）"@,
            "自定义选择多组映射"@,
            "返回主菜单"@,
        ],
        details: seq![
            seq!["先选项目，再选一组源/目标分支映射，创建一个 MR。"@],
            seq!["按配置中的 branch_map，对一个项目批量创建全部映射对应的 MR，并自动尝试审批和合并。"@],
            seq!["从 branch_map 中手动勾选部分映射，适合只处理部分环境或临时链路。"@],
            seq!["不执行 MR 操作。"@],
        ],
        help: seq![
            "单个创建：手动选一组源/目标分支映射创建 MR。"@,
            "批量创建：按配置中的全部分支映射批量创建 MR，并对成功的 MR 自动尝试审批与合并。"@,
            "自定义多选：只处理你本次勾选的映射，适合非标准发布链路。"@,
        ],
        search_hint: None,
    }
}

/// The merge request menu.
pub fn mr_menu_screen(config: &Config) -> (r: MenuScreen)
    ensures
        r@ == mr_menu_view(*config),
{
    let mut items: Vec<String> = Vec::new();
    push_str(&mut items, "单个创建");
    push_number(&mut items, "批量创建（全部 ", config.branch_map.len() as u64, " 组映射）");
    push_str(&mut items, "自定义选择多组映射");
    push_str(&mut items, "返回主菜单");
    let mut details: Vec<Vec<String>> = Vec::new();
    push_detail(&mut details, one("先选项目，再选一组源/目标分支映射，创建一个 MR。"));
    push_detail(&mut details, one("按配置中的 branch_map，对一个项目批量创建全部映射对应的 MR，并自动尝试审批和合并。"));
    push_detail(&mut details, one("从 branch_map 中手动勾选部分映射，适合只处理部分环境或临时链路。"));
    push_detail(&mut details, one("不执行 MR 操作。"));
    let r = MenuScreen {
        title: owned("gmux / MR 模式"),
        subtitle: owned("选择 MR 处理方式"),
        items,
        details,
        help: three(
            "单个创建：手动选一组源/目标分支映射创建 MR。",
            "批量创建：按配置中的全部分支映射批量创建 MR，并对成功的 MR 自动尝试审批与合并。",
            "自定义多选：只处理你本次勾选的映射，适合非标准发布链路。",
        ),
        search_hint: None,
    };
    assert(r@.items =~= mr_menu_view(*config).items);
    assert(r@.details =~~= mr_menu_view(*config).details);
    r
}

/// The GitLab projects to create merge requests in; searchable.
pub open spec fn gitlab_projects_view(projects: Seq<GitLabProject>) -> ScreenView {
    ScreenView {
        title: "gmux / GitLab 项目"@,
        subtitle: "选择一个 GitLab 项目用于创建 MR"@,
        items: projects.map_values(|p: GitLabProject| p.name@ + "  [ID: "@ + decimal(p.id as nat) + "]"@),
        details: projects.map_values(
            |p: GitLabProject| seq!["名称: "@ + p.name@, "ID: "@ + decimal(p.id as nat)],
        ),
        help: seq![
            "这里列出当前 token 可访问的 GitLab 项目。"@,
            "按 / 可以按项目名或项目 ID 搜索。"@,
            "如果加载失败，gmux 会留在 TUI 内显示错误，而不会直接退出程序。"@,
        ],
        search_hint: Some("输入项目名或 ID 关键词"@),
    }
}

/// The GitLab projects to create merge requests in.
pub fn gitlab_projects_screen(projects: &Vec<GitLabProject>) -> (r: MenuScreen)
    ensures
        r@ == gitlab_projects_view(projects@),
{
    let ghost ps = projects@;
    let mut items: Vec<String> = Vec::new();
    let mut details: Vec<Vec<String>> = Vec::new();
    let mut i: usize = 0;
    while i < projects.len()
        invariant
            i <= projects@.len(),
            ps == projects@,
            views(items@) == ps.subrange(0, i as int).map_values(
                |p: GitLabProject| p.name@ + "  [ID: "@ + decimal(p.id as nat) + "]"@,
            ),
            detail_views(details@) == ps.subrange(0, i as int).map_values(
                |p: GitLabProject| seq!["名称: "@ + p.name@, "ID: "@ + decimal(p.id as nat)],
            ),
        decreases projects@.len() - i,
    {
        let p = &projects[i];
        let mut item = p.name.clone();
        item.append("  [ID: ");
        push_decimal(&mut item, p.id);
        item.append("]");
        let ghost before = views(items@);
        items.push(item);
        let mut lines: Vec<String> = Vec::new();
        push_joined(&mut lines, "名称: ", p.name.as_str());
        push_count(&mut lines, "ID: ", p.id);
        assert(views(lines@) =~= seq!["名称: "@ + p.name@, "ID: "@ + decimal(p.id as nat)]);
        push_detail(&mut details, lines);
        proof {
            let f = |p: GitLabProject| p.name@ + "  [ID: "@ + decimal(p.id as nat) + "]"@;
            let g = |p: GitLabProject| seq!["名称: "@ + p.name@, "ID: "@ + decimal(p.id as nat)];
            assert(views(items@) =~= before.push(f(ps[i as int])));
            assert(ps.subrange(0, i + 1) =~= ps.subrange(0, i as int).push(ps[i as int]));
            assert(ps.subrange(0, i + 1).map_values(f) =~= ps.subrange(0, i as int).map_values(f).push(
                f(ps[i as int]),
            ));
            assert(ps.subrange(0, i + 1).map_values(g) =~= ps.subrange(0, i as int).map_values(g).push(
                g(ps[i as int]),
            ));
        }
        i = i + 1;
    }
    assert(ps.subrange(0, projects@.len() as int) =~= ps);
    MenuScreen {
        title: owned("gmux / GitLab 项目"),
        subtitle: owned("选择一个 GitLab 项目用于创建 MR"),
        items,
        details,
        help: three(
            "这里列出当前 token 可访问的 GitLab 项目。",
            "按 / 可以按项目名或项目 ID 搜索。",
            "如果加载失败，gmux 会留在 TUI 内显示错误，而不会直接退出程序。",
        ),
        search_hint: Some(owned("输入项目名或 ID 关键词")),
    }
}

/// The help of the result page.
pub fn results_help() -> (r: Vec<String>)
    ensures
        views(r@) == seq![
            "这里显示本次执行的最终结果，包括成功项和失败项。"@,
            "失败信息会尽量保留原始错误，便于判断是 Git、网络还是 GitLab API 问题。"@,
            "按任意键返回上一层；按 ? 可再次查看这页说明。"@,
        ],
{
    three(
        "这里显示本次执行的最终结果，包括成功项和失败项。",
        "失败信息会尽量保留原始错误，便于判断是 Git、网络还是 GitLab API 问题。",
        "按任意键返回上一层；按 ? 可再次查看这页说明。",
    )
}

} // verus!
