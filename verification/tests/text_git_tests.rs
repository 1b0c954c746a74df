use gmux::git::{
    ahead_behind_args, ahead_behind_reply, list_branches_failure, status_args, worktree_reply,
    conflict_files_args, current_branch_args, list_branches_args, local_ref,
    merge_abort_args, merge_result_from_output, parse_current_branch, parse_name_lines,
    remote_ref, show_ref_args, GitCommand, MergeResult,
};
use gmux::order::str_lt;
use gmux::text::{
    chars_of, is_whitespace, join_strings, push_decimal, split_non_empty_lines, split_words,
    str_contains, str_eq, string_from_range, trim_str,
};

fn strings(v: &[&str]) -> Vec<String> {
    v.iter().map(|s| s.to_string()).collect()
}

#[test]
fn trimming_and_splitting() {
    assert!(is_whitespace('\u{3000}'));
    assert!(!is_whitespace('x'));
    assert_eq!(trim_str("\t a b \n"), "a b");
    assert_eq!(trim_str("   "), "");
    assert_eq!(split_words("  uat  test\tstage "), strings(&["uat", "test", "stage"]));
    assert!(split_words(" \n ").is_empty());
    assert_eq!(split_non_empty_lines("a\r\n\nb\n"), strings(&["a", "b"]));
}

#[test]
fn searching_and_joining() {
    assert!(str_contains("Already up to date.", "up to"));
    assert!(str_contains("abc", ""));
    assert!(!str_contains("ab", "abc"));
    assert_eq!(join_strings(&strings(&["a", "b", "c"]), ", "), "a, b, c");
    assert_eq!(join_strings(&Vec::new(), ", "), "");
    assert!(str_eq("x", "x"));
    assert!(!str_eq("x", "y"));
    assert!(str_lt("abc", "abd"));
    assert!(str_lt("ab", "abc"));
    assert!(!str_lt("b", "a"));
}

#[test]
fn decimal_digits() {
    let mut s = "n=".to_string();
    push_decimal(&mut s, 0);
    push_decimal(&mut s, 18446744073709551615);
    assert_eq!(s, "n=018446744073709551615");
}

#[test]
fn character_ranges() {
    let v = chars_of("héllo");
    assert_eq!(v.len(), 5);
    assert_eq!(string_from_range(&v, 1, 3), "él");
}

#[test]
fn git_output_with_invalid_utf8_is_decoded_lossily() {
    assert_eq!(parse_name_lines(&[0x66, 0xff, 0x67, b'\n', b'u']), strings(&["f\u{fffd}g", "u"]));
    assert_eq!(parse_current_branch(true, &[b' ', 0xc3, 0xa9, b'\n']), Some("é".to_string()));
}

#[test]
fn git_arguments_of_commands() {
    assert_eq!(GitCommand::Checkout("uat".to_string()).args(), strings(&["checkout", "uat"]));
    assert_eq!(
        GitCommand::CheckoutNewBranch { new_branch: "n".to_string(), from: "f".to_string() }.args(),
        strings(&["checkout", "-b", "n", "f"])
    );
    assert_eq!(GitCommand::Pull("uat".to_string()).args(), strings(&["pull", "origin", "uat"]));
    assert_eq!(GitCommand::Merge("f".to_string()).args(), strings(&["merge", "f", "--no-edit"]));
    assert_eq!(GitCommand::Push("t".to_string()).args(), strings(&["push", "origin", "t"]));
    assert!(GitCommand::BranchExists("t".to_string()).args().is_empty());
    assert_eq!(show_ref_args(&local_ref("uat")), strings(&["show-ref", "--verify", "--quiet", "refs/heads/uat"]));
    assert_eq!(remote_ref("uat"), "refs/remotes/origin/uat");
    assert_eq!(current_branch_args(), strings(&["symbolic-ref", "--quiet", "--short", "HEAD"]));
    assert_eq!(list_branches_args()[1], "--format=%(refname:short)");
    assert_eq!(conflict_files_args(), strings(&["diff", "--name-only", "--diff-filter=U"]));
    assert_eq!(merge_abort_args(), strings(&["merge", "--abort"]));
}

#[test]
fn git_failure_messages() {
    assert_eq!(
        GitCommand::Checkout("uat".to_string()).failure_message("error: pathspec"),
        "切换分支失败 uat: error: pathspec"
    );
    assert_eq!(
        GitCommand::CheckoutNewBranch { new_branch: "n".to_string(), from: "f".to_string() }
            .failure_message("exists"),
        "创建分支失败 n: exists"
    );
    assert_eq!(GitCommand::Push("t".to_string()).failure_message("denied"), "推送失败 t: denied");
    assert_eq!(GitCommand::Pull("u".to_string()).spawn_failure_message(), "执行 git pull 失败");
}

#[test]
fn git_output_parsing() {
    assert_eq!(parse_current_branch(true, b"main\n"), Some("main".to_string()));
    assert_eq!(parse_current_branch(false, b"ignored"), None);
    assert_eq!(parse_name_lines(b"main\n\nuat\n"), strings(&["main", "uat"]));
    assert!(matches!(
        merge_result_from_output(b"Already up to date.\n"),
        MergeResult::AlreadyUpToDate
    ));
    assert!(matches!(merge_result_from_output(b"Merge made by the 'ort' strategy.\n"), MergeResult::Success));
}

#[test]
fn worktree_and_tracking_probes() {
    assert_eq!(status_args(), strings(&["status", "--porcelain"]));
    assert_eq!(worktree_reply(true, true, b" M a.txt\n", b""), Ok(true));
    assert_eq!(worktree_reply(true, true, b"\n", b""), Ok(false));
    assert_eq!(worktree_reply(false, false, b"", b""), Err("执行 git status 失败".to_string()));
    assert_eq!(worktree_reply(true, false, b"", b"fatal"), Err("检查工作区状态失败: fatal".to_string()));
    assert_eq!(
        ahead_behind_args("dev"),
        strings(&["rev-list", "--left-right", "--count", "refs/heads/dev...refs/remotes/origin/dev"])
    );
    assert_eq!(ahead_behind_reply(true, true, true, b"2\t7\n", b""), Ok(Some((2, 7))));
    assert_eq!(ahead_behind_reply(false, false, false, b"", b""), Ok(None));
    assert_eq!(ahead_behind_reply(true, false, false, b"", b""), Err("执行 git rev-list 失败".to_string()));
    assert_eq!(ahead_behind_reply(true, true, false, b"", b"bad"), Err("获取 ahead/behind 失败: bad".to_string()));
    assert_eq!(ahead_behind_reply(true, true, true, b"x y", b""), Err("无法解析 ahead/behind 输出: x y".to_string()));
    assert_eq!(list_branches_failure(b"oops"), "获取分支列表失败: oops");
}
