use codex_automation::git::parse_git_status;

#[test]
fn porcelain_status_counts() {
    let text = "## main...origin/main [ahead 1]\nM  staged.rs\n M unstaged.rs\nMM both.rs\n?? new.txt\n?? other.txt";
    let c = parse_git_status(text);
    assert_eq!(c.branch_status, "## main...origin/main [ahead 1]");
    assert_eq!(c.staged, 2);
    assert_eq!(c.unstaged, 2);
    assert_eq!(c.untracked, 2);
    assert_eq!(c.changed, 5);
}

#[test]
fn clean_status_has_no_changes() {
    let c = parse_git_status("## main");
    assert_eq!(c.branch_status, "## main");
    assert_eq!(c.changed, 0);
    let empty = parse_git_status("");
    assert_eq!(empty.branch_status, "");
    assert_eq!(empty.changed, 0);
    let crlf = parse_git_status("## dev\r\n?? a\r\n");
    assert_eq!(crlf.branch_status, "## dev");
    assert_eq!(crlf.untracked, 1);
}

#[test]
fn unstaged_column_is_the_second_byte() {
    let c = parse_git_status("é file.rs\nA  added.rs\nA");
    assert_eq!(c.unstaged, 1);
    assert_eq!(c.staged, 3);
    assert_eq!(c.changed, 3);
    let single = parse_git_status("é");
    assert_eq!(single.unstaged, 1);
}
