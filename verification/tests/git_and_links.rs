use amux::git::{collect_git_info, git_failure_message};
use amux::search::{eq_ignore_ascii_case, has_tag, parse_search_query, short_id};
use amux::text::trim;
use amux::url::extract_url_from_line;

#[test]
fn git_info_takes_last_stat_line_and_sums_numstat() {
    let stat = " src/a.rs | 3 ++-\n src/b.rs | 1 +\n 2 files changed, 3 insertions(+), 1 deletion(-)".to_string();
    let numstat = "2\t1\tsrc/a.rs\n1\t0\tsrc/b.rs\n\n-\t-\timg.png".to_string();
    let (info, diff) = collect_git_info(Some("main".into()), Some("abc123".into()), Some(stat), Some(numstat));
    assert_eq!(info.branch.as_deref(), Some("main"));
    assert_eq!(info.commit.as_deref(), Some("abc123"));
    assert_eq!(info.diff_stat.as_deref(), Some(" 2 files changed, 3 insertions(+), 1 deletion(-)"));
    assert_eq!(diff.summary_line.as_deref(), Some(" 2 files changed, 3 insertions(+), 1 deletion(-)"));
    assert_eq!(diff.files_changed, vec!["src/a.rs".to_string(), "src/b.rs".to_string(), "img.png".to_string()]);
    assert_eq!(diff.insertions, 3);
    assert_eq!(diff.deletions, 1);
}

#[test]
fn git_info_without_output() {
    let (info, diff) = collect_git_info(None, None, Some(String::new()), None);
    assert!(info.branch.is_none());
    assert!(info.diff_stat.is_none());
    assert!(diff.summary_line.is_none());
    assert!(diff.files_changed.is_empty());
    assert_eq!(diff.insertions, 0);
}

#[test]
fn git_failure_messages() {
    let args = vec!["rev-parse".to_string(), "HEAD".to_string()];
    assert_eq!(
        git_failure_message("fatal: not a git repository (or any parent)\n", &args, "exit status: 128"),
        "Not a git repo. Run 'git init' or check workspace path."
    );
    assert_eq!(git_failure_message("warning: detached HEAD", &args, "1"), "Detached HEAD state. Checkout a branch first.");
    assert_eq!(git_failure_message("  boom \n", &args, "1"), "boom");
    assert_eq!(git_failure_message("", &args, "exit status: 2"), "git rev-parse HEAD failed (exit exit status: 2)");
}

#[test]
fn url_under_click_is_extracted_without_trailing_punctuation() {
    let line = "see https://example.com/docs, then http://a.b/c.";
    assert_eq!(extract_url_from_line(line, 6).as_deref(), Some("https://example.com/docs"));
    assert_eq!(extract_url_from_line(line, 45).as_deref(), Some("http://a.b/c"));
    assert_eq!(extract_url_from_line(line, 0), None);
}

#[test]
fn url_stops_at_quotes_and_brackets() {
    let line = "(https://x.org/a) 'http://y.io'";
    assert_eq!(extract_url_from_line(line, 3).as_deref(), Some("https://x.org/a"));
    assert_eq!(extract_url_from_line(line, 20).as_deref(), Some("http://y.io"));
}

#[test]
fn trim_and_case_helpers() {
    assert_eq!(trim("\t rust \n"), "rust");
    assert_eq!(trim("   "), "");
    assert!(eq_ignore_ascii_case("RuSt", "rust"));
    assert!(!eq_ignore_ascii_case("rust", "rusty"));
    assert!(has_tag(&vec!["Bug".to_string(), "ui".to_string()], "bug"));
    assert!(!has_tag(&vec!["ui".to_string()], "bug"));
    assert_eq!(short_id("0123456789abcdef"), "01234567");
    assert_eq!(short_id("abc"), "abc");
}

#[test]
fn search_query_date_prefixes() {
    let now = 1_000_000u64;
    let q = parse_search_query(">7d login", now);
    assert_eq!(q.text.as_deref(), Some("login"));
    assert_eq!(q.min_last_active, Some(now - 7 * 86400));
    let q = parse_search_query(">2h", now);
    assert_eq!(q.text, None);
    assert_eq!(q.min_last_active, Some(now - 2 * 3600));
    let q = parse_search_query(">30m fix", now);
    assert_eq!(q.min_last_active, Some(now - 30 * 60));
    let q = parse_search_query("plain words", now);
    assert_eq!(q.text.as_deref(), Some("plain words"));
    assert_eq!(q.min_last_active, None);
}

#[test]
fn url_column_counts_characters_not_bytes() {
    // Each 'é' is one column but two bytes.
    assert_eq!(extract_url_from_line("éé https://a.io", 3).as_deref(), Some("https://a.io"));
    assert_eq!(extract_url_from_line("éé https://a.io", 15).as_deref(), Some("https://a.io"));
    assert_eq!(extract_url_from_line("éé https://a.io", 2), None);
}
