use rubber::metrics::DiffMetrics;
use rubber::narrative::{partition, review_prompt, SectionKind, PROMPT_HEAD, PROMPT_TAIL};
use rubber::report::OutputBuffer;
use rubber::review::{
    analyze_patch, display_comments, display_pr_details, pr_report, Comment, FileChange,
    PullRequestDetail, User,
};
use rubber::scanner::{scan, Category, Finding};
use rubber::text::{chars_of, decimal, split_lines, string_of};

fn messages(fs: &[Finding]) -> Vec<String> {
    fs.iter().map(|f| f.message.clone()).collect()
}

fn detail(title: &str, body: Option<&str>, files: Option<Vec<FileChange>>) -> PullRequestDetail {
    PullRequestDetail {
        title: title.to_string(),
        body: body.map(|b| b.to_string()),
        html_url: String::new(),
        user: User { login: "dev".to_string() },
        created_at: String::new(),
        comments_url: String::new(),
        files,
    }
}

fn file(name: &str, patch: Option<&str>) -> FileChange {
    FileChange {
        filename: name.to_string(),
        status: "modified".to_string(),
        additions: 1,
        deletions: 0,
        changes: 1,
        patch: patch.map(|p| p.to_string()),
    }
}

#[test]
fn metrics_count_lines_and_skip_headers() {
    let patch = "--- a/x.rs\n+++ b/x.rs\n@@ -1,2 +1,3 @@\n+a\n+b\n-c\n ctx\n";
    let m = DiffMetrics::compute(patch);
    assert_eq!(m.added, 2);
    assert_eq!(m.removed, 1);
    assert_eq!(m.changed(), 3);
}

#[test]
fn metrics_of_empty_patch() {
    let m = DiffMetrics::compute("");
    assert_eq!((m.added, m.removed), (0, 0));
}

#[test]
fn metrics_with_crlf_and_no_final_newline() {
    let m = DiffMetrics::compute("+x\r\n-y\r\n+z");
    assert_eq!((m.added, m.removed), (2, 1));
}

#[test]
fn lines_follow_line_endings() {
    let ls = split_lines(&chars_of("a\r\n\nb\n"));
    let got: Vec<String> = ls.iter().map(|l| string_of(l)).collect();
    assert_eq!(got, vec!["a".to_string(), String::new(), "b".to_string()]);
    assert!(split_lines(&chars_of("")).is_empty());
}

#[test]
fn decimal_numerals() {
    assert_eq!(decimal(0), "0");
    assert_eq!(decimal(42), "42");
    assert_eq!(decimal(18446744073709551615), "18446744073709551615");
}

#[test]
fn todo_gives_hygiene_finding() {
    let fs = scan("+// TODO: later");
    assert!(fs.iter().any(|f| f.category == Category::Hygiene));
    assert_eq!(fs[0].message, "Outstanding TODOs/FIXMEs should be addressed before merging");
}

#[test]
fn no_marker_gives_no_hygiene_finding() {
    let fs = scan("+let x = 1;");
    assert!(fs.iter().all(|f| f.category != Category::Hygiene));
    assert!(fs.is_empty());
}

#[test]
fn each_rule_fires_alone() {
    let cases: Vec<(&str, Category, &str)> = vec![
        ("TODO", Category::Hygiene, "Outstanding TODOs/FIXMEs should be addressed before merging"),
        ("dbg!", Category::Hygiene, "Remove debug print statements before merging"),
        ("unwrap()", Category::ErrorHandling, "Replace unwrap() calls with proper error handling"),
        ("expect(", Category::ErrorHandling, "Consider replacing expect() with more graceful error handling"),
        ("panic!", Category::ErrorHandling, "Consider replacing panic! with Result/Option for graceful error handling"),
        ("Clone", Category::Performance, "Review clone() usage - consider using references where possible"),
        ("Box::new", Category::Performance, "Verify if heap allocation via Box is necessary"),
        ("Vec::new()", Category::Performance, "Consider using Vec::with_capacity() if the size is known"),
        ("Mutex", Category::Concurrency, "Consider if RwLock would be more appropriate than Mutex"),
        ("Vec.await", Category::Concurrency, "Review concurrent operations on Vec - consider using join_all() for parallel execution"),
        ("unsafe", Category::Security, "Unsafe block detected - ensure safety guarantees are documented"),
        ("as_ptr", Category::Security, "Raw pointer usage detected - verify memory safety"),
        ("fn f", Category::Testing, "New functions added without corresponding tests"),
    ];
    for (patch, cat, msg) in cases {
        let fs = scan(patch);
        assert_eq!(fs.len(), 1, "patch {:?}", patch);
        assert_eq!(fs[0].category, cat);
        assert_eq!(fs[0].message, msg);
    }
}

#[test]
fn rules_fire_in_order() {
    let fs = scan("+fn run() { x.unwrap(); println!(\"FIXME\"); }");
    assert_eq!(
        messages(&fs),
        vec![
            "Outstanding TODOs/FIXMEs should be addressed before merging".to_string(),
            "Remove debug print statements before merging".to_string(),
            "Replace unwrap() calls with proper error handling".to_string(),
            "New functions added without corresponding tests".to_string(),
        ]
    );
}

#[test]
fn tests_and_capacity_silence_rules() {
    assert!(scan("#[test]\nfn it_works() {}\nfn helper() {}").is_empty());
    assert!(scan("let v = Vec::new(); let w = Vec::with_capacity(3);").is_empty());
    assert!(scan("Mutex RwLock").is_empty());
    assert!(scan("fn test_case() {}").is_empty());
}

#[test]
fn narrative_partition_summary_and_feedback() {
    let secs = partition("## Summary\nfoo\n## Feedback\n- bar", false);
    assert_eq!(secs.len(), 2);
    assert_eq!(secs[0].kind, SectionKind::Summary);
    assert_eq!(secs[0].body, "foo");
    assert_eq!(secs[1].kind, SectionKind::Feedback);
    assert_eq!(secs[1].body, "- bar");
}

#[test]
fn narrative_partition_context_and_unclassified() {
    let text = "Intro\n## Other\nx\n## Additional Context Needed\n  the caller  \n";
    let dropped = partition(text, false);
    assert_eq!(dropped.len(), 1);
    assert_eq!(dropped[0].kind, SectionKind::AdditionalContextNeeded);
    assert_eq!(dropped[0].body, "the caller");
    let kept = partition(text, true);
    assert_eq!(kept.len(), 3);
    assert_eq!(kept[0].kind, SectionKind::Unclassified);
    assert_eq!(kept[0].body, "Intro");
    assert_eq!(kept[1].body, "Other\nx");
    assert!(partition("", true).is_empty());
}

#[test]
fn narrative_body_loses_only_its_header_line() {
    let secs = partition("## Summary\nSummary\n", false);
    assert_eq!(secs.len(), 1);
    assert_eq!(secs[0].kind, SectionKind::Summary);
    assert_eq!(secs[0].body, "Summary");
    let secs = partition("## Summary of changes\nAdds x.\n## Feedback", false);
    assert_eq!(secs.len(), 2);
    assert_eq!(secs[0].body, "Adds x.");
    assert_eq!(secs[1].kind, SectionKind::Feedback);
    assert_eq!(secs[1].body, "");
}

#[test]
fn review_prompt_wraps_patch() {
    let p = review_prompt("+x");
    assert_eq!(p, format!("{}+x{}", PROMPT_HEAD, PROMPT_TAIL));
    assert!(p.starts_with("Review this code patch and provide:\n1. A brief summary"));
    assert!(p.ends_with("```\n+x\n```"));
}

#[test]
fn render_is_idempotent() {
    let mut out = OutputBuffer::new();
    out.add_header("Title");
    out.add_section("Part");
    out.add_box_content("a\nb");
    let first = out.render();
    let second = out.render();
    assert_eq!(first, second);
    assert_eq!(out.len(), 3);
}

#[test]
fn render_exact_text() {
    let mut out = OutputBuffer::new();
    out.add_header("T");
    out.add_section("S");
    out.add_box_content("a\nb");
    out.add_box_inner_content("c");
    out.add_diff_header("f.rs");
    out.add_diff_content("+x\n-y\n z");
    out.add_separator('=', 3);
    out.add_line("end");
    let expected = format!(
        "\n┏━━ T {}\n┣━━ S {}\n┃\n┃  a\n┃  b\n┃\n┃  c\n\n┏━━ Diff: f.rs {}\n┃  \x1b[32m+x\x1b[0m\n┃  \x1b[31m-y\x1b[0m\n┃   z\n===\nend\n",
        "━".repeat(75),
        "━".repeat(75),
        "━".repeat(66)
    );
    assert_eq!(out.render(), expected);
    out.clear();
    assert_eq!(out.render(), "");
}

#[test]
fn long_title_gets_no_rule() {
    let mut out = OutputBuffer::new();
    let title = "x".repeat(80);
    out.add_header(&title);
    assert_eq!(out.render(), format!("\n┏━━ {} \n", title));
}

#[test]
fn analysis_with_narrative_and_findings() {
    let mut out = OutputBuffer::new();
    let review = Some("## Summary\nAdds x.\n## Feedback\n- check y".to_string());
    analyze_patch("+let x = y.unwrap();", &review, &mut out);
    let text = out.render();
    assert!(text.contains("┃  Changed 1 lines (1 additions, 0 deletions)\n"));
    assert!(text.contains("┣━━ Change Summary "));
    assert!(text.contains("┃  Adds x.\n"));
    assert!(text.contains("┃  - check y\n"));
    assert!(text.contains("┃  Replace unwrap() calls with proper error handling\n"));
}

#[test]
fn analysis_without_narrative() {
    let mut out = OutputBuffer::new();
    analyze_patch(" context only", &None, &mut out);
    assert_eq!(out.len(), 1);
    assert_eq!(out.render(), "┃\n┃  Changed 0 lines (0 additions, 0 deletions)\n┃\n");
}

#[test]
fn comments_or_notice() {
    let mut out = OutputBuffer::new();
    display_comments(&[], &mut out);
    assert_eq!(out.render(), "┃\n┃  No comments found for this PR.\n┃\n");
    let mut out = OutputBuffer::new();
    let c = Comment {
        id: 1,
        user: User { login: "ann".to_string() },
        created_at: "2024-01-01".to_string(),
        body: "Looks good".to_string(),
    };
    display_comments(&[c], &mut out);
    let text = out.render();
    assert!(text.starts_with("┣━━ Author: ann (at 2024-01-01) "));
    assert!(text.contains("┃  Looks good\n"));
}

#[test]
fn report_when_files_unavailable() {
    let d = detail("Fix bug", Some("Body"), None);
    let text = pr_report(&Some(d), &[], &[]);
    assert!(!text.is_empty());
    assert!(text.contains("┏━━ Fix bug "));
    assert!(text.contains("unable to display modified files"));
    assert!(text.contains("No comments found for this PR."));
}

#[test]
fn report_when_pr_unavailable() {
    assert_eq!(pr_report(&None, &[], &[]), "Error fetching PR details.");
}

#[test]
fn report_end_to_end() {
    let d = detail("PR #42", None, Some(vec![file("a.rs", Some("+let v = r.unwrap();"))]));
    let text = pr_report(&Some(d), &[], &[None]);
    assert!(text.contains("Changed 1 lines (1 additions, 0 deletions)"));
    assert!(text.contains("Replace unwrap() calls with proper error handling"));
    assert!(text.contains("No description provided."));
    assert!(text.contains("┏━━ Diff: a.rs "));
    assert!(text.contains(&format!("┃  {:<50} {:<10} {:<10} {:<10}\n", "a.rs", "modified", 1, 0)));
}

#[test]
fn report_without_files_or_patches() {
    let d = detail("Empty", Some("   "), Some(vec![]));
    let text = pr_report(&Some(d), &[], &[]);
    assert!(text.contains("No files modified in this PR."));
    assert!(text.contains("No description provided."));
    let d = detail("Binary", Some("desc"), Some(vec![file("img.png", None), file("b.rs", Some("+x")), file("c.rs", Some("-y"))]));
    let mut out = OutputBuffer::new();
    display_pr_details(&d, &[], &[None, Some("## Summary\nok".to_string())], &mut out);
    let text = out.render();
    assert!(!text.contains("Diff: img.png"));
    assert!(text.contains("┏━━ Diff: b.rs "));
    assert!(text.contains("┃  desc\n"));
    let sep = "┗".to_string() + &"━".repeat(79) + "\n";
    assert_eq!(text.matches(&sep).count(), 4);
}
