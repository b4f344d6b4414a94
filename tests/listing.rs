use rubber::listing::{
    display_pr_list, interpret_choice, invalid_number_message, not_listed_message,
    parse_pr_number, pull_files_url, pull_url, pulls_list_url, truncate_title, Choice,
};
use rubber::report::OutputBuffer;
use rubber::review::{find_pr_by_number, FileChange, PullRequest, PullRequestDetail, User};

fn pr(number: u32, title: &str) -> PullRequest {
    PullRequest {
        number,
        title: title.to_string(),
        body: None,
        user: User { login: "ann".to_string() },
        created_at: "2024-05-01".to_string(),
        html_url: format!("https://example.test/pull/{}", number),
        comments_url: String::new(),
        url: String::new(),
    }
}

#[test]
fn find_pr_by_number_finds_first() {
    let prs = vec![pr(1, "a"), pr(2, "b"), pr(2, "c")];
    assert_eq!(find_pr_by_number(&prs, 2).map(|p| p.title.clone()), Some("b".to_string()));
    assert!(find_pr_by_number(&prs, 3).is_none());
    assert!(find_pr_by_number(&[], 1).is_none());
}

#[test]
fn titles_are_shortened() {
    assert_eq!(truncate_title("short"), "short");
    let exact = "y".repeat(47);
    assert_eq!(truncate_title(&exact), exact);
    let long = "z".repeat(48);
    assert_eq!(truncate_title(&long), format!("{}...", "z".repeat(44)));
}

#[test]
fn titles_are_shortened_by_bytes() {
    let accents = "é".repeat(24);
    assert_eq!(truncate_title(&accents), format!("{}...", "é".repeat(22)));
    let fits = "é".repeat(23);
    assert_eq!(truncate_title(&fits), fits);
    let odd = format!("a{}", "é".repeat(24));
    assert_eq!(truncate_title(&odd), format!("a{}...", "é".repeat(21)));
    let wide = "日本".repeat(9);
    assert_eq!(truncate_title(&wide), format!("{}...", "日本".repeat(7)));
}

#[test]
fn numbers_are_parsed() {
    assert_eq!(parse_pr_number("42"), Some(42));
    assert_eq!(parse_pr_number("+7"), Some(7));
    assert_eq!(parse_pr_number("007"), Some(7));
    assert_eq!(parse_pr_number("4294967295"), Some(4294967295));
    assert_eq!(parse_pr_number("4294967296"), None);
    assert_eq!(parse_pr_number(""), None);
    assert_eq!(parse_pr_number("+"), None);
    assert_eq!(parse_pr_number("-1"), None);
    assert_eq!(parse_pr_number("1a"), None);
    assert_eq!(parse_pr_number(" 1"), None);
}

#[test]
fn choices_are_read() {
    let prs = vec![pr(5, "five")];
    assert_eq!(interpret_choice("q\n", &prs), Choice::Quit);
    assert_eq!(interpret_choice(" Q ", &prs), Choice::Quit);
    assert_eq!(interpret_choice("quit", &prs), Choice::Invalid);
    assert_eq!(interpret_choice("5\n", &prs), Choice::Show(5));
    assert_eq!(interpret_choice("6", &prs), Choice::NotListed(6));
}

#[test]
fn messages_for_choices() {
    assert_eq!(not_listed_message(6), "PR #6 not found in the current list.");
    assert_eq!(invalid_number_message("x"), "Invalid PR number: x");
}

#[test]
fn list_of_pull_requests() {
    let prs = vec![pr(12, &"t".repeat(60))];
    let mut out = OutputBuffer::new();
    display_pr_list("o", "r", &prs, &[Some(3)], &mut out);
    let expected = format!(
        "Fetching the 10 most recent PRs for o/r\n{:<6} {:<50} {:<20} {:<15} {:<15}\n{}\n{:<6} {:<50} {:<20} {:<15} {:<15}\n       URL: https://example.test/pull/12\n",
        "PR#", "Title", "Author", "Created At", "Comments",
        "-".repeat(106),
        12, format!("{}...", "t".repeat(44)), "ann", "2024-05-01", 3
    );
    assert_eq!(out.render(), expected);
}

#[test]
fn list_count_error_and_empty() {
    let mut out = OutputBuffer::new();
    display_pr_list("o", "r", &[pr(1, "a")], &[], &mut out);
    assert!(out.render().contains(&format!("{:<15}\n", "Error")));
    let mut out = OutputBuffer::new();
    display_pr_list("o", "r", &[], &[], &mut out);
    assert_eq!(out.render(), "Fetching the 10 most recent PRs for o/r\nNo pull requests found.\n");
}

#[test]
fn addresses() {
    assert_eq!(
        pulls_list_url("o", "r"),
        "https://api.github.com/repos/o/r/pulls?state=all&sort=created&direction=desc&per_page=10"
    );
    assert_eq!(pull_url("o", "r", 42), "https://api.github.com/repos/o/r/pulls/42");
    assert_eq!(pull_files_url("o", "r", 42), "https://api.github.com/repos/o/r/pulls/42/files");
}

#[test]
fn defaults_are_empty() {
    let f = FileChange::default();
    assert!(f.filename.is_empty() && f.patch.is_none() && f.additions == 0);
    let d = PullRequestDetail::default();
    assert!(d.title.is_empty() && d.body.is_none());
    assert_eq!(d.files.map(|v| v.len()), Some(0));
}
