//! The list of recent pull requests of a repository and the reading of the
//! user's choice among them.

use vstd::prelude::*;
use vstd::string::StringExecFns;
use vstd::utf8::{char_is_scalar, encode_scalar, encode_utf8};
use crate::report::{NodeKind, OutputBuffer};
use crate::review::{find_pr_by_number, NodeView, PullRequest};
use crate::text::{
    chars_of, dec, padded, push_char, push_chars, push_dec, push_padded, push_repeat, repeat,
    trim, trimmed,
};

verus! {

/// Longest title shown whole in the list, in UTF-8 bytes.
pub const TITLE_LIMIT: usize = 47;

/// Bytes kept at most of a longer title, before an ellipsis.
pub const TITLE_KEEP: usize = 44;

/// Number of pull requests asked for.
pub const LIST_SIZE: u64 = 10;

/// Header row of the list of pull requests.
pub const LIST_HEAD: &'static str = "PR#    Title                                              Author               Created At      Comments       ";

/// Width of the rule under the header row of the list.
pub const LIST_RULE_WIDTH: usize = 106;

/// Shown when the repository has no pull request.
pub const NO_PRS: &'static str = "No pull requests found.";

/// Shown in place of a comment count that could not be retrieved.
pub const COUNT_ERROR: &'static str = "Error";

/// The longest prefix of `t` whose UTF-8 encoding takes at most `n` bytes.
pub open spec fn byte_prefix(t: Seq<char>, n: int) -> Seq<char>
    decreases t.len(),
{
    if t.len() > 0 && encode_scalar(t[0] as u32).len() <= n {
        seq![t[0]] + byte_prefix(t.drop_first(), n - encode_scalar(t[0] as u32).len())
    } else {
        Seq::empty()
    }
}

/// A title as listed: whole when its UTF-8 encoding takes at most the limit
/// in bytes, else the longest prefix that fits in the kept bytes, and an
/// ellipsis.
pub open spec fn short_title(t: Seq<char>) -> Seq<char> {
    if encode_utf8(t).len() > TITLE_LIMIT {
        byte_prefix(t, TITLE_KEEP as int) + "..."@
    } else {
        t
    }
}

/// Number of bytes of the UTF-8 encoding of `c`.
fn utf8_width(c: char) -> (w: usize)
    ensures
        w == encode_scalar(c as u32).len(),
{
    proof {
        char_is_scalar(c);
    }
    let u = c as u32;
    if u <= 0x7f {
        1
    } else if u <= 0x7ff {
        2
    } else if u <= 0xffff {
        3
    } else {
        4
    }
}

/// The title of a pull request as listed.
pub fn truncate_title(title: &str) -> (r: String)
    ensures
        r@ == short_title(title@),
{
    if title.as_bytes().len() <= TITLE_LIMIT {
        return title.to_string();
    }
    let cs = chars_of(title);
    let n = cs.len();
    let mut used: usize = 0;
    let mut i: usize = 0;
    assert(cs@.skip(0) =~= cs@);
    assert(cs@.take(0) =~= Seq::<char>::empty());
    assert(cs@.take(0) + byte_prefix(cs@.skip(0), TITLE_KEEP as int) =~= byte_prefix(
        cs@,
        TITLE_KEEP as int,
    ));
    while i < n && utf8_width(cs[i]) <= TITLE_KEEP - used
        invariant
            i <= n == cs@.len(),
            used <= TITLE_KEEP,
            byte_prefix(cs@, TITLE_KEEP as int) == cs@.take(i as int) + byte_prefix(
                cs@.skip(i as int),
                TITLE_KEEP - used,
            ),
        decreases n - i,
    {
        let w = utf8_width(cs[i]);
        let ghost rest = cs@.skip(i as int);
        assert(rest[0] == cs@[i as int]);
        assert(rest.drop_first() =~= cs@.skip(i + 1));
        assert(cs@.take(i as int) + (seq![cs@[i as int]] + byte_prefix(
            cs@.skip(i + 1),
            TITLE_KEEP - used - w,
        )) =~= cs@.take(i + 1) + byte_prefix(cs@.skip(i + 1), TITLE_KEEP - (used + w)));
        used += w;
        i += 1;
    }
    proof {
        if i == n {
            assert(cs@.skip(i as int) =~= Seq::<char>::empty());
        } else {
            assert(cs@.skip(i as int)[0] == cs@[i as int]);
        }
        assert(cs@.take(i as int) + Seq::<char>::empty() =~= cs@.take(i as int));
    }
    let mut r = String::new();
    push_chars(&mut r, crate::text::copy_range(cs.as_slice(), 0, i).as_slice());
    r.append("...");
    assert(r@ =~= short_title(title@));
    r
}

/// The text of a comment count, or the error notice when it is missing.
pub open spec fn count_text(count: Option<usize>) -> Seq<char> {
    match count {
        Some(n) => dec(n as nat),
        None => COUNT_ERROR@,
    }
}

/// The row of the list for one pull request.
pub open spec fn pr_row(pr: PullRequest, count: Option<usize>) -> Seq<char> {
    padded(dec(pr.number as nat), 6) + seq![' '] + padded(short_title(pr.title@), 50) + seq![' ']
        + padded(pr.user.login@, 20) + seq![' '] + padded(pr.created_at@, 15) + seq![' '] + padded(
        count_text(count),
        15,
    )
}

/// The line under a row that gives the address of the pull request.
pub open spec fn url_line(pr: PullRequest) -> Seq<char> {
    "       URL: "@ + pr.html_url@
}

/// The comment count given for the pull request at position `i`, if any.
pub open spec fn count_at(counts: Seq<Option<usize>>, i: int) -> Option<usize> {
    if 0 <= i < counts.len() {
        counts[i]
    } else {
        None
    }
}

/// A row and an address line for each pull request, in order.
pub open spec fn list_rows(prs: Seq<PullRequest>, counts: Seq<Option<usize>>) -> Seq<NodeView>
    decreases prs.len(),
{
    if prs.len() == 0 {
        Seq::empty()
    } else {
        list_rows(prs.drop_last(), counts) + seq![
            (NodeKind::Line, pr_row(prs.last(), count_at(counts, prs.len() - 1))),
            (NodeKind::Line, url_line(prs.last())),
        ]
    }
}

/// The first line of the list.
pub open spec fn list_intro(owner: Seq<char>, repo: Seq<char>) -> Seq<char> {
    "Fetching the "@ + dec(LIST_SIZE as nat) + " most recent PRs for "@ + owner + seq!['/'] + repo
}

/// All nodes of the list of pull requests.
pub open spec fn list_nodes(
    owner: Seq<char>,
    repo: Seq<char>,
    prs: Seq<PullRequest>,
    counts: Seq<Option<usize>>,
) -> Seq<NodeView> {
    seq![(NodeKind::Line, list_intro(owner, repo))] + if prs.len() == 0 {
        seq![(NodeKind::Line, NO_PRS@)]
    } else {
        seq![
            (NodeKind::Line, LIST_HEAD@),
            (NodeKind::Line, repeat('-', LIST_RULE_WIDTH as nat)),
        ] + list_rows(prs, counts)
    }
}

/// The list row of `pr` with comment count `count`.
fn row_of(pr: &PullRequest, count: Option<usize>) -> (r: String)
    ensures
        r@ == pr_row(*pr, count),
{
    let mut r = String::new();
    push_padded(&mut r, crate::text::decimal(pr.number as u64).as_str(), 6);
    push_char(&mut r, ' ');
    push_padded(&mut r, truncate_title(pr.title.as_str()).as_str(), 50);
    push_char(&mut r, ' ');
    push_padded(&mut r, pr.user.login.as_str(), 20);
    push_char(&mut r, ' ');
    push_padded(&mut r, pr.created_at.as_str(), 15);
    push_char(&mut r, ' ');
    match count {
        Some(n) => push_padded(&mut r, crate::text::decimal(n as u64).as_str(), 15),
        None => push_padded(&mut r, COUNT_ERROR, 15),
    }
    assert(r@ =~= pr_row(*pr, count));
    r
}

/// Appends the list of the pull requests `prs` of `owner/repo`, where
/// `counts[i]` is the comment count of the one at position `i`, missing
/// where it could not be retrieved.
pub fn display_pr_list(
    owner: &str,
    repo: &str,
    prs: &[PullRequest],
    counts: &[Option<usize>],
    output: &mut OutputBuffer,
)
    ensures
        final(output)@ == old(output)@ + list_nodes(owner@, repo@, prs@, counts@),
{
    let mut intro = String::new();
    intro.append("Fetching the ");
    push_dec(&mut intro, LIST_SIZE);
    intro.append(" most recent PRs for ");
    intro.append(owner);
    push_char(&mut intro, '/');
    intro.append(repo);
    assert(intro@ =~= list_intro(owner@, repo@));
    output.add_line(intro.as_str());
    if prs.len() == 0 {
        output.add_line(NO_PRS);
        assert(output@ =~= old(output)@ + list_nodes(owner@, repo@, prs@, counts@));
        return;
    }
    output.add_line(LIST_HEAD);
    output.add_separator('-', LIST_RULE_WIDTH);
    let ghost head = output@;
    let mut i: usize = 0;
    assert(prs@.take(0) =~= Seq::<PullRequest>::empty());
    assert(head + list_rows(Seq::<PullRequest>::empty(), counts@) =~= head);
    while i < prs.len()
        invariant
            i <= prs@.len(),
            output@ == head + list_rows(prs@.take(i as int), counts@),
        decreases prs@.len() - i,
    {
        let pr = &prs[i];
        assert(prs@.take(i + 1).drop_last() =~= prs@.take(i as int));
        let count = if i < counts.len() {
            counts[i]
        } else {
            None
        };
        output.add_line(row_of(pr, count).as_str());
        let mut url = String::new();
        url.append("       URL: ");
        url.append(pr.html_url.as_str());
        output.add_line(url.as_str());
        assert(output@ =~= head + list_rows(prs@.take(i + 1), counts@));
        i += 1;
    }
    assert(prs@.take(prs@.len() as int) =~= prs@);
    assert(output@ =~= old(output)@ + list_nodes(owner@, repo@, prs@, counts@));
}

} // verus!

verus! {

/// An ASCII decimal digit.
pub open spec fn is_digit(c: char) -> bool {
    48 <= (c as u32) && (c as u32) <= 57
}

/// The value of a sequence of decimal digits.
pub open spec fn value_of(ds: Seq<char>) -> nat
    decreases ds.len(),
{
    if ds.len() == 0 {
        0
    } else {
        value_of(ds.drop_last()) * 10 + ((ds.last() as u32) - 48) as nat
    }
}

/// The digits of a numeral: the text after an optional leading `+`.
pub open spec fn digits_part(s: Seq<char>) -> Seq<char> {
    if s.len() > 0 && s[0] == '+' {
        s.drop_first()
    } else {
        s
    }
}

/// An optional `+` followed by at least one decimal digit and nothing else.
pub open spec fn is_numeral(s: Seq<char>) -> bool {
    digits_part(s).len() > 0 && forall|i: int|
        0 <= i < digits_part(s).len() ==> is_digit(#[trigger] digits_part(s)[i])
}

/// The pull-request number that `s` spells, if it spells one that fits in
/// 32 bits.
pub open spec fn parsed_number(s: Seq<char>) -> Option<u32> {
    if is_numeral(s) && value_of(digits_part(s)) <= u32::MAX {
        Some(value_of(digits_part(s)) as u32)
    } else {
        None
    }
}

/// Appending digits never lowers the value of a numeral.
pub proof fn lemma_value_grows(ds: Seq<char>, k: int)
    requires
        0 <= k <= ds.len(),
        forall|i: int| 0 <= i < ds.len() ==> is_digit(#[trigger] ds[i]),
    ensures
        value_of(ds.take(k)) <= value_of(ds),
    decreases ds.len(),
{
    if k < ds.len() {
        assert(ds.drop_last().take(k) =~= ds.take(k));
        lemma_value_grows(ds.drop_last(), k);
    } else {
        assert(ds.take(k) =~= ds);
    }
}

/// Reads a pull-request number: an optional `+` and decimal digits, of a
/// value that fits in 32 bits.
pub fn parse_pr_number(s: &str) -> (r: Option<u32>)
    ensures
        r == parsed_number(s@),
{
    let cs = chars_of(s);
    let start: usize = if cs.len() > 0 && cs[0] == '+' {
        1
    } else {
        0
    };
    let ghost ds = digits_part(s@);
    assert(ds =~= cs@.subrange(start as int, cs@.len() as int));
    if start == cs.len() {
        return None;
    }
    let mut acc: u64 = 0;
    let mut i: usize = start;
    while i < cs.len()
        invariant
            start <= i <= cs@.len(),
            cs@ == s@,
            ds == digits_part(s@),
            ds =~= cs@.subrange(start as int, cs@.len() as int),
            forall|j: int| 0 <= j < i - start ==> is_digit(#[trigger] ds[j]),
            acc == value_of(ds.take(i - start)),
            acc <= u32::MAX,
        decreases cs@.len() - i,
    {
        let c = cs[i];
        let u = c as u32;
        assert(ds[i - start] == c);
        if u < 48 || u > 57 {
            assert(!is_digit(digits_part(s@)[i - start]));
            assert(!is_numeral(s@));
            return None;
        }
        assert(ds.take(i - start + 1).drop_last() =~= ds.take(i - start));
        acc = acc * 10 + (u - 48) as u64;
        if acc > 0xffff_ffff {
            proof {
                if is_numeral(s@) {
                    lemma_value_grows(digits_part(s@), i - start + 1);
                }
            }
            return None;
        }
        i += 1;
    }
    assert(ds.take(ds.len() as int) =~= ds);
    Some(acc as u32)
}

/// What the user's answer to the prompt asks for.
#[derive(Clone, Copy, Debug, PartialEq, Eq, Structural)]
pub enum Choice {
    /// Leave without showing a pull request.
    Quit,
    /// The answer is no pull-request number.
    Invalid,
    /// A number of no listed pull request.
    NotListed(u32),
    /// Show the listed pull request of this number.
    Show(u32),
}

/// What the answer `input` asks for, given the listed pull requests `prs`:
/// `q` or `Q` quits; else the trimmed answer must be a listed number.
pub open spec fn choice_of(input: Seq<char>, prs: Seq<PullRequest>) -> Choice {
    let t = trim(input);
    if t == seq!['q'] || t == seq!['Q'] {
        Choice::Quit
    } else {
        match parsed_number(t) {
            None => Choice::Invalid,
            Some(n) => if exists|i: int| 0 <= i < prs.len() && (#[trigger] prs[i]).number == n {
                Choice::Show(n)
            } else {
                Choice::NotListed(n)
            },
        }
    }
}

/// Reads the user's answer to the prompt.
pub fn interpret_choice(input: &str, prs: &[PullRequest]) -> (r: Choice)
    ensures
        r == choice_of(input@, prs@),
{
    let t = trimmed(chars_of(input).as_slice());
    if t.len() == 1 && (t[0] == 'q' || t[0] == 'Q') {
        assert(t@ =~= seq![t@[0]]);
        return Choice::Quit;
    }
    assert(!(t@ == seq!['q'] || t@ == seq!['Q'])) by {
        if t@ == seq!['q'] || t@ == seq!['Q'] {
            assert(t@.len() == 1 && t@[0] == t@[0]);
        }
    }
    let text = crate::text::string_of(t.as_slice());
    match parse_pr_number(text.as_str()) {
        None => Choice::Invalid,
        Some(n) => match find_pr_by_number(prs, n) {
            Some(_) => Choice::Show(n),
            None => Choice::NotListed(n),
        },
    }
}

/// The answer when a number names no listed pull request.
pub open spec fn not_listed_text(n: u32) -> Seq<char> {
    "PR #"@ + dec(n as nat) + " not found in the current list."@
}

/// The answer when a number names no listed pull request.
pub fn not_listed_message(n: u32) -> (r: String)
    ensures
        r@ == not_listed_text(n),
{
    let mut r = String::new();
    r.append("PR #");
    push_dec(&mut r, n as u64);
    r.append(" not found in the current list.");
    assert(r@ =~= not_listed_text(n));
    r
}

/// The answer when the number given on the command line cannot be read.
pub fn invalid_number_message(given: &str) -> (r: String)
    ensures
        r@ == "Invalid PR number: "@ + given@,
{
    let mut r = String::new();
    r.append("Invalid PR number: ");
    r.append(given);
    r
}

} // verus!

verus! {

/// Where the hosting service's repository resources start.
pub const API_REPOS: &'static str = "https://api.github.com/repos/";

/// The address of a repository's resources: `API_REPOS`, owner, `/`, name.
pub open spec fn repo_url(owner: Seq<char>, repo: Seq<char>) -> Seq<char> {
    API_REPOS@ + owner + seq!['/'] + repo
}

/// Appends the address of a repository's resources.
fn push_repo_url(s: &mut String, owner: &str, repo: &str)
    ensures
        final(s)@ == old(s)@ + repo_url(owner@, repo@),
{
    s.append(API_REPOS);
    s.append(owner);
    push_char(s, '/');
    s.append(repo);
    assert(s@ =~= old(s)@ + repo_url(owner@, repo@));
}

/// The address of the most recent pull requests of a repository, newest
/// first, open and closed alike.
pub fn pulls_list_url(owner: &str, repo: &str) -> (r: String)
    ensures
        r@ == repo_url(owner@, repo@) + "/pulls?state=all&sort=created&direction=desc&per_page="@
            + dec(LIST_SIZE as nat),
{
    let mut r = String::new();
    push_repo_url(&mut r, owner, repo);
    r.append("/pulls?state=all&sort=created&direction=desc&per_page=");
    push_dec(&mut r, LIST_SIZE);
    assert(r@ =~= repo_url(owner@, repo@) + "/pulls?state=all&sort=created&direction=desc&per_page="@
        + dec(LIST_SIZE as nat));
    r
}

/// The address of one pull request.
pub fn pull_url(owner: &str, repo: &str, number: u32) -> (r: String)
    ensures
        r@ == repo_url(owner@, repo@) + "/pulls/"@ + dec(number as nat),
{
    let mut r = String::new();
    push_repo_url(&mut r, owner, repo);
    r.append("/pulls/");
    push_dec(&mut r, number as u64);
    assert(r@ =~= repo_url(owner@, repo@) + "/pulls/"@ + dec(number as nat));
    r
}

/// The address of the changed files of one pull request.
pub fn pull_files_url(owner: &str, repo: &str, number: u32) -> (r: String)
    ensures
        r@ == repo_url(owner@, repo@) + "/pulls/"@ + dec(number as nat) + "/files"@,
{
    let mut r = pull_url(owner, repo, number);
    r.append("/files");
    r
}

} // verus!
