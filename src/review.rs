//! Pull-request review: the per-file analysis and the assembly of the whole
//! report from a pull request's metadata, files, comments and narrative
//! reviews.

use vstd::prelude::*;
use vstd::string::StringExecFns;
use crate::metrics::{added_of, removed_of, DiffMetrics};
use crate::narrative::{partition, partition_spec, section_views, SectionKind};
use crate::report::{node_text, rendered, rendered_append, NodeKind, OutputBuffer, BORDER, DIFF_SEPARATOR};
use crate::scanner::{finding_views, findings_of, scan};
use crate::text::{push_char, dec, padded, push_dec, push_padded, push_repeat, repeat, trim, trimmed, chars_of};

verus! {

/// The view of one report node.
pub type NodeView = (NodeKind, Seq<char>);

/// The account of a user on the hosting service.
#[derive(Debug)]
pub struct User {
    pub login: String,
}

/// One discussion comment on a pull request.
#[derive(Debug)]
pub struct Comment {
    pub id: u64,
    pub user: User,
    pub created_at: String,
    pub body: String,
}

/// One changed file of a pull request. `patch` is absent when the hosting
/// service leaves it out (binary files, very large diffs).
#[derive(Debug)]
pub struct FileChange {
    pub filename: String,
    pub status: String,
    pub additions: u32,
    pub deletions: u32,
    pub changes: u32,
    pub patch: Option<String>,
}

/// A pull request as listed for a repository.
#[derive(Debug)]
pub struct PullRequest {
    pub number: u32,
    pub title: String,
    pub body: Option<String>,
    pub user: User,
    pub created_at: String,
    pub html_url: String,
    pub comments_url: String,
    pub url: String,
}

/// The metadata of one pull request and its changed files; `files` is
/// `None` when the file list could not be retrieved.
#[derive(Debug)]
pub struct PullRequestDetail {
    pub title: String,
    pub body: Option<String>,
    pub html_url: String,
    pub user: User,
    pub created_at: String,
    pub comments_url: String,
    pub files: Option<Vec<FileChange>>,
}

/// Shown when the pull request has no description.
pub const NO_DESCRIPTION: &'static str = "No description provided.";

/// Shown when the pull request changes no file.
pub const NO_FILES: &'static str = "No files modified in this PR.";

/// Shown when the file list could not be retrieved.
pub const FILES_UNAVAILABLE: &'static str = "Error: unable to display modified files.";

/// Shown when the pull request has no comments.
pub const NO_COMMENTS: &'static str = "No comments found for this PR.";

/// The whole report when the pull request itself could not be retrieved.
pub const FETCH_ERROR: &'static str = "Error fetching PR details.";

/// Title of the section that lists heuristic findings.
pub const SUGGESTIONS: &'static str = "AI Suggestions";

/// Header row of the file table.
pub const FILE_TABLE_HEAD: &'static str = "┃  Filename                                           Status     Additions  Deletions ";

/// Width of the rule under the header row of the file table.
pub const TABLE_RULE_WIDTH: usize = 80;

/// The title under which a narrative section of kind `k` is shown.
pub open spec fn section_title(k: SectionKind) -> Seq<char> {
    match k {
        SectionKind::Summary => "Change Summary"@,
        SectionKind::Feedback => SUGGESTIONS@,
        SectionKind::AdditionalContextNeeded => "Additional Context Needed"@,
        SectionKind::Unclassified => "Notes"@,
    }
}

/// The title shown above a narrative section of kind `k`.
fn title_of(k: SectionKind) -> (t: &'static str)
    ensures
        t@ == section_title(k),
{
    match k {
        SectionKind::Summary => "Change Summary",
        SectionKind::Feedback => SUGGESTIONS,
        SectionKind::AdditionalContextNeeded => "Additional Context Needed",
        SectionKind::Unclassified => "Notes",
    }
}

/// The line that states the size of a change.
pub open spec fn change_line(added: nat, removed: nat) -> Seq<char> {
    "Changed "@ + dec(added + removed) + " lines ("@ + dec(added) + " additions, "@ + dec(removed)
        + " deletions)"@
}

/// The nodes that show narrative sections: a titled section, then a block
/// with the body, for each.
pub open spec fn narrative_nodes(secs: Seq<(SectionKind, Seq<char>)>) -> Seq<NodeView>
    decreases secs.len(),
{
    if secs.len() == 0 {
        Seq::empty()
    } else {
        narrative_nodes(secs.drop_last()) + seq![
            (NodeKind::Section, section_title(secs.last().0)),
            (NodeKind::Box, secs.last().1),
        ]
    }
}

/// The texts `ms` joined by newlines.
pub open spec fn joined(ms: Seq<Seq<char>>) -> Seq<char>
    decreases ms.len(),
{
    if ms.len() == 0 {
        Seq::empty()
    } else if ms.len() == 1 {
        ms[0]
    } else {
        joined(ms.drop_last()) + seq!['\n'] + ms.last()
    }
}

/// The messages of a sequence of findings.
pub open spec fn messages(fs: Seq<(crate::scanner::Category, Seq<char>)>) -> Seq<Seq<char>> {
    fs.map_values(|f: (crate::scanner::Category, Seq<char>)| f.1)
}

/// The nodes that show heuristic findings: none when there are none, else
/// one section with every message, one per line.
pub open spec fn finding_nodes(fs: Seq<(crate::scanner::Category, Seq<char>)>) -> Seq<NodeView> {
    if fs.len() == 0 {
        Seq::empty()
    } else {
        seq![(NodeKind::Section, SUGGESTIONS@), (NodeKind::Box, joined(messages(fs)))]
    }
}

/// The text of an optional narrative review.
pub open spec fn review_text(r: Option<String>) -> Option<Seq<char>> {
    match r {
        Some(s) => Some(s@),
        None => None,
    }
}

/// The nodes of the analysis of one patch: its size, the sections of its
/// narrative review if there is one, then its heuristic findings.
pub open spec fn analysis_nodes(patch: Seq<char>, review: Option<Seq<char>>) -> Seq<NodeView> {
    seq![(NodeKind::Box, change_line(added_of(patch), removed_of(patch)))] + match review {
        Some(t) => narrative_nodes(partition_spec(t, false)),
        None => Seq::empty(),
    } + finding_nodes(findings_of(patch))
}

/// Appends the analysis of `patch`: its line counts, the named sections of
/// `review` when a narrative review was obtained, and the heuristic
/// findings when any rule fires.
pub fn analyze_patch(patch: &str, review: &Option<String>, output: &mut OutputBuffer)
    ensures
        final(output)@ == old(output)@ + analysis_nodes(patch@, review_text(*review)),
{
    let m = DiffMetrics::compute(patch);
    let mut line = String::new();
    line.append("Changed ");
    push_dec(&mut line, m.changed() as u64);
    line.append(" lines (");
    push_dec(&mut line, m.added as u64);
    line.append(" additions, ");
    push_dec(&mut line, m.removed as u64);
    line.append(" deletions)");
    assert(line@ =~= change_line(added_of(patch@), removed_of(patch@)));
    output.add_box_content(line.as_str());
    let ghost start = old(output)@.push((NodeKind::Box, line@));
    assert(output@ == start);
    let ghost narrated: Seq<NodeView> = match review_text(*review) {
        Some(t) => narrative_nodes(partition_spec(t, false)),
        None => Seq::empty(),
    };
    if let Some(text) = review {
        let secs = partition(text.as_str(), false);
        let ghost sv = section_views(secs@);
        let mut i: usize = 0;
        while i < secs.len()
            invariant
                i <= secs@.len(),
                sv == section_views(secs@),
                sv == partition_spec(text@, false),
                output@ == start + narrative_nodes(sv.take(i as int)),
            decreases secs@.len() - i,
        {
            assert(sv.take(i + 1).drop_last() =~= sv.take(i as int));
            assert(sv.take(i + 1).last() == secs@[i as int]@);
            output.add_section(title_of(secs[i].kind));
            output.add_box_content(secs[i].body.as_str());
            assert(output@ =~= start + narrative_nodes(sv.take(i + 1)));
            i += 1;
        }
        assert(sv.take(secs@.len() as int) =~= sv);
    } else {
        assert(output@ =~= start + narrated);
    }
    assert(output@ == start + narrated);
    let found = scan(patch);
    let ghost fv = finding_views(found@);
    if found.len() > 0 {
        let mut text = String::new();
        let mut i: usize = 0;
        while i < found.len()
            invariant
                i <= found@.len(),
                fv == finding_views(found@),
                text@ == joined(messages(fv.take(i as int))),
            decreases found@.len() - i,
        {
            let ghost ms = messages(fv.take(i + 1));
            assert(fv.take(i + 1).drop_last() =~= fv.take(i as int));
            assert(messages(fv.take(i + 1)).drop_last() =~= messages(fv.take(i as int)));
            if i > 0 {
                push_char(&mut text, '\n');
            }
            text.append(found[i].message.as_str());
            assert(ms.len() == i + 1);
            assert(ms.last() == found@[i as int].message@);
            if i == 0 {
                assert(ms[0] == ms.last());
            }
            assert(text@ =~= joined(ms));
            i += 1;
        }
        assert(fv.take(found@.len() as int) =~= fv);
        output.add_section(SUGGESTIONS);
        output.add_box_content(text.as_str());
    }
    assert(output@ =~= old(output)@ + analysis_nodes(patch@, review_text(*review)));
}

} // verus!

verus! {

/// The title of the section of one comment: its author and time.
pub open spec fn comment_title(c: Comment) -> Seq<char> {
    "Author: "@ + c.user.login@ + " (at "@ + c.created_at@ + ")"@
}

/// A section and a block for each comment, in order.
pub open spec fn each_comment(cs: Seq<Comment>) -> Seq<NodeView>
    decreases cs.len(),
{
    if cs.len() == 0 {
        Seq::empty()
    } else {
        each_comment(cs.drop_last()) + seq![
            (NodeKind::Section, comment_title(cs.last())),
            (NodeKind::Box, cs.last().body@),
        ]
    }
}

/// The nodes that show the comments, or a notice when there are none.
pub open spec fn comment_nodes(cs: Seq<Comment>) -> Seq<NodeView> {
    if cs.len() == 0 {
        seq![(NodeKind::Box, NO_COMMENTS@)]
    } else {
        each_comment(cs)
    }
}

/// Appends each comment under a section naming its author and time, or a
/// notice when there are none.
pub fn display_comments(comments: &[Comment], output: &mut OutputBuffer)
    ensures
        final(output)@ == old(output)@ + comment_nodes(comments@),
{
    if comments.len() == 0 {
        output.add_box_content(NO_COMMENTS);
        assert(output@ =~= old(output)@ + comment_nodes(comments@));
        return;
    }
    let mut i: usize = 0;
    assert(comments@.take(0) =~= Seq::<Comment>::empty());
    assert(old(output)@ + each_comment(Seq::<Comment>::empty()) =~= old(output)@);
    while i < comments.len()
        invariant
            i <= comments@.len(),
            output@ == old(output)@ + each_comment(comments@.take(i as int)),
        decreases comments@.len() - i,
    {
        let c = &comments[i];
        assert(comments@.take(i + 1).drop_last() =~= comments@.take(i as int));
        let mut title = String::new();
        title.append("Author: ");
        title.append(c.user.login.as_str());
        title.append(" (at ");
        title.append(c.created_at.as_str());
        title.append(")");
        assert(title@ =~= comment_title(*c));
        output.add_section(title.as_str());
        output.add_box_content(c.body.as_str());
        assert(output@ =~= old(output)@ + each_comment(comments@.take(i + 1)));
        i += 1;
    }
    assert(comments@.take(comments@.len() as int) =~= comments@);
}

/// The row of the file table for `f`.
pub open spec fn file_row(f: FileChange) -> Seq<char> {
    BORDER@ + padded(f.filename@, 50) + seq![' '] + padded(f.status@, 10) + seq![' '] + padded(
        dec(f.additions as nat),
        10,
    ) + seq![' '] + padded(dec(f.deletions as nat), 10)
}

/// One table row for each file, in order.
pub open spec fn rows_of(fs: Seq<FileChange>) -> Seq<NodeView>
    decreases fs.len(),
{
    if fs.len() == 0 {
        Seq::empty()
    } else {
        rows_of(fs.drop_last()).push((NodeKind::Line, file_row(fs.last())))
    }
}

/// Some file of `fs` carries a patch.
pub open spec fn any_patch(fs: Seq<FileChange>) -> bool {
    exists|j: int| 0 <= j < fs.len() && (#[trigger] fs[j]).patch is Some
}

/// The narrative review given for the file at position `i`, if any.
pub open spec fn review_at(rs: Seq<Option<String>>, i: int) -> Option<Seq<char>> {
    if 0 <= i < rs.len() {
        review_text(rs[i])
    } else {
        None
    }
}

/// The diff and analysis of one file: nothing without a patch; else, after a
/// separating rule unless it is the first file shown, its diff and analysis.
pub open spec fn file_nodes(f: FileChange, review: Option<Seq<char>>, first: bool) -> Seq<
    NodeView,
> {
    match f.patch {
        None => Seq::empty(),
        Some(p) => (if first {
            Seq::empty()
        } else {
            seq![(NodeKind::Line, DIFF_SEPARATOR@)]
        }) + seq![
            (NodeKind::DiffHeader, f.filename@),
            (NodeKind::Diff, p@),
            (NodeKind::Section, "Static Analysis"@),
        ] + analysis_nodes(p@, review),
    }
}

/// The diffs and analyses of the files `fs`, in order, with `rs` the
/// narrative reviews by file position.
pub open spec fn diffs_of(fs: Seq<FileChange>, rs: Seq<Option<String>>) -> Seq<NodeView>
    decreases fs.len(),
{
    if fs.len() == 0 {
        Seq::empty()
    } else {
        diffs_of(fs.drop_last(), rs) + file_nodes(
            fs.last(),
            review_at(rs, fs.len() - 1),
            !any_patch(fs.drop_last()),
        )
    }
}

/// The nodes of the modified-files part of a report.
pub open spec fn files_nodes(files: Option<Vec<FileChange>>, rs: Seq<Option<String>>) -> Seq<
    NodeView,
> {
    match files {
        None => seq![(NodeKind::Box, FILES_UNAVAILABLE@)],
        Some(v) => if v@.len() == 0 {
            seq![(NodeKind::Box, NO_FILES@)]
        } else {
            seq![
                (NodeKind::Line, FILE_TABLE_HEAD@),
                (NodeKind::Line, BORDER@ + repeat('─', TABLE_RULE_WIDTH as nat)),
            ] + rows_of(v@) + seq![(NodeKind::Line, DIFF_SEPARATOR@)] + diffs_of(v@, rs)
        },
    }
}

/// The block under the description title: the body, unless it is absent or
/// blank.
pub open spec fn description_text(body: Option<String>) -> Seq<char> {
    match body {
        Some(b) => if trim(b@).len() > 0 {
            b@
        } else {
            NO_DESCRIPTION@
        },
        None => NO_DESCRIPTION@,
    }
}

/// All nodes of the report on one pull request.
pub open spec fn pr_report_nodes(
    d: PullRequestDetail,
    comments: Seq<Comment>,
    rs: Seq<Option<String>>,
) -> Seq<NodeView> {
    seq![
        (NodeKind::Header, d.title@),
        (NodeKind::Section, "Description"@),
        (NodeKind::Box, description_text(d.body)),
        (NodeKind::Section, "Modified Files"@),
    ] + files_nodes(d.files, rs) + seq![
        (NodeKind::Line, DIFF_SEPARATOR@),
        (NodeKind::Line, Seq::empty()),
        (NodeKind::Header, "Comments"@),
    ] + comment_nodes(comments) + seq![
        (NodeKind::Line, DIFF_SEPARATOR@),
        (NodeKind::Line, Seq::empty()),
    ]
}

/// Appends the file table, then the diff and analysis of each file with a patch.
#[verifier::rlimit(40)]
fn display_files(files: &Vec<FileChange>, reviews: &[Option<String>], output: &mut OutputBuffer)
    requires
        files@.len() > 0,
    ensures
        final(output)@ == old(output)@ + files_nodes(Some(*files), reviews@),
{
    output.add_line(FILE_TABLE_HEAD);
    let mut rule = String::new();
    rule.append(BORDER);
    push_repeat(&mut rule, '─', TABLE_RULE_WIDTH);
    output.add_line(rule.as_str());
    let ghost head = output@;
    let mut i: usize = 0;
    assert(files@.take(0) =~= Seq::<FileChange>::empty());
    assert(head + rows_of(Seq::<FileChange>::empty()) =~= head);
    while i < files.len()
        invariant
            i <= files@.len(),
            output@ == head + rows_of(files@.take(i as int)),
        decreases files@.len() - i,
    {
        let f = &files[i];
        assert(files@.take(i + 1).drop_last() =~= files@.take(i as int));
        let mut row = String::new();
        row.append(BORDER);
        push_padded(&mut row, f.filename.as_str(), 50);
        push_char(&mut row, ' ');
        push_padded(&mut row, f.status.as_str(), 10);
        push_char(&mut row, ' ');
        push_padded(&mut row, crate::text::decimal(f.additions as u64).as_str(), 10);
        push_char(&mut row, ' ');
        push_padded(&mut row, crate::text::decimal(f.deletions as u64).as_str(), 10);
        assert(row@ =~= file_row(*f));
        output.add_line(row.as_str());
        assert(output@ =~= head + rows_of(files@.take(i + 1)));
        i += 1;
    }
    assert(files@.take(files@.len() as int) =~= files@);
    output.add_diff_separator();
    let ghost table = output@;
    let mut first = true;
    let mut i: usize = 0;
    assert(table + diffs_of(Seq::<FileChange>::empty(), reviews@) =~= table);
    while i < files.len()
        invariant
            i <= files@.len(),
            output@ == table + diffs_of(files@.take(i as int), reviews@),
            first == !any_patch(files@.take(i as int)),
        decreases files@.len() - i,
    {
        let f = &files[i];
        let ghost before = output@;
        let ghost fs = files@.take(i + 1);
        assert(fs.drop_last() =~= files@.take(i as int));
        assert(fs.last() == *f);
        match &f.patch {
            Some(patch) => {
                if !first {
                    output.add_diff_separator();
                }
                output.add_diff_header(f.filename.as_str());
                output.add_diff_content(patch.as_str());
                output.add_section("Static Analysis");
                let none: Option<String> = None;
                let review = if i < reviews.len() {
                    &reviews[i]
                } else {
                    &none
                };
                assert(review_text(*review) == review_at(reviews@, i as int));
                analyze_patch(patch.as_str(), review, output);
                assert(output@ =~= before + file_nodes(*f, review_at(reviews@, i as int), first));
                assert(fs[i as int].patch is Some);
                first = false;
            },
            None => {
                assert(output@ =~= before + file_nodes(*f, review_at(reviews@, i as int), first));
                assert forall|j: int| 0 <= j < fs.len() && (#[trigger] fs[j]).patch is Some
                    implies 0 <= j < i && files@.take(i as int)[j].patch is Some by {
                    if j == i {
                        assert(fs[j] == *f);
                    }
                }
            },
        }
        assert(output@ =~= table + diffs_of(fs, reviews@));
        i += 1;
    }
    assert(files@.take(files@.len() as int) =~= files@);
    assert(output@ =~= old(output)@ + files_nodes(Some(*files), reviews@));
}

/// Appends the description block of a pull request.
fn display_description(body: &Option<String>, output: &mut OutputBuffer)
    ensures
        final(output)@ == old(output)@.push((NodeKind::Box, description_text(*body))),
{
    match body {
        Some(b) => {
            if trimmed(chars_of(b.as_str()).as_slice()).len() > 0 {
                output.add_box_content(b.as_str());
            } else {
                output.add_box_content(NO_DESCRIPTION);
            }
        },
        None => {
            output.add_box_content(NO_DESCRIPTION);
        },
    }
}

/// Appends the report on one pull request: its title, its description, the
/// table of its files, the diff and analysis of each file with a patch, and
/// its comments. `reviews[i]` is the narrative review obtained for the file
/// at position `i`, if any.
#[verifier::rlimit(40)]
pub fn display_pr_details(
    details: &PullRequestDetail,
    comments: &[Comment],
    reviews: &[Option<String>],
    output: &mut OutputBuffer,
)
    ensures
        final(output)@ == old(output)@ + pr_report_nodes(*details, comments@, reviews@),
{
    output.add_header(details.title.as_str());
    output.add_section("Description");
    display_description(&details.body, output);
    assert(output@ =~= old(output)@ + seq![
        (NodeKind::Header, details.title@),
        (NodeKind::Section, "Description"@),
        (NodeKind::Box, description_text(details.body)),
    ]);
    output.add_section("Modified Files");
    let ghost top = output@;
    match &details.files {
        None => {
            output.add_box_content(FILES_UNAVAILABLE);
        },
        Some(files) => {
            if files.len() == 0 {
                output.add_box_content(NO_FILES);
            } else {
                display_files(files, reviews, output);
            }
        },
    }
    assert(output@ =~= top + files_nodes(details.files, reviews@));
    output.add_diff_separator();
    output.add_line("");
    output.add_header("Comments");
    proof {
        reveal_strlit("");
        assert(""@ =~= Seq::<char>::empty());
    }
    assert(output@ =~= top + files_nodes(details.files, reviews@) + seq![
        (NodeKind::Line, DIFF_SEPARATOR@),
        (NodeKind::Line, Seq::empty()),
        (NodeKind::Header, "Comments"@),
    ]);
    let ghost mid = output@;
    display_comments(comments, output);
    output.add_diff_separator();
    output.add_line("");
    assert(output@ =~= mid + comment_nodes(comments@) + seq![
        (NodeKind::Line, DIFF_SEPARATOR@),
        (NodeKind::Line, Seq::empty()),
    ]);
    assert(output@ =~= old(output)@ + pr_report_nodes(*details, comments@, reviews@));
}

/// The text returned for a pull-request request: the rendered report when
/// the pull request was retrieved, else a fixed error line.
pub open spec fn request_text(
    details: Option<PullRequestDetail>,
    comments: Seq<Comment>,
    rs: Seq<Option<String>>,
) -> Seq<char> {
    match details {
        Some(d) => rendered(pr_report_nodes(d, comments, rs)),
        None => FETCH_ERROR@,
    }
}

/// The report on one pull request as text. Only a pull request that could
/// not be retrieved fails the request; missing files, comments or reviews
/// show as notices in the report.
pub fn pr_report(
    details: &Option<PullRequestDetail>,
    comments: &[Comment],
    reviews: &[Option<String>],
) -> (r: String)
    ensures
        r@ == request_text(*details, comments@, reviews@),
{
    match details {
        Some(d) => {
            let mut out = OutputBuffer::new();
            display_pr_details(d, comments, reviews, &mut out);
            assert(out@ =~= pr_report_nodes(*d, comments@, reviews@));
            out.render()
        },
        None => FETCH_ERROR.to_string(),
    }
}

} // verus!

verus! {

/// The first pull request of `prs` numbered `number`, if any.
pub fn find_pr_by_number(prs: &[PullRequest], number: u32) -> (r: Option<&PullRequest>)
    ensures
        r is None <==> forall|i: int| 0 <= i < prs@.len() ==> (#[trigger] prs@[i]).number != number,
        r matches Some(p) ==> exists|i: int|
            0 <= i < prs@.len() && *p == prs@[i] && prs@[i].number == number && forall|j: int|
                0 <= j < i ==> (#[trigger] prs@[j]).number != number,
{
    let mut i: usize = 0;
    while i < prs.len()
        invariant
            i <= prs@.len(),
            forall|j: int| 0 <= j < i ==> (#[trigger] prs@[j]).number != number,
        decreases prs@.len() - i,
    {
        if prs[i].number == number {
            return Some(&prs[i]);
        }
        i += 1;
    }
    None
}

impl Default for FileChange {
    fn default() -> (r: FileChange)
        ensures
            r.filename@ == Seq::<char>::empty(),
            r.status@ == Seq::<char>::empty(),
            r.additions == 0,
            r.deletions == 0,
            r.changes == 0,
            r.patch is None,
    {
        FileChange {
            filename: String::new(),
            status: String::new(),
            additions: 0,
            deletions: 0,
            changes: 0,
            patch: None,
        }
    }
}

impl Default for PullRequestDetail {
    fn default() -> (r: PullRequestDetail)
        ensures
            r.title@ == Seq::<char>::empty(),
            r.body is None,
            r.html_url@ == Seq::<char>::empty(),
            r.user.login@ == Seq::<char>::empty(),
            r.created_at@ == Seq::<char>::empty(),
            r.comments_url@ == Seq::<char>::empty(),
            r.files matches Some(v) && v@.len() == 0,
    {
        PullRequestDetail {
            title: String::new(),
            body: None,
            html_url: String::new(),
            user: User { login: String::new() },
            created_at: String::new(),
            comments_url: String::new(),
            files: Some(Vec::new()),
        }
    }
}

} // verus!

verus! {

/// When the pull request was retrieved but its file list was not, the report
/// still renders to non-empty text: it opens with the pull request's
/// header, and it shows the notice that the modified files cannot be
/// displayed.
pub proof fn report_without_files(
    d: PullRequestDetail,
    comments: Seq<Comment>,
    rs: Seq<Option<String>>,
)
    requires
        d.files is None,
    ensures
        pr_report_nodes(d, comments, rs)[0] == (NodeKind::Header, d.title@),
        pr_report_nodes(d, comments, rs).contains((NodeKind::Box, FILES_UNAVAILABLE@)),
        rendered(pr_report_nodes(d, comments, rs)).len() > 0,
        crate::text::contains(
            rendered(pr_report_nodes(d, comments, rs)),
            node_text((NodeKind::Box, FILES_UNAVAILABLE@)),
        ),
{
    let ns = pr_report_nodes(d, comments, rs);
    let un = (NodeKind::Box, FILES_UNAVAILABLE@);
    assert(ns[4] == un);
    let a = ns.take(4);
    let b = ns.subrange(4, 5);
    let c = ns.skip(5);
    assert(ns =~= a + b + c);
    rendered_append(a + b, c);
    rendered_append(a, b);
    assert(b.drop_last() =~= Seq::<NodeView>::empty());
    assert(b.last() == un);
    assert(rendered(b.drop_last()) == Seq::<char>::empty());
    assert(rendered(b) =~= node_text(un));
    let t = rendered(ns);
    assert(t =~= rendered(a) + node_text(un) + rendered(c));
    let k = rendered(a).len() as int;
    assert(t.subrange(k, k + node_text(un).len()) =~= node_text(un));
    assert(crate::text::matches_at(t, node_text(un), k));
    reveal_strlit("┃\n");
    assert(node_text(un).len() > 0);
}

} // verus!
