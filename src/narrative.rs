//! The narrative review: the request text sent to the review service and the
//! partition of its free-form answer into named sections.

use vstd::prelude::*;
use vstd::string::StringExecFns;
use crate::text::{
    after_first_line, begins_with, chars_of, rest_after_line, split_at_each, split_on, starts_with,
    string_of, trim, trimmed, views,
};

verus! {

/// The named parts of a narrative review.
#[derive(Clone, Copy, Debug, PartialEq, Eq, Structural)]
pub enum SectionKind {
    Summary,
    Feedback,
    AdditionalContextNeeded,
    Unclassified,
}

/// One section of a narrative review, its header removed and its body trimmed.
#[derive(Debug)]
pub struct ReviewSection {
    pub kind: SectionKind,
    pub body: String,
}

impl View for ReviewSection {
    type V = (SectionKind, Seq<char>);

    open spec fn view(&self) -> (SectionKind, Seq<char>) {
        (self.kind, self.body@)
    }
}

/// The marker that opens a section.
pub const SECTION_MARKER: &'static str = "## ";

/// The kind of a segment, by the name it starts with.
pub open spec fn classify(seg: Seq<char>) -> SectionKind {
    if starts_with(seg, "Summary"@) {
        SectionKind::Summary
    } else if starts_with(seg, "Feedback"@) {
        SectionKind::Feedback
    } else if starts_with(seg, "Additional Context Needed"@) {
        SectionKind::AdditionalContextNeeded
    } else {
        SectionKind::Unclassified
    }
}

/// The body of a segment of kind `k`: a named segment loses its header
/// line, then the rest is trimmed; an unnamed one is only trimmed.
pub open spec fn section_body(k: SectionKind, seg: Seq<char>) -> Seq<char> {
    match k {
        SectionKind::Unclassified => trim(seg),
        _ => trim(after_first_line(seg)),
    }
}

/// Whether a segment yields a section: named segments always do, other
/// segments only when kept and not blank.
pub open spec fn kept(seg: Seq<char>, keep_unclassified: bool) -> bool {
    classify(seg) != SectionKind::Unclassified || (keep_unclassified && trim(seg).len() > 0)
}

/// The sections that the segments `segs` yield, in order.
pub open spec fn sections_of(segs: Seq<Seq<char>>, keep_unclassified: bool) -> Seq<
    (SectionKind, Seq<char>),
>
    decreases segs.len(),
{
    if segs.len() == 0 {
        Seq::empty()
    } else {
        let prev = sections_of(segs.drop_last(), keep_unclassified);
        let seg = segs.last();
        if kept(seg, keep_unclassified) {
            prev.push((classify(seg), section_body(classify(seg), seg)))
        } else {
            prev
        }
    }
}

/// The sections of a narrative text: the text is cut at every section marker
/// and each piece is classified by the name it starts with.
pub open spec fn partition_spec(text: Seq<char>, keep_unclassified: bool) -> Seq<
    (SectionKind, Seq<char>),
> {
    sections_of(split_on(text, SECTION_MARKER@), keep_unclassified)
}

/// The views of a sequence of review sections.
pub open spec fn section_views(v: Seq<ReviewSection>) -> Seq<(SectionKind, Seq<char>)> {
    v.map_values(|s: ReviewSection| s@)
}

/// The kind of a segment.
fn classify_segment(seg: &[char]) -> (k: SectionKind)
    ensures
        k == classify(seg@),
{
    if begins_with(seg, "Summary") {
        SectionKind::Summary
    } else if begins_with(seg, "Feedback") {
        SectionKind::Feedback
    } else if begins_with(seg, "Additional Context Needed") {
        SectionKind::AdditionalContextNeeded
    } else {
        SectionKind::Unclassified
    }
}

/// The body of a segment of kind `k`.
fn segment_body(k: SectionKind, seg: &[char]) -> (b: Vec<char>)
    ensures
        b@ == section_body(k, seg@),
{
    match k {
        SectionKind::Unclassified => trimmed(seg),
        _ => trimmed(rest_after_line(seg).as_slice()),
    }
}

/// Splits a narrative review into its sections, in the order they appear.
/// Pieces that name no known section are dropped, or kept as
/// `Unclassified` when `keep_unclassified` holds and they are not blank.
pub fn partition(text: &str, keep_unclassified: bool) -> (r: Vec<ReviewSection>)
    ensures
        section_views(r@) == partition_spec(text@, keep_unclassified),
{
    let cs = chars_of(text);
    let marker = chars_of(SECTION_MARKER);
    proof {
        reveal_strlit("## ");
    }
    let segs = split_at_each(cs.as_slice(), marker.as_slice());
    let ghost ss = views(segs@);
    let mut out: Vec<ReviewSection> = Vec::new();
    let mut i: usize = 0;
    while i < segs.len()
        invariant
            i <= segs@.len(),
            ss == views(segs@),
            ss == split_on(text@, SECTION_MARKER@),
            section_views(out@) == sections_of(ss.take(i as int), keep_unclassified),
        decreases segs@.len() - i,
    {
        let seg = segs[i].as_slice();
        assert(ss.take(i + 1).drop_last() =~= ss.take(i as int));
        assert(ss.take(i + 1).last() == seg@);
        let k = classify_segment(seg);
        let keep = match k {
            SectionKind::Unclassified => keep_unclassified && trimmed(seg).len() > 0,
            _ => true,
        };
        if keep {
            let body = segment_body(k, seg);
            let ghost before = section_views(out@);
            out.push(ReviewSection { kind: k, body: string_of(body.as_slice()) });
            assert(section_views(out@) =~= before.push((k, section_body(k, seg@))));
        }
        i += 1;
    }
    assert(ss.take(segs@.len() as int) =~= ss);
    out
}

/// The instructions that precede the patch in a review request.
pub const PROMPT_HEAD: &'static str = "Review this code patch and provide:\n1. A brief summary of the changes (2-3 sentences)\n2. Specific issues or needed improvements, focusing on:\n- Performance problems\n- Security concerns\n- Code maintainability\n- Rust best practices\n\nFormat the response with a '## Summary' section followed by a '## Feedback' section with a markdown list.\nOnly provide feedback if there are concrete issues to address.\nIf the patch lacks sufficient context to make meaningful suggestions, indicate which additional files or information would be helpful to review in a '## Additional Context Needed' section.\n\n```\n";

/// What follows the patch in a review request.
pub const PROMPT_TAIL: &'static str = "\n```";

/// The request text that asks the review service to review `patch`.
pub fn review_prompt(patch: &str) -> (r: String)
    ensures
        r@ == PROMPT_HEAD@ + patch@ + PROMPT_TAIL@,
{
    let mut s = String::new();
    s.append(PROMPT_HEAD);
    s.append(patch);
    s.append(PROMPT_TAIL);
    assert(s@ =~= PROMPT_HEAD@ + patch@ + PROMPT_TAIL@);
    s
}

} // verus!
