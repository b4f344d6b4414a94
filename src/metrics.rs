//! Added and removed line counts of a unified diff.

use vstd::prelude::*;
use crate::text::{begins_with, chars_of, lines_of, split_lines, starts_with, views};

verus! {

/// An added line: it starts with `+` and is not the `+++` file header.
pub open spec fn is_added(l: Seq<char>) -> bool {
    starts_with(l, "+"@) && !starts_with(l, "+++"@)
}

/// A removed line: it starts with `-` and is not the `---` file header.
pub open spec fn is_removed(l: Seq<char>) -> bool {
    starts_with(l, "-"@) && !starts_with(l, "---"@)
}

/// No line is both an added and a removed line.
pub proof fn lemma_not_both(l: Seq<char>)
    ensures
        !(starts_with(l, "+"@) && starts_with(l, "-"@)),
{
    reveal_strlit("+");
    reveal_strlit("-");
    if starts_with(l, "+"@) && starts_with(l, "-"@) {
        assert(l.subrange(0, 1)[0] == l[0]);
    }
}

/// How many of `ls` are added lines.
pub open spec fn added_in(ls: Seq<Seq<char>>) -> nat
    decreases ls.len(),
{
    if ls.len() == 0 {
        0
    } else {
        added_in(ls.drop_last()) + if is_added(ls.last()) {
            1nat
        } else {
            0nat
        }
    }
}

/// How many of `ls` are removed lines.
pub open spec fn removed_in(ls: Seq<Seq<char>>) -> nat
    decreases ls.len(),
{
    if ls.len() == 0 {
        0
    } else {
        removed_in(ls.drop_last()) + if is_removed(ls.last()) {
            1nat
        } else {
            0nat
        }
    }
}

/// Number of added lines of a patch.
pub open spec fn added_of(patch: Seq<char>) -> nat {
    added_in(lines_of(patch))
}

/// Number of removed lines of a patch.
pub open spec fn removed_of(patch: Seq<char>) -> nat {
    removed_in(lines_of(patch))
}

/// Line statistics of one patch.
#[derive(Clone, Copy, Debug, PartialEq, Eq, Structural)]
pub struct DiffMetrics {
    pub added: usize,
    pub removed: usize,
}

impl DiffMetrics {
    /// Counts the added and removed lines of `patch`, leaving out the
    /// `+++` and `---` header lines.
    pub fn compute(patch: &str) -> (r: DiffMetrics)
        ensures
            r.added == added_of(patch@),
            r.removed == removed_of(patch@),
            r.added + r.removed <= lines_of(patch@).len(),
            r.added + r.removed <= usize::MAX,
    {
        let cs = chars_of(patch);
        let lines = split_lines(cs.as_slice());
        let ghost ls = views(lines@);
        let mut added: usize = 0;
        let mut removed: usize = 0;
        let mut i: usize = 0;
        while i < lines.len()
            invariant
                i <= lines@.len(),
                ls == views(lines@),
                ls == lines_of(patch@),
                added == added_in(ls.take(i as int)),
                removed == removed_in(ls.take(i as int)),
                added + removed <= i,
            decreases lines@.len() - i,
        {
            let line = &lines[i];
            assert(ls.take(i + 1).drop_last() =~= ls.take(i as int));
            assert(ls.take(i + 1).last() == line@);
            let plus = begins_with(line.as_slice(), "+");
            let minus = begins_with(line.as_slice(), "-");
            if plus && !begins_with(line.as_slice(), "+++") {
                added += 1;
            } else if minus && !begins_with(line.as_slice(), "---") {
                removed += 1;
            }
            proof {
                lemma_not_both(line@);
            }
            i += 1;
        }
        assert(ls.take(lines@.len() as int) =~= ls);
        DiffMetrics { added, removed }
    }

    /// Total changed lines: additions plus removals.
    pub fn changed(&self) -> (r: usize)
        requires
            self.added + self.removed <= usize::MAX,
        ensures
            r == self.added + self.removed,
    {
        self.added + self.removed
    }
}

} // verus!
