//! Rule-based advisory findings over the text of a patch.

use vstd::prelude::*;
use crate::text::{chars_of, contains, lines_of, matches_at, mentions, pieces, split_lines, views};

verus! {

/// What a finding is about.
#[derive(Clone, Copy, Debug, PartialEq, Eq, Structural)]
pub enum Category {
    Hygiene,
    ErrorHandling,
    Performance,
    Concurrency,
    Security,
    Testing,
}

/// One advisory observation on a patch.
#[derive(Debug)]
pub struct Finding {
    pub category: Category,
    pub message: String,
}

impl View for Finding {
    type V = (Category, Seq<char>);

    open spec fn view(&self) -> (Category, Seq<char>) {
        (self.category, self.message@)
    }
}

/// Number of rules, applied in the order of their index.
pub const RULE_COUNT: usize = 13;

/// Some line of the patch mentions `fn ` and does not mention `test`.
pub open spec fn has_new_fn(p: Seq<char>) -> bool {
    exists|k: int|
        0 <= k < lines_of(p).len() && #[trigger] contains(lines_of(p)[k], "fn "@) && !contains(
            lines_of(p)[k],
            "test"@,
        )
}

/// Whether rule `r` fires on the patch text `p`.
pub open spec fn rule_fires(r: nat, p: Seq<char>) -> bool {
    if r == 0 {
        contains(p, "TODO"@) || contains(p, "FIXME"@)
    } else if r == 1 {
        contains(p, "println!"@) || contains(p, "dbg!"@)
    } else if r == 2 {
        contains(p, "unwrap()"@)
    } else if r == 3 {
        contains(p, "expect("@)
    } else if r == 4 {
        contains(p, "panic!"@)
    } else if r == 5 {
        contains(p, "Clone"@) || contains(p, "clone()"@)
    } else if r == 6 {
        contains(p, "Box::new"@)
    } else if r == 7 {
        contains(p, "Vec::new()"@) && !contains(p, "with_capacity"@)
    } else if r == 8 {
        contains(p, "Mutex"@) && !contains(p, "RwLock"@)
    } else if r == 9 {
        contains(p, ".await"@) && contains(p, "Vec"@)
    } else if r == 10 {
        contains(p, "unsafe"@)
    } else if r == 11 {
        contains(p, "as_ptr"@) || contains(p, "as_mut_ptr"@)
    } else if r == 12 {
        has_new_fn(p) && !contains(p, "#[test]"@)
    } else {
        false
    }
}

/// The category of the finding of rule `r`.
pub open spec fn rule_category(r: nat) -> Category {
    if r <= 1 {
        Category::Hygiene
    } else if r <= 4 {
        Category::ErrorHandling
    } else if r <= 7 {
        Category::Performance
    } else if r <= 9 {
        Category::Concurrency
    } else if r <= 11 {
        Category::Security
    } else {
        Category::Testing
    }
}

/// The message of the finding of rule `r`.
pub open spec fn rule_message(r: nat) -> Seq<char> {
    if r == 0 {
        "Outstanding TODOs/FIXMEs should be addressed before merging"@
    } else if r == 1 {
        "Remove debug print statements before merging"@
    } else if r == 2 {
        "Replace unwrap() calls with proper error handling"@
    } else if r == 3 {
        "Consider replacing expect() with more graceful error handling"@
    } else if r == 4 {
        "Consider replacing panic! with Result/Option for graceful error handling"@
    } else if r == 5 {
        "Review clone() usage - consider using references where possible"@
    } else if r == 6 {
        "Verify if heap allocation via Box is necessary"@
    } else if r == 7 {
        "Consider using Vec::with_capacity() if the size is known"@
    } else if r == 8 {
        "Consider if RwLock would be more appropriate than Mutex"@
    } else if r == 9 {
        "Review concurrent operations on Vec - consider using join_all() for parallel execution"@
    } else if r == 10 {
        "Unsafe block detected - ensure safety guarantees are documented"@
    } else if r == 11 {
        "Raw pointer usage detected - verify memory safety"@
    } else {
        "New functions added without corresponding tests"@
    }
}

/// The finding that rule `r` contributes when it fires.
pub open spec fn rule_finding(r: nat) -> (Category, Seq<char>) {
    (rule_category(r), rule_message(r))
}

/// The findings of the first `n` rules on `p`, in rule order.
pub open spec fn findings_upto(p: Seq<char>, n: nat) -> Seq<(Category, Seq<char>)>
    decreases n,
{
    if n == 0 {
        Seq::empty()
    } else {
        let f = findings_upto(p, (n - 1) as nat);
        if rule_fires((n - 1) as nat, p) {
            f.push(rule_finding((n - 1) as nat))
        } else {
            f
        }
    }
}

/// The findings of all rules on the patch text `p`, in rule order.
pub open spec fn findings_of(p: Seq<char>) -> Seq<(Category, Seq<char>)> {
    findings_upto(p, RULE_COUNT as nat)
}

/// Whether some line mentions `fn ` without mentioning `test`.
fn new_fn_line(lines: &Vec<Vec<char>>) -> (r: bool)
    ensures
        r == exists|k: int|
            0 <= k < lines@.len() && #[trigger] contains(lines@[k]@, "fn "@) && !contains(
                lines@[k]@,
                "test"@,
            ),
{
    let mut i: usize = 0;
    while i < lines.len()
        invariant
            i <= lines@.len(),
            forall|k: int|
                0 <= k < i ==> !(#[trigger] contains(lines@[k]@, "fn "@) && !contains(
                    lines@[k]@,
                    "test"@,
                )),
        decreases lines@.len() - i,
    {
        if mentions(lines[i].as_slice(), "fn ") && !mentions(lines[i].as_slice(), "test") {
            return true;
        }
        i += 1;
    }
    false
}

/// Whether rule `r` fires on `p`, whose lines are `lines`.
fn fires(r: usize, p: &[char], lines: &Vec<Vec<char>>) -> (b: bool)
    requires
        views(lines@) == lines_of(p@),
    ensures
        b == rule_fires(r as nat, p@),
{
    if r == 0 {
        mentions(p, "TODO") || mentions(p, "FIXME")
    } else if r == 1 {
        mentions(p, "println!") || mentions(p, "dbg!")
    } else if r == 2 {
        mentions(p, "unwrap()")
    } else if r == 3 {
        mentions(p, "expect(")
    } else if r == 4 {
        mentions(p, "panic!")
    } else if r == 5 {
        mentions(p, "Clone") || mentions(p, "clone()")
    } else if r == 6 {
        mentions(p, "Box::new")
    } else if r == 7 {
        mentions(p, "Vec::new()") && !mentions(p, "with_capacity")
    } else if r == 8 {
        mentions(p, "Mutex") && !mentions(p, "RwLock")
    } else if r == 9 {
        mentions(p, ".await") && mentions(p, "Vec")
    } else if r == 10 {
        mentions(p, "unsafe")
    } else if r == 11 {
        mentions(p, "as_ptr") || mentions(p, "as_mut_ptr")
    } else if r == 12 {
        let f = new_fn_line(lines);
        proof {
            assert(lines@.len() == lines_of(p@).len());
            assert forall|k: int| 0 <= k < lines@.len() implies lines@[k]@ == lines_of(p@)[k] by {
                assert(views(lines@)[k] == lines@[k]@);
            }
            if f {
                let k = choose|k: int|
                    0 <= k < lines@.len() && #[trigger] contains(lines@[k]@, "fn "@) && !contains(
                        lines@[k]@,
                        "test"@,
                    );
                assert(contains(lines_of(p@)[k], "fn "@));
                assert(has_new_fn(p@));
            } else {
                assert forall|k: int| 0 <= k < lines_of(p@).len() implies !(#[trigger] contains(
                    lines_of(p@)[k],
                    "fn "@,
                ) && !contains(lines_of(p@)[k], "test"@)) by {
                    assert(lines@[k]@ == lines_of(p@)[k]);
                }
            }
        }
        f && !mentions(p, "#[test]")
    } else {
        false
    }
}

/// The message of rule `r`.
fn message(r: usize) -> (m: &'static str)
    ensures
        m@ == rule_message(r as nat),
{
    if r == 0 {
        "Outstanding TODOs/FIXMEs should be addressed before merging"
    } else if r == 1 {
        "Remove debug print statements before merging"
    } else if r == 2 {
        "Replace unwrap() calls with proper error handling"
    } else if r == 3 {
        "Consider replacing expect() with more graceful error handling"
    } else if r == 4 {
        "Consider replacing panic! with Result/Option for graceful error handling"
    } else if r == 5 {
        "Review clone() usage - consider using references where possible"
    } else if r == 6 {
        "Verify if heap allocation via Box is necessary"
    } else if r == 7 {
        "Consider using Vec::with_capacity() if the size is known"
    } else if r == 8 {
        "Consider if RwLock would be more appropriate than Mutex"
    } else if r == 9 {
        "Review concurrent operations on Vec - consider using join_all() for parallel execution"
    } else if r == 10 {
        "Unsafe block detected - ensure safety guarantees are documented"
    } else if r == 11 {
        "Raw pointer usage detected - verify memory safety"
    } else {
        "New functions added without corresponding tests"
    }
}

/// The category of rule `r`.
fn category(r: usize) -> (c: Category)
    ensures
        c == rule_category(r as nat),
{
    if r <= 1 {
        Category::Hygiene
    } else if r <= 4 {
        Category::ErrorHandling
    } else if r <= 7 {
        Category::Performance
    } else if r <= 9 {
        Category::Concurrency
    } else if r <= 11 {
        Category::Security
    } else {
        Category::Testing
    }
}

/// The views of a sequence of findings.
pub open spec fn finding_views(v: Seq<Finding>) -> Seq<(Category, Seq<char>)> {
    v.map_values(|f: Finding| f@)
}

/// Applies every rule to `patch` in order; each rule that fires contributes
/// its finding.
pub fn scan(patch: &str) -> (r: Vec<Finding>)
    ensures
        finding_views(r@) == findings_of(patch@),
{
    let p = chars_of(patch);
    let lines = split_lines(p.as_slice());
    let mut out: Vec<Finding> = Vec::new();
    let mut r: usize = 0;
    while r < RULE_COUNT
        invariant
            r <= RULE_COUNT,
            p@ == patch@,
            views(lines@) == lines_of(p@),
            finding_views(out@) == findings_upto(patch@, r as nat),
        decreases RULE_COUNT - r,
    {
        if fires(r, p.as_slice(), &lines) {
            let f = Finding { category: category(r), message: message(r).to_string() };
            let ghost before = finding_views(out@);
            out.push(f);
            assert(finding_views(out@) =~= before.push(rule_finding(r as nat)));
        }
        r += 1;
    }
    out
}

} // verus!

verus! {

/// `pat` does not occur in `s` when its character at `j` is missing from
/// every position of `s` where it could stand.
pub proof fn lemma_absent_at(s: Seq<char>, pat: Seq<char>, j: int)
    requires
        0 <= j < pat.len(),
        forall|i: int| 0 <= i && i + pat.len() <= s.len() ==> #[trigger] s[i + j] != pat[j],
    ensures
        !contains(s, pat),
{
    assert forall|i: int| !matches_at(s, pat, i) by {
        if matches_at(s, pat, i) {
            assert(s.subrange(i, i + pat.len())[j] == s[i + j]);
        }
    }
}

/// Text without a newline is one piece.
pub proof fn lemma_one_piece(s: Seq<char>)
    requires
        forall|i: int| 0 <= i < s.len() ==> s[i] != '\n',
    ensures
        pieces(s) == seq![s],
    decreases s.len(),
{
    if s.len() > 0 {
        lemma_one_piece(s.drop_last());
        assert(s.drop_last().push(s.last()) =~= s);
    } else {
        assert(s =~= Seq::<char>::empty());
    }
}

/// Non-empty text without a newline is one line.
pub proof fn lemma_one_line(s: Seq<char>)
    requires
        s.len() > 0,
        forall|i: int| 0 <= i < s.len() ==> s[i] != '\n',
    ensures
        lines_of(s) == seq![s],
{
    lemma_one_piece(s);
    assert(lines_of(s) =~= seq![s]);
}

/// When only rule `r` fires on `p`, the first `n` rules yield its finding
/// alone if `r < n`, and nothing otherwise.
pub proof fn lemma_alone_upto(p: Seq<char>, r: nat, n: nat)
    requires
        forall|k: nat| k < RULE_COUNT ==> rule_fires(k, p) == (k == r),
        n <= RULE_COUNT,
    ensures
        findings_upto(p, n) == if r < n {
            seq![rule_finding(r)]
        } else {
            Seq::empty()
        },
    decreases n,
{
    if n > 0 {
        lemma_alone_upto(p, r, (n - 1) as nat);
        if r == n - 1 {
            assert(Seq::<(Category, Seq<char>)>::empty().push(rule_finding(r)) =~= seq![
                rule_finding(r),
            ]);
        }
    }
}

/// When only rule `r` fires on `p`, its finding is the only one.
pub proof fn lemma_alone(p: Seq<char>, r: nat)
    requires
        r < RULE_COUNT,
        lines_of(p) == seq![p],
        forall|k: nat| k < RULE_COUNT ==> rule_fires(k, p) == (k == r),
    ensures
        exists|q: Seq<char>| findings_of(q) == seq![rule_finding(r)],
{
    lemma_alone_upto(p, r, RULE_COUNT as nat);
    assert(findings_of(p) == seq![rule_finding(r)]);
}

/// The characters of the patterns that the rules look for.
proof fn lemma_pattern_chars()
    ensures
        "TODO"@ == seq!['T', 'O', 'D', 'O'],
        "FIXME"@ == seq!['F', 'I', 'X', 'M', 'E'],
        "println!"@ == seq!['p', 'r', 'i', 'n', 't', 'l', 'n', '!'],
        "dbg!"@ == seq!['d', 'b', 'g', '!'],
        "unwrap()"@ == seq!['u', 'n', 'w', 'r', 'a', 'p', '(', ')'],
        "expect("@ == seq!['e', 'x', 'p', 'e', 'c', 't', '('],
        "panic!"@ == seq!['p', 'a', 'n', 'i', 'c', '!'],
        "Clone"@ == seq!['C', 'l', 'o', 'n', 'e'],
        "clone()"@ == seq!['c', 'l', 'o', 'n', 'e', '(', ')'],
        "Box::new"@ == seq!['B', 'o', 'x', ':', ':', 'n', 'e', 'w'],
        "Vec::new()"@ == seq!['V', 'e', 'c', ':', ':', 'n', 'e', 'w', '(', ')'],
        "with_capacity"@ == seq!['w', 'i', 't', 'h', '_', 'c', 'a', 'p', 'a', 'c', 'i', 't', 'y'],
        "Mutex"@ == seq!['M', 'u', 't', 'e', 'x'],
        "RwLock"@ == seq!['R', 'w', 'L', 'o', 'c', 'k'],
        ".await"@ == seq!['.', 'a', 'w', 'a', 'i', 't'],
        "Vec"@ == seq!['V', 'e', 'c'],
        "unsafe"@ == seq!['u', 'n', 's', 'a', 'f', 'e'],
        "as_ptr"@ == seq!['a', 's', '_', 'p', 't', 'r'],
        "as_mut_ptr"@ == seq!['a', 's', '_', 'm', 'u', 't', '_', 'p', 't', 'r'],
        "#[test]"@ == seq!['#', '[', 't', 'e', 's', 't', ']'],
        "fn "@ == seq!['f', 'n', ' '],
        "test"@ == seq!['t', 'e', 's', 't'],
{
    reveal_strlit("TODO");
    reveal_strlit("FIXME");
    reveal_strlit("println!");
    reveal_strlit("dbg!");
    reveal_strlit("unwrap()");
    reveal_strlit("expect(");
    reveal_strlit("panic!");
    reveal_strlit("Clone");
    reveal_strlit("clone()");
    reveal_strlit("Box::new");
    reveal_strlit("Vec::new()");
    reveal_strlit("with_capacity");
    reveal_strlit("Mutex");
    reveal_strlit("RwLock");
    reveal_strlit(".await");
    reveal_strlit("Vec");
    reveal_strlit("unsafe");
    reveal_strlit("as_ptr");
    reveal_strlit("as_mut_ptr");
    reveal_strlit("#[test]");
    reveal_strlit("fn ");
    reveal_strlit("test");
}

/// `TODO` fires its own rule and no other.
proof fn lemma_witness_0()
    ensures
        exists|p: Seq<char>| findings_of(p) == seq![rule_finding(0)],
{
    let w = seq!['T', 'O', 'D', 'O'];
    lemma_pattern_chars();
    lemma_one_line(w);
    assert(w.subrange(0, 4) =~= "TODO"@);
    assert(matches_at(w, "TODO"@, 0));
    lemma_absent_at(w, "dbg!"@, 0);
    lemma_absent_at(w, "Vec"@, 0);
    lemma_absent_at(w, "fn "@, 0);
    lemma_absent_at(w, "test"@, 0);
    lemma_alone(w, 0);
}

/// `dbg!` fires its own rule and no other.
proof fn lemma_witness_1()
    ensures
        exists|p: Seq<char>| findings_of(p) == seq![rule_finding(1)],
{
    let w = seq!['d', 'b', 'g', '!'];
    lemma_pattern_chars();
    lemma_one_line(w);
    lemma_absent_at(w, "TODO"@, 0);
    assert(w.subrange(0, 4) =~= "dbg!"@);
    assert(matches_at(w, "dbg!"@, 0));
    lemma_absent_at(w, "Vec"@, 0);
    lemma_absent_at(w, "fn "@, 0);
    lemma_absent_at(w, "test"@, 0);
    lemma_alone(w, 1);
}

/// `unwrap()` fires its own rule and no other.
proof fn lemma_witness_2()
    ensures
        exists|p: Seq<char>| findings_of(p) == seq![rule_finding(2)],
{
    let w = seq!['u', 'n', 'w', 'r', 'a', 'p', '(', ')'];
    lemma_pattern_chars();
    lemma_one_line(w);
    lemma_absent_at(w, "TODO"@, 0);
    lemma_absent_at(w, "FIXME"@, 0);
    lemma_absent_at(w, "println!"@, 0);
    lemma_absent_at(w, "dbg!"@, 0);
    assert(w.subrange(0, 8) =~= "unwrap()"@);
    assert(matches_at(w, "unwrap()"@, 0));
    lemma_absent_at(w, "expect("@, 0);
    lemma_absent_at(w, "panic!"@, 0);
    lemma_absent_at(w, "Clone"@, 0);
    lemma_absent_at(w, "clone()"@, 0);
    lemma_absent_at(w, "Box::new"@, 0);
    lemma_absent_at(w, "Mutex"@, 0);
    lemma_absent_at(w, "RwLock"@, 0);
    lemma_absent_at(w, ".await"@, 0);
    lemma_absent_at(w, "Vec"@, 0);
    lemma_absent_at(w, "unsafe"@, 2);
    lemma_absent_at(w, "as_ptr"@, 0);
    lemma_absent_at(w, "#[test]"@, 0);
    lemma_absent_at(w, "fn "@, 0);
    lemma_absent_at(w, "test"@, 0);
    lemma_alone(w, 2);
}

/// `expect(` fires its own rule and no other.
proof fn lemma_witness_3()
    ensures
        exists|p: Seq<char>| findings_of(p) == seq![rule_finding(3)],
{
    let w = seq!['e', 'x', 'p', 'e', 'c', 't', '('];
    lemma_pattern_chars();
    lemma_one_line(w);
    lemma_absent_at(w, "TODO"@, 0);
    lemma_absent_at(w, "FIXME"@, 0);
    lemma_absent_at(w, "dbg!"@, 0);
    assert(w.subrange(0, 7) =~= "expect("@);
    assert(matches_at(w, "expect("@, 0));
    lemma_absent_at(w, "panic!"@, 0);
    lemma_absent_at(w, "Clone"@, 0);
    lemma_absent_at(w, "clone()"@, 0);
    lemma_absent_at(w, "Mutex"@, 0);
    lemma_absent_at(w, "RwLock"@, 0);
    lemma_absent_at(w, ".await"@, 0);
    lemma_absent_at(w, "Vec"@, 0);
    lemma_absent_at(w, "unsafe"@, 0);
    lemma_absent_at(w, "as_ptr"@, 0);
    lemma_absent_at(w, "#[test]"@, 0);
    lemma_absent_at(w, "fn "@, 0);
    lemma_absent_at(w, "test"@, 0);
    lemma_alone(w, 3);
}

/// `panic!` fires its own rule and no other.
proof fn lemma_witness_4()
    ensures
        exists|p: Seq<char>| findings_of(p) == seq![rule_finding(4)],
{
    let w = seq!['p', 'a', 'n', 'i', 'c', '!'];
    lemma_pattern_chars();
    lemma_one_line(w);
    lemma_absent_at(w, "TODO"@, 0);
    lemma_absent_at(w, "FIXME"@, 0);
    lemma_absent_at(w, "dbg!"@, 0);
    assert(w.subrange(0, 6) =~= "panic!"@);
    assert(matches_at(w, "panic!"@, 0));
    lemma_absent_at(w, "Clone"@, 0);
    lemma_absent_at(w, "Mutex"@, 0);
    lemma_absent_at(w, "RwLock"@, 0);
    lemma_absent_at(w, ".await"@, 0);
    lemma_absent_at(w, "Vec"@, 0);
    lemma_absent_at(w, "unsafe"@, 0);
    lemma_absent_at(w, "as_ptr"@, 0);
    lemma_absent_at(w, "fn "@, 0);
    lemma_absent_at(w, "test"@, 0);
    lemma_alone(w, 4);
}

/// `Clone` fires its own rule and no other.
proof fn lemma_witness_5()
    ensures
        exists|p: Seq<char>| findings_of(p) == seq![rule_finding(5)],
{
    let w = seq!['C', 'l', 'o', 'n', 'e'];
    lemma_pattern_chars();
    lemma_one_line(w);
    lemma_absent_at(w, "TODO"@, 0);
    lemma_absent_at(w, "FIXME"@, 0);
    lemma_absent_at(w, "dbg!"@, 0);
    assert(w.subrange(0, 5) =~= "Clone"@);
    assert(matches_at(w, "Clone"@, 0));
    lemma_absent_at(w, "Mutex"@, 0);
    lemma_absent_at(w, "Vec"@, 0);
    lemma_absent_at(w, "fn "@, 0);
    lemma_absent_at(w, "test"@, 0);
    lemma_alone(w, 5);
}

/// `Box::new` fires its own rule and no other.
proof fn lemma_witness_6()
    ensures
        exists|p: Seq<char>| findings_of(p) == seq![rule_finding(6)],
{
    let w = seq!['B', 'o', 'x', ':', ':', 'n', 'e', 'w'];
    lemma_pattern_chars();
    lemma_one_line(w);
    lemma_absent_at(w, "TODO"@, 0);
    lemma_absent_at(w, "FIXME"@, 0);
    lemma_absent_at(w, "println!"@, 0);
    lemma_absent_at(w, "dbg!"@, 0);
    lemma_absent_at(w, "unwrap()"@, 0);
    lemma_absent_at(w, "expect("@, 0);
    lemma_absent_at(w, "panic!"@, 0);
    lemma_absent_at(w, "Clone"@, 0);
    lemma_absent_at(w, "clone()"@, 0);
    assert(w.subrange(0, 8) =~= "Box::new"@);
    assert(matches_at(w, "Box::new"@, 0));
    lemma_absent_at(w, "Mutex"@, 0);
    lemma_absent_at(w, "RwLock"@, 0);
    lemma_absent_at(w, ".await"@, 0);
    lemma_absent_at(w, "Vec"@, 0);
    lemma_absent_at(w, "unsafe"@, 0);
    lemma_absent_at(w, "as_ptr"@, 0);
    lemma_absent_at(w, "#[test]"@, 0);
    lemma_absent_at(w, "fn "@, 0);
    lemma_absent_at(w, "test"@, 0);
    lemma_alone(w, 6);
}

/// `Vec::new()` fires its own rule and no other.
proof fn lemma_witness_7()
    ensures
        exists|p: Seq<char>| findings_of(p) == seq![rule_finding(7)],
{
    let w = seq!['V', 'e', 'c', ':', ':', 'n', 'e', 'w', '(', ')'];
    lemma_pattern_chars();
    lemma_one_line(w);
    lemma_absent_at(w, "TODO"@, 0);
    lemma_absent_at(w, "FIXME"@, 0);
    lemma_absent_at(w, "println!"@, 0);
    lemma_absent_at(w, "dbg!"@, 0);
    lemma_absent_at(w, "unwrap()"@, 0);
    lemma_absent_at(w, "expect("@, 1);
    lemma_absent_at(w, "panic!"@, 0);
    lemma_absent_at(w, "Clone"@, 0);
    lemma_absent_at(w, "clone()"@, 1);
    lemma_absent_at(w, "Box::new"@, 0);
    assert(w.subrange(0, 10) =~= "Vec::new()"@);
    assert(matches_at(w, "Vec::new()"@, 0));
    lemma_absent_at(w, "Mutex"@, 0);
    lemma_absent_at(w, "RwLock"@, 0);
    lemma_absent_at(w, ".await"@, 0);
    assert(w.subrange(0, 3) =~= "Vec"@);
    assert(matches_at(w, "Vec"@, 0));
    lemma_absent_at(w, "unsafe"@, 0);
    lemma_absent_at(w, "as_ptr"@, 0);
    lemma_absent_at(w, "as_mut_ptr"@, 0);
    lemma_absent_at(w, "#[test]"@, 0);
    lemma_absent_at(w, "fn "@, 0);
    lemma_absent_at(w, "test"@, 0);
    lemma_alone(w, 7);
}

/// `Mutex` fires its own rule and no other.
proof fn lemma_witness_8()
    ensures
        exists|p: Seq<char>| findings_of(p) == seq![rule_finding(8)],
{
    let w = seq!['M', 'u', 't', 'e', 'x'];
    lemma_pattern_chars();
    lemma_one_line(w);
    lemma_absent_at(w, "TODO"@, 0);
    lemma_absent_at(w, "FIXME"@, 0);
    lemma_absent_at(w, "dbg!"@, 0);
    lemma_absent_at(w, "Clone"@, 0);
    assert(w.subrange(0, 5) =~= "Mutex"@);
    assert(matches_at(w, "Mutex"@, 0));
    lemma_absent_at(w, "Vec"@, 0);
    lemma_absent_at(w, "fn "@, 0);
    lemma_absent_at(w, "test"@, 0);
    lemma_alone(w, 8);
}

/// `Vec.await` fires its own rule and no other.
proof fn lemma_witness_9()
    ensures
        exists|p: Seq<char>| findings_of(p) == seq![rule_finding(9)],
{
    let w = seq!['V', 'e', 'c', '.', 'a', 'w', 'a', 'i', 't'];
    lemma_pattern_chars();
    lemma_one_line(w);
    lemma_absent_at(w, "TODO"@, 0);
    lemma_absent_at(w, "FIXME"@, 0);
    lemma_absent_at(w, "println!"@, 0);
    lemma_absent_at(w, "dbg!"@, 0);
    lemma_absent_at(w, "unwrap()"@, 0);
    lemma_absent_at(w, "expect("@, 1);
    lemma_absent_at(w, "panic!"@, 0);
    lemma_absent_at(w, "Clone"@, 0);
    lemma_absent_at(w, "clone()"@, 1);
    lemma_absent_at(w, "Box::new"@, 0);
    lemma_absent_at(w, "Mutex"@, 0);
    lemma_absent_at(w, "RwLock"@, 0);
    assert(w.subrange(3, 9) =~= ".await"@);
    assert(matches_at(w, ".await"@, 3));
    assert(w.subrange(0, 3) =~= "Vec"@);
    assert(matches_at(w, "Vec"@, 0));
    lemma_absent_at(w, "unsafe"@, 0);
    lemma_absent_at(w, "as_ptr"@, 0);
    lemma_absent_at(w, "#[test]"@, 0);
    lemma_absent_at(w, "fn "@, 0);
    lemma_absent_at(w, "test"@, 0);
    lemma_alone(w, 9);
}

/// `unsafe` fires its own rule and no other.
proof fn lemma_witness_10()
    ensures
        exists|p: Seq<char>| findings_of(p) == seq![rule_finding(10)],
{
    let w = seq!['u', 'n', 's', 'a', 'f', 'e'];
    lemma_pattern_chars();
    lemma_one_line(w);
    lemma_absent_at(w, "TODO"@, 0);
    lemma_absent_at(w, "FIXME"@, 0);
    lemma_absent_at(w, "dbg!"@, 0);
    lemma_absent_at(w, "panic!"@, 0);
    lemma_absent_at(w, "Clone"@, 0);
    lemma_absent_at(w, "Mutex"@, 0);
    lemma_absent_at(w, "RwLock"@, 0);
    lemma_absent_at(w, ".await"@, 0);
    lemma_absent_at(w, "Vec"@, 0);
    assert(w.subrange(0, 6) =~= "unsafe"@);
    assert(matches_at(w, "unsafe"@, 0));
    lemma_absent_at(w, "as_ptr"@, 0);
    lemma_absent_at(w, "fn "@, 0);
    lemma_absent_at(w, "test"@, 0);
    lemma_alone(w, 10);
}

/// `as_ptr` fires its own rule and no other.
proof fn lemma_witness_11()
    ensures
        exists|p: Seq<char>| findings_of(p) == seq![rule_finding(11)],
{
    let w = seq!['a', 's', '_', 'p', 't', 'r'];
    lemma_pattern_chars();
    lemma_one_line(w);
    lemma_absent_at(w, "TODO"@, 0);
    lemma_absent_at(w, "FIXME"@, 0);
    lemma_absent_at(w, "dbg!"@, 0);
    lemma_absent_at(w, "panic!"@, 0);
    lemma_absent_at(w, "Clone"@, 0);
    lemma_absent_at(w, "Mutex"@, 0);
    lemma_absent_at(w, "RwLock"@, 0);
    lemma_absent_at(w, ".await"@, 0);
    lemma_absent_at(w, "Vec"@, 0);
    lemma_absent_at(w, "unsafe"@, 0);
    assert(w.subrange(0, 6) =~= "as_ptr"@);
    assert(matches_at(w, "as_ptr"@, 0));
    lemma_absent_at(w, "fn "@, 0);
    lemma_absent_at(w, "test"@, 0);
    lemma_alone(w, 11);
}

/// `fn f` fires its own rule and no other.
proof fn lemma_witness_12()
    ensures
        exists|p: Seq<char>| findings_of(p) == seq![rule_finding(12)],
{
    let w = seq!['f', 'n', ' ', 'f'];
    lemma_pattern_chars();
    lemma_one_line(w);
    lemma_absent_at(w, "TODO"@, 0);
    lemma_absent_at(w, "dbg!"@, 0);
    lemma_absent_at(w, "Vec"@, 0);
    assert(w.subrange(0, 3) =~= "fn "@);
    assert(matches_at(w, "fn "@, 0));
    lemma_absent_at(w, "test"@, 0);
    assert(contains(lines_of(w)[0], "fn "@));
    assert(has_new_fn(w));
    lemma_alone(w, 12);
}


/// Each rule can be triggered on its own: for every rule there is a patch
/// on which it is the only rule to fire, so that scanning yields its
/// finding alone.
pub proof fn rule_fires_alone(r: nat)
    requires
        r < RULE_COUNT,
    ensures
        exists|p: Seq<char>| findings_of(p) == seq![rule_finding(r)],
{
    if r == 0 {
        lemma_witness_0();
    } else if r == 1 {
        lemma_witness_1();
    } else if r == 2 {
        lemma_witness_2();
    } else if r == 3 {
        lemma_witness_3();
    } else if r == 4 {
        lemma_witness_4();
    } else if r == 5 {
        lemma_witness_5();
    } else if r == 6 {
        lemma_witness_6();
    } else if r == 7 {
        lemma_witness_7();
    } else if r == 8 {
        lemma_witness_8();
    } else if r == 9 {
        lemma_witness_9();
    } else if r == 10 {
        lemma_witness_10();
    } else if r == 11 {
        lemma_witness_11();
    } else {
        lemma_witness_12();
    }
}

} // verus!

verus! {

/// When the first rule fires, its finding comes first.
proof fn lemma_first_finding(p: Seq<char>, n: nat)
    requires
        1 <= n,
        rule_fires(0, p),
    ensures
        findings_upto(p, n).len() >= 1,
        findings_upto(p, n)[0] == rule_finding(0),
    decreases n,
{
    if n > 1 {
        lemma_first_finding(p, (n - 1) as nat);
    } else {
        assert(findings_upto(p, 0) == Seq::<(Category, Seq<char>)>::empty());
        assert(findings_upto(p, 1) == seq![rule_finding(0)]);
    }
}

/// A rule that does not fire contributes no finding.
proof fn lemma_findings_skip(p: Seq<char>, n: nat, r: nat)
    requires
        n <= RULE_COUNT,
        r < RULE_COUNT,
        !rule_fires(r, p),
    ensures
        forall|i: int|
            0 <= i < findings_upto(p, n).len() ==> #[trigger] findings_upto(p, n)[i]
                != rule_finding(r),
    decreases n,
{
    if n > 0 {
        lemma_findings_skip(p, (n - 1) as nat, r);
        if rule_fires((n - 1) as nat, p) {
            lemma_messages_differ((n - 1) as nat, r);
            let prev = findings_upto(p, (n - 1) as nat);
            assert(findings_upto(p, n) == prev.push(rule_finding((n - 1) as nat)));
            assert forall|i: int|
                0 <= i < findings_upto(p, n).len() implies #[trigger] findings_upto(p, n)[i]
                != rule_finding(r) by {
                if i < prev.len() {
                    assert(findings_upto(p, n)[i] == prev[i]);
                }
            }
        }
    }
}

/// Distinct rules have distinct messages.
proof fn lemma_messages_differ(a: nat, b: nat)
    requires
        a < RULE_COUNT,
        b < RULE_COUNT,
        a != b,
    ensures
        rule_message(a) != rule_message(b),
{
    reveal_strlit("Outstanding TODOs/FIXMEs should be addressed before merging");
    reveal_strlit("Remove debug print statements before merging");
    reveal_strlit("Replace unwrap() calls with proper error handling");
    reveal_strlit("Consider replacing expect() with more graceful error handling");
    reveal_strlit("Consider replacing panic! with Result/Option for graceful error handling");
    reveal_strlit("Review clone() usage - consider using references where possible");
    reveal_strlit("Verify if heap allocation via Box is necessary");
    reveal_strlit("Consider using Vec::with_capacity() if the size is known");
    reveal_strlit("Consider if RwLock would be more appropriate than Mutex");
    reveal_strlit(
        "Review concurrent operations on Vec - consider using join_all() for parallel execution",
    );
    reveal_strlit("Unsafe block detected - ensure safety guarantees are documented");
    reveal_strlit("Raw pointer usage detected - verify memory safety");
    reveal_strlit("New functions added without corresponding tests");
    if rule_message(a) == rule_message(b) {
        assert(rule_message(a).len() == rule_message(b).len());
        assert(rule_message(a)[0] == rule_message(b)[0]);
        assert(rule_message(a)[1] == rule_message(b)[1]);
        assert(rule_message(a)[9] == rule_message(b)[9]);
        assert(rule_message(a)[11] == rule_message(b)[11]);
    }
}

/// Without the two hygiene rules firing, no finding is about hygiene.
proof fn lemma_no_hygiene_upto(p: Seq<char>, n: nat)
    requires
        !rule_fires(0, p),
        !rule_fires(1, p),
    ensures
        forall|i: int|
            0 <= i < findings_upto(p, n).len() ==> (#[trigger] findings_upto(p, n)[i]).0
                != Category::Hygiene,
    decreases n,
{
    if n > 0 {
        lemma_no_hygiene_upto(p, (n - 1) as nat);
    }
}

/// A patch that mentions `TODO` yields, first of all, the hygiene finding
/// that asks for outstanding work to be resolved.
pub proof fn todo_yields_hygiene(p: Seq<char>)
    requires
        contains(p, "TODO"@),
    ensures
        findings_of(p).len() >= 1,
        findings_of(p)[0] == rule_finding(0),
        rule_finding(0).0 == Category::Hygiene,
{
    lemma_first_finding(p, RULE_COUNT as nat);
}

/// A patch that mentions neither `TODO` nor `FIXME` yields no finding on
/// outstanding work.
pub proof fn no_marker_no_todo_finding(p: Seq<char>)
    requires
        !contains(p, "TODO"@),
        !contains(p, "FIXME"@),
    ensures
        forall|i: int| 0 <= i < findings_of(p).len() ==> #[trigger] findings_of(p)[i] != rule_finding(0),
{
    lemma_findings_skip(p, RULE_COUNT as nat, 0);
}

/// A patch that mentions neither `TODO` nor `FIXME`, nor a debug print
/// (`println!`, `dbg!`), yields no hygiene finding at all.
pub proof fn no_marker_no_hygiene(p: Seq<char>)
    requires
        !contains(p, "TODO"@),
        !contains(p, "FIXME"@),
        !contains(p, "println!"@),
        !contains(p, "dbg!"@),
    ensures
        forall|i: int| 0 <= i < findings_of(p).len() ==> (#[trigger] findings_of(p)[i]).0 != Category::Hygiene,
{
    lemma_no_hygiene_upto(p, RULE_COUNT as nat);
}

} // verus!

verus! {

/// The finding of rule `r` is among those of the first `n` rules exactly
/// when `r` is one of them and fires.
proof fn lemma_member(p: Seq<char>, n: nat, r: nat)
    requires
        n <= RULE_COUNT,
        r < RULE_COUNT,
    ensures
        findings_upto(p, n).contains(rule_finding(r)) <==> (r < n && rule_fires(r, p)),
    decreases n,
{
    if n > 0 {
        lemma_member(p, (n - 1) as nat, r);
        let prev = findings_upto(p, (n - 1) as nat);
        if rule_fires((n - 1) as nat, p) {
            let cur = prev.push(rule_finding((n - 1) as nat));
            assert(findings_upto(p, n) == cur);
            if (n - 1) as nat != r {
                lemma_messages_differ((n - 1) as nat, r);
            }
            if prev.contains(rule_finding(r)) {
                let i = choose|i: int| 0 <= i < prev.len() && prev[i] == rule_finding(r);
                assert(cur[i] == rule_finding(r));
            }
            if cur.contains(rule_finding(r)) {
                let i = choose|i: int| 0 <= i < cur.len() && cur[i] == rule_finding(r);
                if i < prev.len() {
                    assert(prev[i] == rule_finding(r));
                }
            }
            if (n - 1) as nat == r {
                assert(cur[prev.len() as int] == rule_finding(r));
            }
        }
    } else {
        assert(findings_upto(p, 0) =~= Seq::<(Category, Seq<char>)>::empty());
    }
}

/// Every hygiene finding among those of the first `n` rules comes from one
/// of the two hygiene rules.
proof fn lemma_hygiene_from(p: Seq<char>, n: nat)
    ensures
        forall|i: int|
            0 <= i < findings_upto(p, n).len() && (#[trigger] findings_upto(p, n)[i]).0
                == Category::Hygiene ==> findings_upto(p, n)[i] == rule_finding(0)
                || findings_upto(p, n)[i] == rule_finding(1),
    decreases n,
{
    if n > 0 {
        lemma_hygiene_from(p, (n - 1) as nat);
        let prev = findings_upto(p, (n - 1) as nat);
        if rule_fires((n - 1) as nat, p) {
            assert forall|i: int|
                0 <= i < findings_upto(p, n).len() && (#[trigger] findings_upto(p, n)[i]).0
                    == Category::Hygiene implies findings_upto(p, n)[i] == rule_finding(0)
                || findings_upto(p, n)[i] == rule_finding(1) by {
                if i < prev.len() {
                    assert(findings_upto(p, n)[i] == prev[i]);
                }
            }
        }
    }
}

/// The hygiene findings of a patch: the one on outstanding work appears
/// exactly when the patch mentions `TODO` or `FIXME`, the one on debug
/// prints exactly when it mentions `println!` or `dbg!`, and no other
/// finding is about hygiene.
pub proof fn hygiene_findings(p: Seq<char>)
    ensures
        findings_of(p).contains(rule_finding(0)) <==> (contains(p, "TODO"@) || contains(
            p,
            "FIXME"@,
        )),
        findings_of(p).contains(rule_finding(1)) <==> (contains(p, "println!"@) || contains(
            p,
            "dbg!"@,
        )),
        forall|i: int|
            0 <= i < findings_of(p).len() && (#[trigger] findings_of(p)[i]).0 == Category::Hygiene
                ==> findings_of(p)[i] == rule_finding(0) || findings_of(p)[i] == rule_finding(1),
{
    lemma_member(p, RULE_COUNT as nat, 0);
    lemma_member(p, RULE_COUNT as nat, 1);
    lemma_hygiene_from(p, RULE_COUNT as nat);
}

} // verus!
