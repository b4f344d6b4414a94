//! The report document: an append-only sequence of typed nodes under one
//! root, rendered to text by a single pure traversal.

use vstd::prelude::*;
use vstd::string::StringExecFns;
use vstd::utf8::encode_utf8;
use crate::text::{chars_of, lines_of, push_char, push_chars, push_repeat, repeat, split_lines, views};

verus! {

/// How a node is drawn.
#[derive(Clone, Copy, Debug, PartialEq, Eq, Structural)]
pub enum NodeKind {
    /// One plain line.
    Line,
    /// A blank line, then a heavy top rule that carries the text.
    Header,
    /// A rule that carries the text and opens a section.
    Section,
    /// Each line of the text behind a left border, between two border lines.
    Box,
    /// Each line of the text behind a left border.
    BoxInner,
    /// A blank line, then a top rule naming the file of a diff.
    DiffHeader,
    /// Each line of a diff behind a left border, additions and removals tagged.
    Diff,
}

/// One node of a report: its kind and its text.
#[derive(Debug)]
pub struct ReportNode {
    pub kind: NodeKind,
    pub text: String,
}

impl View for ReportNode {
    type V = (NodeKind, Seq<char>);

    open spec fn view(&self) -> (NodeKind, Seq<char>) {
        (self.kind, self.text@)
    }
}

/// The report document: its nodes in the order they were appended.
#[derive(Debug)]
pub struct OutputBuffer {
    nodes: Vec<ReportNode>,
}

impl View for OutputBuffer {
    type V = Seq<(NodeKind, Seq<char>)>;

    closed spec fn view(&self) -> Seq<(NodeKind, Seq<char>)> {
        self.nodes@.map_values(|n: ReportNode| n@)
    }
}

/// Width of the rule after a header or section title.
pub const HEADER_WIDTH: usize = 76;

/// Width of the rule after the file name of a diff header.
pub const DIFF_HEADER_WIDTH: usize = 70;

/// The rule that closes a diff or a block.
pub const DIFF_SEPARATOR: &'static str = "┗━━━━━━━━━━━━━━━━━━━━━━━━━━━━━━━━━━━━━━━━━━━━━━━━━━━━━━━━━━━━━━━━━━━━━━━━━━━━━━━";

/// The left border of a boxed line.
pub const BORDER: &'static str = "┃  ";

/// Number of rule characters after a title of `t`: `width` less the UTF-8
/// length of `t`, and none once the title is that long.
pub open spec fn pad(width: nat, t: Seq<char>) -> nat {
    let n = encode_utf8(t).len();
    if n < width {
        (width - n) as nat
    } else {
        0
    }
}

/// A titled rule line.
pub open spec fn banner(prefix: Seq<char>, t: Seq<char>, width: nat) -> Seq<char> {
    prefix + t + seq![' '] + repeat('━', pad(width, t)) + seq!['\n']
}

/// The lines `ls`, each behind a left border.
pub open spec fn boxed(ls: Seq<Seq<char>>) -> Seq<char>
    decreases ls.len(),
{
    if ls.len() == 0 {
        Seq::empty()
    } else {
        boxed(ls.drop_last()) + BORDER@ + ls.last() + seq!['\n']
    }
}

/// One line of a diff: additions green, removals red, others plain.
pub open spec fn diff_line(l: Seq<char>) -> Seq<char> {
    if l.len() > 0 && l[0] == '+' {
        "┃  \x1b[32m"@ + l + "\x1b[0m\n"@
    } else if l.len() > 0 && l[0] == '-' {
        "┃  \x1b[31m"@ + l + "\x1b[0m\n"@
    } else {
        BORDER@ + l + seq!['\n']
    }
}

/// The lines `ls` of a diff, each drawn by `diff_line`.
pub open spec fn diffed(ls: Seq<Seq<char>>) -> Seq<char>
    decreases ls.len(),
{
    if ls.len() == 0 {
        Seq::empty()
    } else {
        diffed(ls.drop_last()) + diff_line(ls.last())
    }
}

/// The text of one node.
pub open spec fn node_text(n: (NodeKind, Seq<char>)) -> Seq<char> {
    let t = n.1;
    match n.0 {
        NodeKind::Line => t + seq!['\n'],
        NodeKind::Header => seq!['\n'] + banner("┏━━ "@, t, HEADER_WIDTH as nat),
        NodeKind::Section => banner("┣━━ "@, t, HEADER_WIDTH as nat),
        NodeKind::Box => "┃\n"@ + boxed(lines_of(t)) + "┃\n"@,
        NodeKind::BoxInner => boxed(lines_of(t)),
        NodeKind::DiffHeader => seq!['\n'] + banner("┏━━ Diff: "@, t, DIFF_HEADER_WIDTH as nat),
        NodeKind::Diff => diffed(lines_of(t)),
    }
}

/// The text of a sequence of nodes: the text of each, in order.
pub open spec fn rendered(ns: Seq<(NodeKind, Seq<char>)>) -> Seq<char>
    decreases ns.len(),
{
    if ns.len() == 0 {
        Seq::empty()
    } else {
        rendered(ns.drop_last()) + node_text(ns.last())
    }
}

/// Appends a title and its rule: `prefix`, `t`, a space, then `width` less
/// the byte length of `t` rule characters.
fn push_banner(out: &mut String, prefix: &str, t: &str, width: usize)
    ensures
        final(out)@ == old(out)@ + banner(prefix@, t@, width as nat),
{
    out.append(prefix);
    out.append(t);
    push_char(out, ' ');
    let n = t.as_bytes().len();
    let fill = if n < width {
        width - n
    } else {
        0
    };
    push_repeat(out, '━', fill);
    push_char(out, '\n');
    assert(n == encode_utf8(t@).len());
    assert(fill == pad(width as nat, t@));
    assert(out@ =~= old(out)@ + banner(prefix@, t@, width as nat));
}

/// Appends each of `lines` behind a left border.
fn push_boxed(out: &mut String, lines: &Vec<Vec<char>>)
    ensures
        final(out)@ == old(out)@ + boxed(views(lines@)),
{
    let ghost ls = views(lines@);
    let mut i: usize = 0;
    while i < lines.len()
        invariant
            i <= lines@.len(),
            ls == views(lines@),
            out@ == old(out)@ + boxed(ls.take(i as int)),
        decreases lines@.len() - i,
    {
        assert(ls.take(i + 1).drop_last() =~= ls.take(i as int));
        assert(ls.take(i + 1).last() == lines@[i as int]@);
        out.append(BORDER);
        push_chars(out, lines[i].as_slice());
        push_char(out, '\n');
        assert(out@ =~= old(out)@ + boxed(ls.take(i + 1)));
        i += 1;
    }
    assert(ls.take(lines@.len() as int) =~= ls);
}

/// Appends each of `lines` as a diff line.
fn push_diff(out: &mut String, lines: &Vec<Vec<char>>)
    ensures
        final(out)@ == old(out)@ + diffed(views(lines@)),
{
    let ghost ls = views(lines@);
    let mut i: usize = 0;
    while i < lines.len()
        invariant
            i <= lines@.len(),
            ls == views(lines@),
            out@ == old(out)@ + diffed(ls.take(i as int)),
        decreases lines@.len() - i,
    {
        assert(ls.take(i + 1).drop_last() =~= ls.take(i as int));
        let l = lines[i].as_slice();
        assert(ls.take(i + 1).last() == l@);
        let ghost before = out@;
        if l.len() > 0 && l[0] == '+' {
            out.append("┃  \x1b[32m");
            push_chars(out, l);
            out.append("\x1b[0m\n");
        } else if l.len() > 0 && l[0] == '-' {
            out.append("┃  \x1b[31m");
            push_chars(out, l);
            out.append("\x1b[0m\n");
        } else {
            out.append(BORDER);
            push_chars(out, l);
            push_char(out, '\n');
        }
        assert(out@ =~= before + diff_line(l@));
        assert(out@ =~= old(out)@ + diffed(ls.take(i + 1)));
        i += 1;
    }
    assert(ls.take(lines@.len() as int) =~= ls);
}

/// Appends the text of one node.
fn push_node(out: &mut String, n: &ReportNode)
    ensures
        final(out)@ == old(out)@ + node_text(n@),
{
    let t = n.text.as_str();
    match n.kind {
        NodeKind::Line => {
            out.append(t);
            push_char(out, '\n');
        },
        NodeKind::Header => {
            push_char(out, '\n');
            push_banner(out, "┏━━ ", t, HEADER_WIDTH);
        },
        NodeKind::Section => {
            push_banner(out, "┣━━ ", t, HEADER_WIDTH);
        },
        NodeKind::Box => {
            let lines = split_lines(chars_of(t).as_slice());
            out.append("┃\n");
            push_boxed(out, &lines);
            out.append("┃\n");
        },
        NodeKind::BoxInner => {
            let lines = split_lines(chars_of(t).as_slice());
            push_boxed(out, &lines);
        },
        NodeKind::DiffHeader => {
            push_char(out, '\n');
            push_banner(out, "┏━━ Diff: ", t, DIFF_HEADER_WIDTH);
        },
        NodeKind::Diff => {
            let lines = split_lines(chars_of(t).as_slice());
            push_diff(out, &lines);
        },
    }
    assert(out@ =~= old(out)@ + node_text(n@));
}

impl OutputBuffer {
    /// An empty document.
    pub fn new() -> (r: OutputBuffer)
        ensures
            r@ == Seq::<(NodeKind, Seq<char>)>::empty(),
    {
        let r = OutputBuffer { nodes: Vec::new() };
        assert(r@ =~= Seq::<(NodeKind, Seq<char>)>::empty());
        r
    }

    /// Number of nodes appended so far.
    pub fn len(&self) -> (r: usize)
        ensures
            r == self@.len(),
    {
        self.nodes.len()
    }

    /// Appends a node of kind `kind` holding `text`.
    fn push_node_of(&mut self, kind: NodeKind, text: String)
        ensures
            final(self)@ == old(self)@.push((kind, text@)),
    {
        self.nodes.push(ReportNode { kind, text });
        assert(final(self)@ =~= old(self)@.push((kind, text@)));
    }

    /// Appends one plain line.
    pub fn add_line(&mut self, line: &str)
        ensures
            final(self)@ == old(self)@.push((NodeKind::Line, line@)),
    {
        self.push_node_of(NodeKind::Line, line.to_string());
    }

    /// Appends a line of `count` copies of `ch`.
    pub fn add_separator(&mut self, ch: char, count: usize)
        ensures
            final(self)@ == old(self)@.push((NodeKind::Line, repeat(ch, count as nat))),
    {
        let mut s = String::new();
        push_repeat(&mut s, ch, count);
        assert(s@ =~= repeat(ch, count as nat));
        self.push_node_of(NodeKind::Line, s);
    }

    /// Appends a header titled `text`.
    pub fn add_header(&mut self, text: &str)
        ensures
            final(self)@ == old(self)@.push((NodeKind::Header, text@)),
    {
        self.push_node_of(NodeKind::Header, text.to_string());
    }

    /// Appends a section rule titled `text`.
    pub fn add_section(&mut self, text: &str)
        ensures
            final(self)@ == old(self)@.push((NodeKind::Section, text@)),
    {
        self.push_node_of(NodeKind::Section, text.to_string());
    }

    /// Appends a bordered block holding the lines of `content`.
    pub fn add_box_content(&mut self, content: &str)
        ensures
            final(self)@ == old(self)@.push((NodeKind::Box, content@)),
    {
        self.push_node_of(NodeKind::Box, content.to_string());
    }

    /// Appends the lines of `content` behind a left border, without the
    /// border lines above and below.
    pub fn add_box_inner_content(&mut self, content: &str)
        ensures
            final(self)@ == old(self)@.push((NodeKind::BoxInner, content@)),
    {
        self.push_node_of(NodeKind::BoxInner, content.to_string());
    }

    /// Appends the header of the diff of `filename`.
    pub fn add_diff_header(&mut self, filename: &str)
        ensures
            final(self)@ == old(self)@.push((NodeKind::DiffHeader, filename@)),
    {
        self.push_node_of(NodeKind::DiffHeader, filename.to_string());
    }

    /// Appends the lines of a diff, additions and removals tagged.
    pub fn add_diff_content(&mut self, content: &str)
        ensures
            final(self)@ == old(self)@.push((NodeKind::Diff, content@)),
    {
        self.push_node_of(NodeKind::Diff, content.to_string());
    }

    /// Appends the closing rule of a diff.
    pub fn add_diff_separator(&mut self)
        ensures
            final(self)@ == old(self)@.push((NodeKind::Line, DIFF_SEPARATOR@)),
    {
        self.add_line(DIFF_SEPARATOR);
    }

    /// Removes every node.
    pub fn clear(&mut self)
        ensures
            final(self)@ == Seq::<(NodeKind, Seq<char>)>::empty(),
    {
        self.nodes = Vec::new();
        assert(final(self)@ =~= Seq::<(NodeKind, Seq<char>)>::empty());
    }

    /// The text of the document: the text of each node, in order. It
    /// depends on the nodes alone and leaves them as they are.
    pub fn render(&self) -> (r: String)
        ensures
            r@ == rendered(self@),
    {
        let mut out = String::new();
        let mut i: usize = 0;
        while i < self.nodes.len()
            invariant
                i <= self.nodes@.len(),
                out@ == rendered(self@.take(i as int)),
            decreases self.nodes@.len() - i,
        {
            assert(self@.take(i + 1).drop_last() =~= self@.take(i as int));
            push_node(&mut out, &self.nodes[i]);
            i += 1;
        }
        assert(self@.take(self.nodes@.len() as int) =~= self@);
        out
    }
}

} // verus!

verus! {

/// The text of nodes appended after others follows the text of those
/// others unchanged: appending never rewrites what was rendered before.
pub proof fn rendered_append(ns: Seq<(NodeKind, Seq<char>)>, ms: Seq<(NodeKind, Seq<char>)>)
    ensures
        rendered(ns + ms) == rendered(ns) + rendered(ms),
    decreases ms.len(),
{
    if ms.len() == 0 {
        assert(ns + ms =~= ns);
        assert(rendered(ns) + Seq::<char>::empty() =~= rendered(ns));
    } else {
        rendered_append(ns, ms.drop_last());
        assert((ns + ms).drop_last() =~= ns + ms.drop_last());
        assert(rendered(ns) + rendered(ms.drop_last()) + node_text(ms.last()) =~= rendered(ns)
            + rendered(ms));
    }
}

/// Rendering is a function of the nodes alone: two documents with the same
/// nodes render to the same text, so rendering a document twice with no
/// change in between yields the same text both times.
pub proof fn render_idempotent(a: OutputBuffer, b: OutputBuffer)
    requires
        a@ == b@,
    ensures
        rendered(a@) == rendered(b@),
{
}

} // verus!
