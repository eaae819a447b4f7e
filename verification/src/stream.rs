//! The output stream: a stateful text sink with an indentation depth and
//! block-scope helpers.
//!
//! The stream models the artifact as a sequence of lines. Every line is
//! written with a prefix of one indent unit (four spaces) per active block;
//! the depth never goes below zero, and pulling indentation at depth zero is
//! ruled out by precondition, so the block helpers keep the emitted text
//! well-formed. The host writes the finished lines to the artifact file, one
//! line terminator after each.

use vstd::prelude::*;

verus! {

/// One indent unit: four spaces per active block.
pub const INDENT_UNIT: &'static str = "    ";

/// The prefix that a line written under `n` active blocks carries:
/// `n` repetitions of the indent unit.
pub open spec fn indent_prefix(n: nat) -> Seq<char>
    decreases n,
{
    if n == 0 {
        Seq::<char>::empty()
    } else {
        indent_prefix((n - 1) as nat) + INDENT_UNIT@
    }
}

/// The text of a line written under `indent` active blocks.
pub open spec fn lined(indent: nat, text: Seq<char>) -> Seq<char> {
    indent_prefix(indent) + text
}

/// An indent prefix is exactly four characters per active block: a line
/// opened under `n` blocks is prefixed by `4 * n` spaces, at any depth.
pub proof fn lemma_indent_prefix_len(n: nat)
    ensures
        indent_prefix(n).len() == 4 * n,
    decreases n,
{
    reveal_strlit("    ");
    if n > 0 {
        lemma_indent_prefix_len((n - 1) as nat);
    }
}

/// The mathematical state of a stream: the lines written so far and the
/// current indentation depth.
pub struct StreamModel {
    pub lines: Seq<Seq<char>>,
    pub indent: nat,
}

/// The text sink one compile writes into: the finished lines, plus the
/// current indentation depth that prefixes every further line.
pub struct FileStream {
    pub lines: Vec<String>,
    pub indent: usize,
}

impl View for FileStream {
    type V = StreamModel;

    open spec fn view(&self) -> StreamModel {
        StreamModel { lines: self.lines@.map_values(|s: String| s@), indent: self.indent as nat }
    }
}

impl FileStream {
    /// A fresh stream: no lines yet, depth zero.
    pub fn new() -> (r: FileStream)
        ensures
            r@.lines == Seq::<Seq<char>>::empty(),
            r@.indent == 0,
    {
        let r = FileStream { lines: Vec::new(), indent: 0 };
        proof {
            assert(r@.lines =~= Seq::<Seq<char>>::empty());
        }
        r
    }

    /// Writes `line` under the current depth: the line joins the stream
    /// prefixed by one indent unit per active block.
    pub fn write_line(&mut self, line: &str)
        ensures
            final(self)@.indent == old(self)@.indent,
            final(self)@.lines == old(self)@.lines.push(lined(old(self)@.indent, line@)),
    {
        let mut text = String::new();
        let mut i: usize = 0;
        while i < self.indent
            invariant
                i <= self.indent,
                text@ == indent_prefix(i as nat),
                self == old(self),
            decreases self.indent - i,
        {
            text.append(INDENT_UNIT);
            i += 1;
        }
        text.append(line);
        self.lines.push(text);
        proof {
            assert(self@.lines =~= old(self)@.lines.push(lined(old(self)@.indent, line@)));
        }
    }

    /// Opens one more block level: every further line is indented one unit
    /// deeper until the matching `pull_indent`.
    pub fn push_indent(&mut self)
        requires
            old(self).indent < usize::MAX,
        ensures
            final(self)@.indent == old(self)@.indent + 1,
            final(self)@.lines == old(self)@.lines,
    {
        self.indent += 1;
    }

    /// Closes one block level. Pulling at depth zero is a contract
    /// violation of the engine itself, never a user condition, so it is
    /// ruled out here rather than checked at run time.
    pub fn pull_indent(&mut self)
        requires
            old(self).indent > 0,
        ensures
            final(self)@.indent == old(self)@.indent - 1,
            final(self)@.lines == old(self)@.lines,
    {
        self.indent -= 1;
    }

    /// Opens a block: writes `title`, writes the opening brace line, and
    /// deepens the indentation by one. Every call must be paired with one
    /// `close_bracket` before the stream is finished.
    pub fn base_declaration(&mut self, title: &str)
        requires
            old(self).indent < usize::MAX,
        ensures
            final(self)@.indent == old(self)@.indent + 1,
            final(self)@.lines == old(self)@.lines.push(lined(old(self)@.indent, title@)).push(
                lined(old(self)@.indent, "{"@),
            ),
    {
        self.write_line(title);
        self.write_line("{");
        self.push_indent();
    }

    /// Closes the innermost open block: shallows the indentation by one and
    /// writes the closing brace line at the outer depth.
    pub fn close_bracket(&mut self)
        requires
            old(self).indent > 0,
        ensures
            final(self)@.indent == old(self)@.indent - 1,
            final(self)@.lines == old(self)@.lines.push(
                lined((old(self)@.indent - 1) as nat, "}"@),
            ),
    {
        self.pull_indent();
        self.write_line("}");
    }

    /// Writes a blank line. The line still carries the current indent
    /// prefix, which is immaterial to readers of the artifact.
    pub fn empty_line(&mut self)
        ensures
            final(self)@.indent == old(self)@.indent,
            final(self)@.lines == old(self)@.lines.push(indent_prefix(old(self)@.indent)),
    {
        self.write_line("");
        proof {
            reveal_strlit("");
            assert(lined(old(self)@.indent, ""@) =~= indent_prefix(old(self)@.indent));
        }
    }

    /// Appends every line of `body`, each prefixed with this stream's
    /// current indent: the splice that lands an already-emitted body inside
    /// the enclosing blocks at the right depth.
    pub fn append_indented(&mut self, body: &FileStream)
        ensures
            final(self)@.indent == old(self)@.indent,
            final(self)@.lines == old(self)@.lines + body@.lines.map_values(
                |l: Seq<char>| lined(old(self)@.indent, l),
            ),
    {
        let ghost mapped = body@.lines.map_values(|l: Seq<char>| lined(old(self)@.indent, l));
        let mut j: usize = 0;
        while j < body.lines.len()
            invariant
                j <= body.lines.len(),
                self@.indent == old(self)@.indent,
                mapped == body@.lines.map_values(|l: Seq<char>| lined(old(self)@.indent, l)),
                self@.lines == old(self)@.lines + mapped.take(j as int),
            decreases body.lines.len() - j,
        {
            self.write_line(body.lines[j].as_str());
            proof {
                assert(mapped.take(j + 1 as int) =~= mapped.take(j as int).push(mapped[j as int]));
                assert(self@.lines =~= old(self)@.lines + mapped.take(j + 1 as int));
            }
            j += 1;
        }
        proof {
            assert(mapped.take(body@.lines.len() as int) =~= mapped);
        }
    }

    /// Renders the stream as one text: every line followed by one line
    /// terminator.
    pub fn render(&self) -> (r: String)
        ensures
            r@ == spec_text(self@.lines),
    {
        let mut text = String::new();
        let mut j: usize = 0;
        while j < self.lines.len()
            invariant
                j <= self.lines.len(),
                text@ == spec_text(self@.lines.take(j as int)),
            decreases self.lines.len() - j,
        {
            text.append(self.lines[j].as_str());
            text.append("\n");
            proof {
                assert(self@.lines.take(j + 1 as int).drop_last() =~= self@.lines.take(j as int));
                assert(self@.lines.take(j + 1 as int).last() == self@.lines[j as int]);
            }
            j += 1;
        }
        proof {
            assert(self@.lines.take(self@.lines.len() as int) =~= self@.lines);
        }
        text
    }
}

/// The text a sequence of lines renders to: each line followed by one line
/// terminator.
pub open spec fn spec_text(lines: Seq<Seq<char>>) -> Seq<char>
    decreases lines.len(),
{
    if lines.len() == 0 {
        Seq::<char>::empty()
    } else {
        spec_text(lines.drop_last()) + lines.last() + "\n"@
    }
}

} // verus!
