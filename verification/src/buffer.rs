//! The document, and what each row of the screen shows of it.

use vstd::prelude::*;
use crate::banner::{banner_text, NAME, VERSION};
use crate::terminal::{CommandView, Position, Size, Terminal};

verus! {

/// The document: its lines of text, first line first.
pub struct Buffer {
    content: Vec<String>,
}

/// The texts of a run of lines, in order.
pub open spec fn lines_view(lines: Seq<String>) -> Seq<Seq<char>> {
    lines.map_values(|line: String| line@)
}

impl View for Buffer {
    type V = Seq<Seq<char>>;

    closed spec fn view(&self) -> Seq<Seq<char>> {
        lines_view(self.content@)
    }
}

/// Drawing one row: go to its first cell, then write its text.
pub open spec fn row_commands(row: int, text: Seq<char>) -> Seq<CommandView> {
    seq![CommandView::MoveTo(Position { x: 0, y: row as u16 }), CommandView::Print(text)]
}

/// What row `row` of a screen of dimensions `size` shows of a document: the
/// document's line of that number where it has one; else the welcome banner
/// on the row a third of the way down; else a tilde.
pub open spec fn row_text(lines: Seq<Seq<char>>, size: Size, row: int) -> Seq<char> {
    if row < lines.len() {
        lines[row]
    } else if row == size.height / 3 {
        banner_text(NAME@, VERSION@, size.width as nat)
    } else {
        seq!['~']
    }
}

/// Drawing the rows from `from` up to, not including, `to`, top down.
pub open spec fn rows(lines: Seq<Seq<char>>, size: Size, from: int, to: int) -> Seq<CommandView>
    decreases to - from,
{
    if to <= from {
        Seq::empty()
    } else {
        rows(lines, size, from, to - 1) + row_commands(to - 1, row_text(lines, size, to - 1))
    }
}

/// Drawing every row of the screen, top down.
pub open spec fn frame(lines: Seq<Seq<char>>, size: Size) -> Seq<CommandView> {
    rows(lines, size, 0, size.height as int)
}

/// The number of rows of a screen `height` rows high that show a line of a
/// document of `length` lines.
pub open spec fn text_rows(length: nat, height: u16) -> int {
    if length < height {
        length as int
    } else {
        height as int
    }
}

/// Rows drawn in two runs, one after the other, are the rows drawn in one.
pub proof fn lemma_rows_split(lines: Seq<Seq<char>>, size: Size, from: int, middle: int, to: int)
    requires
        from <= middle <= to,
    ensures
        rows(lines, size, from, middle) + rows(lines, size, middle, to) == rows(
            lines,
            size,
            from,
            to,
        ),
    decreases to - middle,
{
    if middle < to {
        lemma_rows_split(lines, size, from, middle, to - 1);
    }
}

/// Below its last line a document shows what an empty document shows.
pub proof fn lemma_rows_below_text(lines: Seq<Seq<char>>, size: Size, from: int, to: int)
    requires
        lines.len() <= from || to <= from,
    ensures
        rows(lines, size, from, to) == rows(Seq::empty(), size, from, to),
    decreases to - from,
{
    if from < to {
        lemma_rows_below_text(lines, size, from, to - 1);
    }
}

impl Buffer {
    /// A document of the given lines.
    pub fn new(content: Vec<String>) -> (buffer: Buffer)
        ensures
            buffer@ == lines_view(content@),
    {
        Buffer { content }
    }

    /// The number of lines.
    pub fn len(&self) -> (length: usize)
        ensures
            length == self@.len(),
    {
        self.content.len()
    }

    /// The lines, first line first.
    pub fn lines(&self) -> (lines: &Vec<String>)
        ensures
            lines_view(lines@) == self@,
    {
        &self.content
    }

    /// Queues the drawing of the rows that show a line of this document: row
    /// by row from the top, as far as the document and the screen go.
    pub fn render(&self, terminal: &mut Terminal)
        ensures
            final(terminal)@ == old(terminal)@.queued(
                rows(
                    self@,
                    old(terminal)@.size,
                    0,
                    text_rows(self@.len(), old(terminal)@.size.height),
                ),
            ),
    {
        let size = terminal.size();
        let ghost before = terminal@;
        let mut row: u16 = 0;
        while row < size.height && (row as usize) < self.content.len()
            invariant
                row <= size.height,
                row <= self.content.len(),
                before.size == size,
                self@ == lines_view(self.content@),
                terminal@ == before.queued(rows(self@, size, 0, row as int)),
            decreases size.height - row,
        {
            terminal.move_cursor_to(Position { x: 0, y: row });
            terminal.print(self.content[row as usize].as_str());
            row = row + 1;
        }
    }
}

} // verus!
