use vstd::prelude::*;

use vstd::std_specs::iter::IteratorSpec;

use crate::graphics::{Attribute, Font};

verus! {

/// Number of character cells the console can hold.
pub const CONSOLE_BUFFER_SIZE: usize = 10_000;

/// The cell that the next character goes to.
#[derive(Clone, Copy, Debug, PartialEq, Eq, Structural)]
struct Cursor {
    row: usize,
    column: usize,
}

/// The contents of a text console: a grid of `rows` by `columns` cells, row
/// after row, and the cursor position.
pub struct TextGrid {
    pub cells: Seq<Option<char>>,
    pub rows: nat,
    pub columns: nat,
    pub row: nat,
    pub column: nat,
}

/// The cells moved up by one row, with an empty last row.
pub open spec fn scrolled(cells: Seq<Option<char>>, columns: nat) -> Seq<Option<char>> {
    Seq::new(
        cells.len(),
        |i: int|
            if i + columns < cells.len() {
                cells[i + columns]
            } else {
                None
            },
    )
}

/// The cursor goes to the start of the next row; on the last row the contents
/// scroll up instead.
pub open spec fn line_feed(g: TextGrid) -> TextGrid {
    if g.row + 1 < g.rows {
        TextGrid { row: g.row + 1, column: 0, ..g }
    } else {
        TextGrid { cells: scrolled(g.cells, g.columns), column: 0, ..g }
    }
}

/// A newline feeds the line; another character fills the cursor's cell and
/// the cursor moves one cell on, to the next row after the last column.
pub open spec fn put_char_spec(g: TextGrid, ch: char) -> TextGrid {
    if ch == '\n' {
        line_feed(g)
    } else {
        let placed = TextGrid {
            cells: g.cells.update((g.row * g.columns + g.column) as int, Some(ch)),
            ..g
        };
        if g.column + 1 < g.columns {
            TextGrid { column: g.column + 1, ..placed }
        } else {
            line_feed(placed)
        }
    }
}

/// The characters fed one after the other.
pub open spec fn put_string_spec(g: TextGrid, s: Seq<char>) -> TextGrid
    decreases s.len(),
{
    if s.len() == 0 {
        g
    } else {
        put_string_spec(put_char_spec(g, s[0]), s.drop_first())
    }
}

/// A console's grid is non-empty, fits the buffer, and holds the cursor.
pub open spec fn grid_wf(g: TextGrid) -> bool {
    &&& g.rows >= 1
    &&& g.columns >= 1
    &&& g.rows * g.columns <= CONSOLE_BUFFER_SIZE
    &&& g.cells.len() == g.rows * g.columns
    &&& g.row < g.rows
    &&& g.column < g.columns
}

proof fn lemma_cell_index(rows: nat, columns: nat, row: nat, column: nat)
    requires
        row < rows,
        column < columns,
    ensures
        row * columns + column < rows * columns,
{
    assert(row * columns + columns <= rows * columns) by (nonlinear_arith)
        requires row < rows;
}

/// A text console that keeps what was written to it in a grid of cells.
pub struct Console {
    num_rows: usize,
    num_columns: usize,
    buffer: Vec<Option<char>>,
    cursor: Cursor,
    attribute: Attribute,
    font: Font,
}

impl Console {
    /// The console's contents and cursor.
    pub closed spec fn view(&self) -> TextGrid {
        TextGrid {
            cells: self.buffer@.take(self.num_rows * self.num_columns),
            rows: self.num_rows as nat,
            columns: self.num_columns as nat,
            row: self.cursor.row as nat,
            column: self.cursor.column as nat,
        }
    }

    /// The buffer has its full size and the grid is well formed.
    pub closed spec fn wf(&self) -> bool {
        &&& self.buffer@.len() == CONSOLE_BUFFER_SIZE
        &&& grid_wf(self.view())
    }

    /// A console of `num_lines` rows of `num_columns` cells, all empty, with the
    /// cursor in the top left cell.
    pub fn new(num_lines: usize, num_columns: usize, font: Font) -> (c: Console)
        requires
            num_lines >= 1,
            num_columns >= 1,
            num_lines * num_columns <= CONSOLE_BUFFER_SIZE,
        ensures
            c.view().rows == num_lines,
            c.view().columns == num_columns,
            c.view().row == 0,
            c.view().column == 0,
            c.view().cells == Seq::new((num_lines * num_columns) as nat, |i: int| None::<char>),
            grid_wf(c.view()),
            c.wf(),
    {
        let mut buffer: Vec<Option<char>> = Vec::new();
        let mut i: usize = 0;
        while i < CONSOLE_BUFFER_SIZE
            invariant
                0 <= i <= CONSOLE_BUFFER_SIZE,
                buffer@.len() == i,
                forall|k: int| 0 <= k < i ==> buffer@[k] == None::<char>,
            decreases CONSOLE_BUFFER_SIZE - i,
        {
            buffer.push(None);
            i = i + 1;
        }
        let c = Console {
            num_rows: num_lines,
            num_columns,
            buffer,
            cursor: Cursor { row: 0, column: 0 },
            attribute: Attribute::default(),
            font,
        };
        assert(c.view().cells =~= Seq::new((num_lines * num_columns) as nat, |i: int| None::<char>));
        c
    }

    /// The character in cell `(row, column)`, if any.
    pub fn cell(&self, row: usize, column: usize) -> (r: Option<char>)
        requires
            self.wf(),
            row < self.view().rows,
            column < self.view().columns,
        ensures
            r == self.view().cells[row * self.view().columns + column],
    {
        proof {
            lemma_cell_index(self.view().rows, self.view().columns, row as nat, column as nat);
        }
        self.buffer[row * self.num_columns + column]
    }

    /// The row and column of the cursor.
    pub fn cursor(&self) -> (r: (usize, usize))
        ensures
            r.0 == self.view().row,
            r.1 == self.view().column,
    {
        (self.cursor.row, self.cursor.column)
    }

    /// Moves every row up by one and empties the last row.
    fn scroll_up(&mut self)
        requires
            old(self).wf(),
        ensures
            final(self).wf(),
            final(self).view() == (TextGrid {
                cells: scrolled(old(self).view().cells, old(self).view().columns),
                ..old(self).view()
            }),
    {
        let end = self.num_rows * self.num_columns;
        let columns = self.num_columns;
        let ghost before = self.view().cells;
        proof {
            assert(columns <= end) by (nonlinear_arith)
                requires end == self.num_rows * columns, self.num_rows >= 1;
        }
        let mut i: usize = 0;
        while i < end
            invariant
                self.num_rows == old(self).num_rows,
                self.num_columns == old(self).num_columns,
                self.cursor == old(self).cursor,
                old(self).wf(),
                columns <= end,
                end == self.num_rows * self.num_columns,
                columns == self.num_columns,
                self.buffer@.len() == CONSOLE_BUFFER_SIZE,
                end <= CONSOLE_BUFFER_SIZE,
                columns >= 1,
                before.len() == end,
                0 <= i <= end,
                forall|k: int|
                    0 <= k < i ==> self.buffer@[k] == if k + columns < end {
                        before[k + columns]
                    } else {
                        None
                    },
                forall|k: int| i <= k < end ==> self.buffer@[k] == before[k],
            decreases end - i,
        {
            if i + columns < end {
                let moved = self.buffer[i + columns];
                self.buffer.set(i, moved);
            } else {
                self.buffer.set(i, None);
            }
            i = i + 1;
        }
        assert(self.view().cells =~= scrolled(before, columns as nat));
    }

    /// Moves the cursor to the start of the next row, scrolling on the last row.
    fn move_cursor_down(&mut self)
        requires
            old(self).wf(),
        ensures
            final(self).wf(),
            final(self).view() == line_feed(old(self).view()),
    {
        self.cursor.column = 0;
        if self.cursor.row < self.num_rows - 1 {
            self.cursor.row = self.cursor.row + 1;
        } else {
            self.scroll_up();
        }
    }

    /// Moves the cursor one cell on, to the next row after the last column.
    fn move_cursor_forward(&mut self)
        requires
            old(self).wf(),
        ensures
            final(self).wf(),
            final(self).view() == (if old(self).view().column + 1 < old(self).view().columns {
                TextGrid { column: old(self).view().column + 1, ..old(self).view() }
            } else {
                line_feed(old(self).view())
            }),
    {
        if self.cursor.column < self.num_columns - 1 {
            self.cursor.column = self.cursor.column + 1;
        } else {
            self.move_cursor_down();
        }
    }

    /// Feeds one character: a newline moves to the next row, any other
    /// character is stored at the cursor, which moves on.
    pub fn put_char(&mut self, ch: char)
        requires
            old(self).wf(),
        ensures
            final(self).wf(),
            final(self).view() == put_char_spec(old(self).view(), ch),
    {
        if ch == '\n' {
            self.move_cursor_down();
        } else {
            let ghost g = self.view();
            proof {
                lemma_cell_index(g.rows, g.columns, g.row, g.column);
            }
            let index = self.cursor.row * self.num_columns + self.cursor.column;
            self.buffer.set(index, Some(ch));
            assert(self.view().cells =~= g.cells.update(index as int, Some(ch)));
            self.move_cursor_forward();
        }
    }

    /// Feeds the characters of `s` one after the other.
    pub fn put_string(&mut self, s: &str)
        requires
            old(self).wf(),
        ensures
            final(self).wf(),
            final(self).view() == put_string_spec(old(self).view(), s@),
    {
        let ghost target = put_string_spec(self.view(), s@);
        proof {
            vstd::string::axiom_spec_iter(s);
            assert(s@.skip(0) =~= s@);
        }
        for ch in iter: s.chars()
            invariant
                self.wf(),
                iter.seq() == s@,
                put_string_spec(self.view(), s@.skip(iter.index())) == target,
        {
            proof {
                let rest = s@.skip(iter.index());
                assert(rest[0] == ch);
                assert(rest.drop_first() =~= s@.skip(iter.index() + 1));
            }
            self.put_char(ch);
        }
        proof {
            assert(s@.skip(s@.len() as int) =~= Seq::<char>::empty());
        }
    }
}

} // verus!
