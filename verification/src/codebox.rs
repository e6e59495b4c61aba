//! The program grid: a rectangular table of codepoints that the running
//! program may overwrite cell by cell, and that never changes its size.

use crate::position::Position;
use crate::text::{lines, split_lines};
use vstd::prelude::*;

verus! {

/// The codepoint that fills short rows.
pub const SPACE: i32 = 32;

/// Whether every row of `grid` has the same length.
pub open spec fn rectangular(grid: Seq<Seq<i32>>) -> bool {
    forall|i: int, j: int|
        0 <= i < grid.len() && 0 <= j < grid.len() ==> grid[i].len() == grid[j].len()
}

/// Whether `position` names a cell of `grid`.
pub open spec fn in_bounds(grid: Seq<Seq<i32>>, position: Position) -> bool {
    &&& 0 <= position.y < grid.len()
    &&& 0 <= position.x < grid[position.y as int].len()
}

/// The value of the cell at `position`, if `grid` has such a cell.
pub open spec fn cell(grid: Seq<Seq<i32>>, position: Position) -> Option<i32> {
    if in_bounds(grid, position) {
        Some(grid[position.y as int][position.x as int])
    } else {
        None
    }
}

/// `grid` with `value` in the cell at `position`.
pub open spec fn store(grid: Seq<Seq<i32>>, position: Position, value: i32) -> Seq<Seq<i32>> {
    grid.update(position.y as int, grid[position.y as int].update(position.x as int, value))
}

/// The character that a cell value stands for when it is decoded or printed:
/// the one with that codepoint for values from 1 to 254, a space for every
/// other value.
pub open spec fn as_char(value: i32) -> char {
    if 0 < value < 255 {
        value as u8 as char
    } else {
        ' '
    }
}

/// Whether a cell value has a printable character: it lies from 32 to 126 or
/// from 160 to 254. The control codes below 32 and from 127 to 159 have none,
/// nor has any value below 1 or above 254.
pub open spec fn is_printable(value: i32) -> bool {
    32 <= value <= 126 || 160 <= value <= 254
}

/// The character that shows a cell value in the text of the grid: the one
/// with that codepoint for a printable value, a space for every other value.
pub open spec fn as_printable(value: i32) -> char {
    if is_printable(value) {
        value as u8 as char
    } else {
        ' '
    }
}

/// The length of the longest of `ls`, 0 where there is none.
pub open spec fn widest(ls: Seq<Seq<char>>) -> nat
    decreases ls.len(),
{
    if ls.len() == 0 {
        0
    } else {
        let rest = widest(ls.drop_last());
        if ls.last().len() > rest {
            ls.last().len()
        } else {
            rest
        }
    }
}

/// The codepoints of `line`, followed by spaces up to `width` cells.
pub open spec fn pad_row(line: Seq<char>, width: nat) -> Seq<i32> {
    Seq::new(
        width,
        |j: int|
            if j < line.len() {
                line[j] as i32
            } else {
                SPACE
            },
    )
}

/// The grid that a program text stands for: one row for each line, each as
/// wide as the longest line.
pub open spec fn load(text: Seq<char>) -> Seq<Seq<i32>> {
    let ls = lines(text);
    Seq::new(ls.len(), |i: int| pad_row(ls[i], widest(ls)))
}

/// One row as text: the printable character or a space for each cell, then a
/// line feed.
pub open spec fn render_row(row: Seq<i32>) -> Seq<char> {
    Seq::new(row.len(), |x: int| as_printable(row[x])).push('\n')
}

/// The grid as text: its rows as text, one after the other.
pub open spec fn render(grid: Seq<Seq<i32>>) -> Seq<char>
    decreases grid.len(),
{
    if grid.len() == 0 {
        Seq::empty()
    } else {
        render(grid.drop_last()) + render_row(grid.last())
    }
}

/// The program grid.
pub struct Codebox {
    rows: Vec<Vec<i32>>,
}

impl View for Codebox {
    type V = Seq<Seq<i32>>;

    closed spec fn view(&self) -> Seq<Seq<i32>> {
        self.rows.deep_view()
    }
}

impl Codebox {
    /// Whether the grid is rectangular. Every grid that `new` builds is, and
    /// `set_instruction` keeps it so.
    pub open spec fn wf(&self) -> bool {
        rectangular(self@)
    }

    /// Loads a program text: one row for each line, every character as its
    /// codepoint, every row filled with spaces up to the longest line.
    pub fn new(file_string: &String) -> (codebox: Codebox)
        ensures
            codebox@ == load(file_string@),
            codebox.wf(),
    {
        let ls = split_lines(file_string.as_str());
        let ghost lv = ls.deep_view();
        let mut max_width: usize = 0;
        for i in 0..ls.len()
            invariant
                lv == ls.deep_view(),
                max_width == widest(lv.take(i as int)),
        {
            assert(lv.take(i + 1).drop_last() == lv.take(i as int));
            if ls[i].len() > max_width {
                max_width = ls[i].len();
            }
        }
        assert(lv.take(ls.len() as int) == lv);
        let mut rows: Vec<Vec<i32>> = Vec::new();
        for i in 0..ls.len()
            invariant
                lv == ls.deep_view(),
                max_width == widest(lv),
                rows.deep_view() == Seq::new(i as nat, |k: int| pad_row(lv[k], max_width as nat)),
        {
            let line = &ls[i];
            proof {
                lemma_widest_bounds(lv, i as int);
            }
            let mut row: Vec<i32> = Vec::new();
            for j in 0..line.len()
                invariant
                    row@ == Seq::new(j as nat, |k: int| line@[k] as i32),
            {
                row.push(line[j] as i32);
            }
            while row.len() < max_width
                invariant
                    line@.len() <= row@.len() <= max_width,
                    row@ == pad_row(line@, row@.len()),
                decreases max_width - row.len(),
            {
                row.push(SPACE);
            }
            let ghost done = rows.deep_view();
            assert(row.deep_view() == pad_row(lv[i as int], max_width as nat));
            rows.push(row);
            assert(rows.deep_view() == done.push(pad_row(lv[i as int], max_width as nat)));
        }
        Codebox { rows }
    }

    /// Number of rows.
    pub fn height(&self) -> (h: usize)
        ensures
            h == self@.len(),
    {
        self.rows.len()
    }

    /// Number of columns: the length of the first row, 0 for an empty grid.
    pub fn width(&self) -> (w: usize)
        ensures
            w == (if self@.len() == 0 { 0 } else { self@[0].len() }),
    {
        if self.rows.len() == 0 {
            0
        } else {
            self.rows[0].len()
        }
    }

    /// The value of the cell at `position`, or `None` where the row or the
    /// column lies outside the grid.
    pub fn get_instruction(&self, position: &Position) -> (r: Option<&i32>)
        ensures
            r is Some <==> in_bounds(self@, *position),
            r matches Some(value) ==> *value == self@[position.y as int][position.x as int],
            cell(self@, *position) == match r {
                Some(value) => Some(*value),
                None => None,
            },
    {
        if position.x < 0 || position.y < 0 {
            return None;
        }
        let y = position.y as usize;
        if y >= self.rows.len() {
            return None;
        }
        let row = &self.rows[y];
        let x = position.x as usize;
        if x >= row.len() {
            return None;
        }
        Some(&row[x])
    }

    /// Overwrites the cell at `position`: `Ok(0)` where the grid has that
    /// cell, `Err(1)` and no change where it has not. The grid never grows.
    pub fn set_instruction(&mut self, position: &Position, instruction: i32) -> (r: Result<i8, i8>)
        ensures
            r == (if in_bounds(old(self)@, *position) {
                Ok::<i8, i8>(0)
            } else {
                Err::<i8, i8>(1)
            }),
            final(self)@ == (if in_bounds(old(self)@, *position) {
                store(old(self)@, *position, instruction)
            } else {
                old(self)@
            }),
            old(self).wf() ==> final(self).wf(),
    {
        if self.get_instruction(position).is_none() {
            return Err(1);
        }
        let y = position.y as usize;
        let x = position.x as usize;
        self.rows[y][x] = instruction;
        assert(self@ =~~= store(old(self)@, *position, instruction));
        Ok(0)
    }

    /// The grid as text, for diagnostics: row by row, every cell that has no
    /// printable character as a space.
    pub fn to_string(&self) -> (s: String)
        ensures
            s@ == render(self@),
    {
        let mut s = String::new();
        for y in 0..self.rows.len()
            invariant
                s@ == render(self@.take(y as int)),
        {
            let row = &self.rows[y];
            let ghost done = s@;
            assert(self@.take(y + 1).drop_last() == self@.take(y as int));
            for x in 0..row.len()
                invariant
                    s@ == done + Seq::new(x as nat, |k: int| as_printable(row@[k])),
            {
                s.push(Codebox::i32_as_printable(row[x]));
            }
            s.push('\n');
        }
        assert(self@.take(self.rows.len() as int) == self@);
        s
    }

    /// The character that shows a cell value in the text of the grid.
    pub fn i32_as_printable(val: i32) -> (c: char)
        ensures
            c == as_printable(val),
    {
        if (val >= 32 && val <= 126) || (val >= 160 && val <= 254) {
            return (val as u8) as char;
        }
        ' '
    }

    /// The character that a cell value stands for when it is decoded or
    /// printed.
    pub fn i32_as_char(val: i32) -> (c: char)
        ensures
            c == as_char(val),
    {
        if val < 255 && val > 0 {
            return (val as u8) as char;
        }
        ' '
    }
}

/// No line is longer than the widest.
pub proof fn lemma_widest_bounds(ls: Seq<Seq<char>>, i: int)
    requires
        0 <= i < ls.len(),
    ensures
        ls[i].len() <= widest(ls),
    decreases ls.len(),
{
    if i < ls.len() - 1 {
        lemma_widest_bounds(ls.drop_last(), i);
    }
}

} // verus!
