//! The projection of a game onto a grid of cells to draw. Nothing here
//! changes the game.

use crate::game::Game;
use crate::geometry::Position;
use vstd::prelude::*;

verus! {

/// What one cell of the board shows.
#[derive(Debug, Clone, Copy, PartialEq, Eq, Structural)]
pub enum Cell {
    Head,
    Body,
    Food,
    Empty,
}

/// Which status line goes under the board.
#[derive(Debug, Clone, Copy, PartialEq, Eq, Structural)]
pub enum Status {
    /// The game runs: show the steering hint.
    Playing,
    /// The game has ended: offer restart and quit.
    Over,
}

/// One character cell of the bordered text picture.
#[derive(Debug, Clone, Copy, PartialEq, Eq, Structural)]
pub enum Glyph {
    TopLeft,
    TopRight,
    BottomLeft,
    BottomRight,
    Horizontal,
    Vertical,
    Head,
    Body,
    Food,
    Blank,
}

/// The glyph that shows a cell of the board.
pub open spec fn glyph_of(cell: Cell) -> Glyph {
    match cell {
        Cell::Head => Glyph::Head,
        Cell::Body => Glyph::Body,
        Cell::Food => Glyph::Food,
        Cell::Empty => Glyph::Blank,
    }
}

/// A border line over `columns` cells: a corner, two horizontal strokes per
/// cell, a corner.
pub open spec fn border_line(left: Glyph, right: Glyph, columns: int) -> Seq<Glyph> {
    seq![left] + Seq::new((2 * columns) as nat, |i: int| Glyph::Horizontal) + seq![right]
}

/// The text line of one row of the board: a vertical stroke, each cell's
/// glyph followed by a blank, a vertical stroke.
pub open spec fn row_line(row: Seq<Cell>) -> Seq<Glyph> {
    seq![Glyph::Vertical] + Seq::new(
        (2 * row.len()) as nat,
        |i: int|
            if i % 2 == 0 {
                glyph_of(row[i / 2])
            } else {
                Glyph::Blank
            },
    ) + seq![Glyph::Vertical]
}

/// Returns the glyph that shows a cell of the board.
pub fn glyph(cell: Cell) -> (g: Glyph)
    ensures
        g == glyph_of(cell),
{
    match cell {
        Cell::Head => Glyph::Head,
        Cell::Body => Glyph::Body,
        Cell::Food => Glyph::Food,
        Cell::Empty => Glyph::Blank,
    }
}

/// Returns a border line over `columns` cells between the two corners.
pub fn border(left: Glyph, right: Glyph, columns: usize) -> (line: Vec<Glyph>)
    ensures
        line@ == border_line(left, right, columns as int),
{
    let mut line: Vec<Glyph> = Vec::new();
    line.push(left);
    let mut i: usize = 0;
    while i < columns
        invariant
            i <= columns,
            line@.len() == 1 + 2 * i,
            line@[0] == left,
            forall|k: int| 1 <= k < line@.len() ==> line@[k] == Glyph::Horizontal,
        decreases columns - i,
    {
        line.push(Glyph::Horizontal);
        line.push(Glyph::Horizontal);
        i += 1;
    }
    line.push(right);
    assert(line@ =~= border_line(left, right, columns as int));
    line
}

/// Returns the text line of one row of the board.
pub fn row_glyphs(row: &Vec<Cell>) -> (line: Vec<Glyph>)
    ensures
        line@ == row_line(row@),
{
    let mut line: Vec<Glyph> = Vec::new();
    line.push(Glyph::Vertical);
    let mut i: usize = 0;
    while i < row.len()
        invariant
            i <= row@.len(),
            line@.len() == 1 + 2 * i,
            line@[0] == Glyph::Vertical,
            forall|k: int|
                1 <= k < line@.len() ==> #[trigger] line@[k] == (if (k - 1) % 2 == 0 {
                    glyph_of(row@[(k - 1) / 2])
                } else {
                    Glyph::Blank
                }),
        decreases row@.len() - i,
    {
        line.push(glyph(row[i]));
        line.push(Glyph::Blank);
        i += 1;
    }
    line.push(Glyph::Vertical);
    assert(line@ =~= row_line(row@));
    line
}

/// One picture of a game: the board's width in cells, its cells row by row,
/// the score, and the status line to show.
#[derive(Debug, Clone, PartialEq, Eq)]
pub struct Frame {
    pub columns: usize,
    pub rows: Vec<Vec<Cell>>,
    pub score: u32,
    pub status: Status,
}

impl Frame {
    /// Whether `lines` is the bordered text picture of this frame: the top
    /// border over `columns` cells, one line per row, the bottom border over
    /// `columns` cells.
    pub open spec fn laid_out(&self, lines: Seq<Vec<Glyph>>) -> bool {
        &&& lines.len() == self.rows@.len() + 2
        &&& lines[0]@ == border_line(Glyph::TopLeft, Glyph::TopRight, self.columns as int)
        &&& forall|k: int|
            1 <= k <= self.rows@.len() ==> (#[trigger] lines[k])@ == row_line(self.rows@[k - 1]@)
        &&& lines[self.rows@.len() as int + 1]@ == border_line(
            Glyph::BottomLeft,
            Glyph::BottomRight,
            self.columns as int,
        )
    }

    /// Lays the board out as text: a border around the rows, two characters
    /// per cell.
    pub fn lines(&self) -> (lines: Vec<Vec<Glyph>>)
        ensures
            self.laid_out(lines@),
    {
        let mut lines: Vec<Vec<Glyph>> = Vec::new();
        lines.push(border(Glyph::TopLeft, Glyph::TopRight, self.columns));
        let mut i: usize = 0;
        while i < self.rows.len()
            invariant
                i <= self.rows@.len(),
                lines@.len() == i + 1,
                lines@[0]@ == border_line(Glyph::TopLeft, Glyph::TopRight, self.columns as int),
                forall|k: int|
                    1 <= k <= i ==> (#[trigger] lines@[k])@ == row_line(self.rows@[k - 1]@),
            decreases self.rows@.len() - i,
        {
            lines.push(row_glyphs(&self.rows[i]));
            i += 1;
        }
        lines.push(border(Glyph::BottomLeft, Glyph::BottomRight, self.columns));
        lines
    }
}

impl Game {
    /// What the cell at `p` shows: the head wins over the body, the snake
    /// over the food.
    pub open spec fn cell_at(&self, p: Position) -> Cell {
        if self.snake@.len() > 0 && self.snake@[0] == p {
            Cell::Head
        } else if self.snake@.contains(p) {
            Cell::Body
        } else if p == self.food {
            Cell::Food
        } else {
            Cell::Empty
        }
    }

    /// Whether `row` is the picture of the board's row `y`: one cell per
    /// column, each showing what `cell_at` says.
    pub open spec fn row_drawn(&self, row: Seq<Cell>, y: int) -> bool {
        &&& row.len() == (if self.width > 0 { self.width as int } else { 0 })
        &&& forall|x: int|
            0 <= x < row.len() ==> #[trigger] row[x] == self.cell_at(
                Position { x: x as i32, y: y as i32 },
            )
    }

    /// Whether `frame` is the picture of this game.
    pub open spec fn drawn(&self, frame: Frame) -> bool {
        &&& frame.columns == (if self.width > 0 { self.width as int } else { 0 })
        &&& frame.rows@.len() == (if self.height > 0 { self.height as int } else { 0 })
        &&& forall|y: int|
            0 <= y < frame.rows@.len() ==> self.row_drawn((#[trigger] frame.rows@[y])@, y)
        &&& frame.score == self.score
        &&& frame.status == (if self.game_over { Status::Over } else { Status::Playing })
    }

    /// Returns what the cell at `p` shows.
    pub fn cell(&self, p: Position) -> (c: Cell)
        ensures
            c == self.cell_at(p),
    {
        if self.snake.len() > 0 && self.snake[0] == p {
            Cell::Head
        } else if self.occupies(p) {
            Cell::Body
        } else if p == self.food {
            Cell::Food
        } else {
            Cell::Empty
        }
    }

    /// Returns the status line that goes with this game.
    pub fn status(&self) -> (s: Status)
        ensures
            s == (if self.game_over { Status::Over } else { Status::Playing }),
    {
        if self.game_over {
            Status::Over
        } else {
            Status::Playing
        }
    }

    /// Draws the game: every cell of the board, the score and the status.
    pub fn render(&self) -> (frame: Frame)
        ensures
            self.drawn(frame),
    {
        let mut rows: Vec<Vec<Cell>> = Vec::new();
        let mut y: i32 = 0;
        while y < self.height
            invariant
                0 <= y,
                y <= self.height || y == 0,
                rows@.len() == y,
                forall|j: int| 0 <= j < rows@.len() ==> self.row_drawn((#[trigger] rows@[j])@, j),
            decreases self.height - y,
        {
            let mut row: Vec<Cell> = Vec::new();
            let mut x: i32 = 0;
            while x < self.width
                invariant
                    0 <= x,
                    x <= self.width || x == 0,
                    row@.len() == x,
                    forall|i: int|
                        0 <= i < row@.len() ==> #[trigger] row@[i] == self.cell_at(
                            Position { x: i as i32, y },
                        ),
                decreases self.width - x,
            {
                row.push(self.cell(Position { x, y }));
                x += 1;
            }
            rows.push(row);
            y += 1;
        }
        let columns: usize = if self.width > 0 {
            self.width as usize
        } else {
            0
        };
        Frame { columns, rows, score: self.score, status: self.status() }
    }
}

} // verus!
