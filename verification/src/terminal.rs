//! The viewport: the size of the visible area, the scroll offset and the
//! cursor, with the arithmetic that moves and bounds them.

use crate::buffer::Buffer;
use crate::format::{decimal, to_decimal};
use vstd::prelude::*;

verus! {

/// The rows of the terminal that the status bar keeps for itself.
pub const STATUS_BAR_ROWS: u16 = 2;

/// A column and a row, both counted from 0.
#[derive(Debug, Clone, Copy, PartialEq, Eq, Structural)]
pub struct Position {
    /// The column.
    pub x: u16,
    /// The row.
    pub y: u16,
}

/// A position as text: `(x: 3, y: 4)`.
pub open spec fn position_text(position: Position) -> Seq<char> {
    "(x: "@ + decimal(position.x as nat) + ", y: "@ + decimal(position.y as nat) + ")"@
}

/// A viewport as text: its width, its height, its offset and its cursor.
pub open spec fn terminal_text(terminal: Terminal) -> Seq<char> {
    "(width: "@ + decimal(terminal.width as nat) + ", height: "@ + decimal(terminal.height as nat)
        + ", scroll_offset: "@ + position_text(terminal.offset) + ", cursor_position: "@
        + position_text(terminal.cursor) + ")"@
}

impl Position {
    /// The position as text.
    pub fn to_text(&self) -> (text: String)
        ensures
            text@ == position_text(*self),
    {
        let mut text = String::from_str("(x: ");
        text.append(to_decimal(self.x as usize).as_str());
        text.append(", y: ");
        text.append(to_decimal(self.y as usize).as_str());
        text.append(")");
        text
    }
}

impl Default for Position {
    fn default() -> (origin: Position)
        ensures
            origin == (Position { x: 0, y: 0 }),
    {
        Position { x: 0, y: 0 }
    }
}

impl From<(u16, u16)> for Position {
    fn from(pair: (u16, u16)) -> (position: Position) {
        Position { x: pair.0, y: pair.1 }
    }
}

impl vstd::std_specs::convert::FromSpecImpl<(u16, u16)> for Position {
    open spec fn obeys_from_spec() -> bool {
        true
    }

    open spec fn from_spec(pair: (u16, u16)) -> Position {
        Position { x: pair.0, y: pair.1 }
    }
}

/// The four ways the cursor moves.
#[derive(Debug, Clone, Copy, PartialEq, Eq, Structural)]
pub enum Direction {
    Up,
    Down,
    Left,
    Right,
}

/// The width and the height of a terminal, in cells.
pub type TerminalSize = (u16, u16);

/// Another name for the viewport.
pub type TerminalView = Terminal;

/// `value + 1`, or `value` where it is the largest `u16`.
pub open spec fn step_up(value: int) -> int {
    if value < u16::MAX {
        value + 1
    } else {
        value
    }
}

/// `value - 1`, or 0 where `value` is 0.
pub open spec fn step_down(value: int) -> int {
    if value > 0 {
        value - 1
    } else {
        0
    }
}

/// The smaller of the two.
pub open spec fn at_most(value: int, limit: int) -> int {
    if value > limit {
        limit
    } else {
        value
    }
}

/// The number of grapheme clusters in row `row` of a document whose rows
/// have the widths `widths`; 0 where it has no such row.
pub open spec fn width_at(widths: Seq<nat>, row: int) -> int {
    if 0 <= row < widths.len() {
        widths[row] as int
    } else {
        0
    }
}

/// Where the cursor stands after one move over a document whose rows have
/// the widths `widths`. The column is first brought back to the width of the
/// row under the cursor; no bound is put on it after a move to the right. A
/// move down first brings the row back to the number of rows, so it ends at
/// most one past it.
pub open spec fn moved(cursor: Position, direction: Direction, widths: Seq<nat>) -> Position {
    let x = at_most(cursor.x as int, width_at(widths, cursor.y as int));
    let y = cursor.y as int;
    match direction {
        Direction::Up => Position { x: x as u16, y: step_down(y) as u16 },
        Direction::Down => Position {
            x: x as u16,
            y: step_up(at_most(y, widths.len() as int)) as u16,
        },
        Direction::Left => Position { x: step_down(x) as u16, y: cursor.y },
        Direction::Right => Position { x: step_up(x) as u16, y: cursor.y },
    }
}

/// Where the cursor stands after the moves `moves`, made in order.
pub open spec fn moved_all(cursor: Position, moves: Seq<Direction>, widths: Seq<nat>) -> Position
    decreases moves.len(),
{
    if moves.len() == 0 {
        cursor
    } else {
        moved(moved_all(cursor, moves.drop_last(), widths), moves.last(), widths)
    }
}

/// One move never wraps: each coordinate of the new cursor is the stepped
/// value itself, between 0 and the largest `u16`. The column ends at most
/// one past the width of the row that was under the cursor, and the row
/// grows only on a move down, which ends at most one past the last row.
pub proof fn lemma_move_bounds(cursor: Position, direction: Direction, widths: Seq<nat>)
    ensures
        ({
            let next = moved(cursor, direction, widths);
            let x = at_most(cursor.x as int, width_at(widths, cursor.y as int));
            &&& 0 <= next.x <= x + 1
            &&& next.x <= width_at(widths, cursor.y as int) + 1
            &&& direction == Direction::Left ==> next.x == step_down(x)
            &&& direction == Direction::Right ==> next.x == step_up(x)
            &&& direction == Direction::Up ==> next.y == step_down(cursor.y as int)
            &&& direction == Direction::Down ==> next.y == step_up(
                at_most(cursor.y as int, widths.len() as int),
            )
            &&& direction != Direction::Down ==> 0 <= next.y <= cursor.y
            &&& direction == Direction::Down ==> 0 <= next.y <= widths.len() + 1
        }),
{
}

/// Whatever moves are made, the cursor keeps coordinates that are not
/// negative, and a cursor that started no further than one row past the
/// document stays no further than that.
pub proof fn lemma_cursor_stays_near_document(
    cursor: Position,
    moves: Seq<Direction>,
    widths: Seq<nat>,
)
    ensures
        0 <= moved_all(cursor, moves, widths).x,
        0 <= moved_all(cursor, moves, widths).y,
        cursor.y <= widths.len() + 1 ==> moved_all(cursor, moves, widths).y <= widths.len() + 1,
    decreases moves.len(),
{
    if moves.len() > 0 {
        lemma_cursor_stays_near_document(cursor, moves.drop_last(), widths);
        lemma_move_bounds(moved_all(cursor, moves.drop_last(), widths), moves.last(), widths);
    }
}

/// After `count` moves down from a row inside the document, the cursor
/// stands `count` rows further, but never further than one row past the
/// document or than the largest `u16`.
pub proof fn lemma_moves_down(cursor: Position, count: nat, widths: Seq<nat>)
    requires
        cursor.y <= widths.len(),
    ensures
        moved_all(cursor, Seq::new(count, |i: int| Direction::Down), widths).y == at_most(
            at_most(cursor.y + count, (widths.len() + 1) as int),
            u16::MAX as int,
        ),
    decreases count,
{
    let moves = Seq::new(count, |i: int| Direction::Down);
    if count > 0 {
        let fewer = Seq::new((count - 1) as nat, |i: int| Direction::Down);
        assert(moves.drop_last() =~= fewer);
        lemma_moves_down(cursor, (count - 1) as nat, widths);
        lemma_move_bounds(moved_all(cursor, fewer, widths), Direction::Down, widths);
    }
}

/// The scroll offset along one axis after it has followed the cursor: it
/// moves by the least amount that brings the cursor into the `extent` cells
/// that start at the offset, and stays where the cursor is already there.
/// With no cell to show, it moves onto the cursor.
pub open spec fn followed(offset: int, cursor: int, extent: int) -> int {
    let reach = step_down(extent);
    if cursor < offset {
        cursor
    } else if cursor - offset > reach {
        cursor - reach
    } else {
        offset
    }
}

/// The cell along one axis at which the cursor is drawn: its distance from
/// the offset, 0 where it lies before the offset, and the last of the
/// `extent` cells where it lies past them.
pub open spec fn drawn(offset: int, cursor: int, extent: int) -> int {
    let distance = if cursor > offset {
        cursor - offset
    } else {
        0
    };
    at_most(distance, step_down(extent))
}

/// The cursor is drawn inside the visible cells: never before the first
/// one and, where there is a cell at all, never past the last one.
pub proof fn lemma_drawn_in_view(offset: int, cursor: int, extent: int)
    requires
        0 <= extent,
    ensures
        0 <= drawn(offset, cursor, extent),
        extent > 0 ==> drawn(offset, cursor, extent) < extent,
        extent == 0 ==> drawn(offset, cursor, extent) == 0,
        offset <= cursor < offset + extent ==> drawn(offset, cursor, extent) == cursor - offset,
{
}

/// Once the offset has followed the cursor, the cursor lies in the visible
/// cells and is drawn at its distance from the offset. The offset does not
/// move where the cursor was visible already, and never becomes negative.
pub proof fn lemma_followed_shows_cursor(offset: int, cursor: int, extent: int)
    requires
        0 <= offset,
        0 <= cursor,
        0 <= extent,
    ensures
        0 <= followed(offset, cursor, extent) <= cursor,
        extent > 0 ==> cursor < followed(offset, cursor, extent) + extent,
        extent > 0 ==> drawn(followed(offset, cursor, extent), cursor, extent) == cursor - followed(
            offset,
            cursor,
            extent,
        ),
        offset <= cursor < offset + extent ==> followed(offset, cursor, extent) == offset,
{
}

/// How far two offsets lie apart.
pub open spec fn apart(a: int, b: int) -> int {
    if a >= b {
        a - b
    } else {
        b - a
    }
}

/// The offset follows the cursor by the least amount: no offset that shows
/// the cursor lies nearer to the old one.
pub proof fn lemma_followed_is_nearest(offset: int, cursor: int, extent: int, other: int)
    requires
        0 < extent,
        other <= cursor < other + extent,
    ensures
        apart(followed(offset, cursor, extent), offset) <= apart(other, offset),
{
}

/// The viewport of a terminal.
#[derive(Debug, Clone, Copy, PartialEq, Eq, Structural)]
pub struct Terminal {
    /// The number of columns.
    pub width: u16,
    /// The number of rows that show the document.
    pub height: u16,
    /// The document position shown in the top left corner.
    pub offset: Position,
    /// The cursor, as a position in the document.
    pub cursor: Position,
}

/// The rows left for the document in a terminal of `height` rows: all but
/// the `STATUS_BAR_ROWS` of the status bar, and none where the terminal has
/// no more rows than those.
pub open spec fn document_rows(height: u16) -> u16 {
    if height >= STATUS_BAR_ROWS {
        (height - STATUS_BAR_ROWS) as u16
    } else {
        0
    }
}

impl Terminal {
    /// The viewport of a terminal of `width` columns and `height` rows, with
    /// offset and cursor at the origin.
    pub open spec fn sized(width: u16, height: u16) -> Terminal {
        Terminal {
            width,
            height: document_rows(height),
            offset: Position { x: 0, y: 0 },
            cursor: Position { x: 0, y: 0 },
        }
    }

    /// This viewport in a terminal that now has `width` columns and `height`
    /// rows: offset and cursor stay.
    pub open spec fn resized(self, width: u16, height: u16) -> Terminal {
        Terminal { width, height: document_rows(height), ..self }
    }

    /// This viewport with the cursor moved one step over rows of the widths
    /// `widths`.
    pub open spec fn stepped(self, direction: Direction, widths: Seq<nat>) -> Terminal {
        Terminal { cursor: moved(self.cursor, direction, widths), ..self }
    }

    /// This viewport with the offset brought to where the cursor is visible.
    pub open spec fn scrolled(self) -> Terminal {
        Terminal {
            offset: Position {
                x: followed(self.offset.x as int, self.cursor.x as int, self.width as int) as u16,
                y: followed(self.offset.y as int, self.cursor.y as int, self.height as int) as u16,
            },
            ..self
        }
    }

    /// The cell of the screen at which the cursor is drawn.
    pub open spec fn cursor_cell(self) -> Position {
        Position {
            x: drawn(self.offset.x as int, self.cursor.x as int, self.width as int) as u16,
            y: drawn(self.offset.y as int, self.cursor.y as int, self.height as int) as u16,
        }
    }

    /// The viewport of a terminal of `width` columns and `height` rows, with
    /// offset and cursor at the origin. The status bar takes
    /// `STATUS_BAR_ROWS` of the rows; a terminal with no more rows than that
    /// shows no row of the document.
    pub fn new(width: u16, height: u16) -> (terminal: Terminal)
        ensures
            terminal == Terminal::sized(width, height),
    {
        Terminal {
            width,
            height: height.saturating_sub(STATUS_BAR_ROWS),
            offset: Position { x: 0, y: 0 },
            cursor: Position { x: 0, y: 0 },
        }
    }

    /// Takes the new size of the terminal; offset and cursor stay.
    pub fn resize(&mut self, width: u16, height: u16)
        ensures
            *final(self) == old(self).resized(width, height),
    {
        self.width = width;
        self.height = height.saturating_sub(STATUS_BAR_ROWS);
    }

    /// The viewport as text.
    pub fn to_text(&self) -> (text: String)
        ensures
            text@ == terminal_text(*self),
    {
        let mut text = String::from_str("(width: ");
        text.append(to_decimal(self.width as usize).as_str());
        text.append(", height: ");
        text.append(to_decimal(self.height as usize).as_str());
        text.append(", scroll_offset: ");
        text.append(self.offset.to_text().as_str());
        text.append(", cursor_position: ");
        text.append(self.cursor.to_text().as_str());
        text.append(")");
        text
    }

    /// The width and the height of the viewport.
    pub fn size(&self) -> (size: TerminalSize)
        ensures
            size == (self.width, self.height),
    {
        (self.width, self.height)
    }

    /// Puts the cursor at `cursor`.
    pub fn set_cursor_position(&mut self, cursor: Position)
        ensures
            *final(self) == (Terminal { cursor, ..*old(self) }),
    {
        self.cursor = cursor;
    }

    /// Moves the cursor one step over `buffer`.
    pub fn move_cursor(&mut self, direction: Direction, buffer: &Buffer)
        ensures
            *final(self) == old(self).stepped(direction, buffer.widths()),
    {
        let mut x: u16 = self.cursor.x;
        let mut y: u16 = self.cursor.y;
        let row_width: usize = match buffer.row(y as usize) {
            Some(row) => row.len(),
            None => 0,
        };
        if x as usize > row_width {
            x = row_width as u16;
        }
        match direction {
            Direction::Down => {
                if y as usize > buffer.len() {
                    y = buffer.len() as u16;
                }
                y = y.saturating_add(1);
            },
            Direction::Up => {
                y = y.saturating_sub(1);
            },
            Direction::Left => {
                x = x.saturating_sub(1);
            },
            Direction::Right => {
                x = x.saturating_add(1);
            },
        }
        self.cursor = Position { x, y };
    }

    /// The first visible row of the document and the row after the last one.
    pub fn visible_row_span(&self) -> (span: (usize, usize))
        ensures
            span.0 == self.offset.y,
            span.1 == self.offset.y + self.height,
    {
        (self.offset.y as usize, self.offset.y as usize + self.height as usize)
    }

    /// The first visible column of the document and the column after the
    /// last one.
    pub fn visible_col_span(&self) -> (span: (usize, usize))
        ensures
            span.0 == self.offset.x,
            span.1 == self.offset.x + self.width,
    {
        (self.offset.x as usize, self.offset.x as usize + self.width as usize)
    }

    /// Lets the offset follow the cursor, so that the cursor lies in the
    /// visible area wherever that area has a cell.
    pub fn scroll_to_cursor(&mut self)
        ensures
            *final(self) == old(self).scrolled(),
            final(self).offset.x == followed(
                old(self).offset.x as int,
                old(self).cursor.x as int,
                old(self).width as int,
            ),
            final(self).offset.y == followed(
                old(self).offset.y as int,
                old(self).cursor.y as int,
                old(self).height as int,
            ),
    {
        self.offset = Position {
            x: follow(self.offset.x, self.cursor.x, self.width),
            y: follow(self.offset.y, self.cursor.y, self.height),
        };
    }

    /// The cell of the screen at which the cursor is drawn.
    pub fn screen_cursor(&self) -> (cell: Position)
        ensures
            cell == self.cursor_cell(),
            cell.x == drawn(self.offset.x as int, self.cursor.x as int, self.width as int),
            cell.y == drawn(self.offset.y as int, self.cursor.y as int, self.height as int),
    {
        let x: u16 = self.cursor.x.saturating_sub(self.offset.x);
        let y: u16 = self.cursor.y.saturating_sub(self.offset.y);
        let last_x: u16 = self.width.saturating_sub(1);
        let last_y: u16 = self.height.saturating_sub(1);
        Position {
            x: if x > last_x { last_x } else { x },
            y: if y > last_y { last_y } else { y },
        }
    }
}

/// In a viewport whose offset has followed the cursor, the cursor is drawn
/// at its distance from the offset, inside the visible cells wherever there
/// is one, and at cell 0 along an axis that has none.
pub proof fn lemma_scrolled_shows_cursor(terminal: Terminal)
    ensures
        ({
            let view = terminal.scrolled();
            let cell = view.cursor_cell();
            &&& view.cursor == terminal.cursor
            &&& view.offset.x <= view.cursor.x
            &&& view.offset.y <= view.cursor.y
            &&& view.width > 0 ==> cell.x == view.cursor.x - view.offset.x && cell.x < view.width
            &&& view.height > 0 ==> cell.y == view.cursor.y - view.offset.y && cell.y
                < view.height
            &&& view.width == 0 ==> cell.x == 0
            &&& view.height == 0 ==> cell.y == 0
        }),
{
    lemma_followed_shows_cursor(
        terminal.offset.x as int,
        terminal.cursor.x as int,
        terminal.width as int,
    );
    lemma_followed_shows_cursor(
        terminal.offset.y as int,
        terminal.cursor.y as int,
        terminal.height as int,
    );
}

/// The cell at which any viewport draws the cursor lies inside the visible
/// cells wherever there is one, and is cell 0 along an axis that has none.
pub proof fn lemma_cursor_cell_in_view(terminal: Terminal)
    ensures
        terminal.width > 0 ==> terminal.cursor_cell().x < terminal.width,
        terminal.height > 0 ==> terminal.cursor_cell().y < terminal.height,
        terminal.width == 0 ==> terminal.cursor_cell().x == 0,
        terminal.height == 0 ==> terminal.cursor_cell().y == 0,
{
    lemma_drawn_in_view(terminal.offset.x as int, terminal.cursor.x as int, terminal.width as int);
    lemma_drawn_in_view(
        terminal.offset.y as int,
        terminal.cursor.y as int,
        terminal.height as int,
    );
}

/// The offset along one axis after it has followed the cursor.
fn follow(offset: u16, cursor: u16, extent: u16) -> (next: u16)
    ensures
        next == followed(offset as int, cursor as int, extent as int),
{
    let reach: u16 = extent.saturating_sub(1);
    if cursor < offset {
        cursor
    } else if cursor - offset > reach {
        cursor - reach
    } else {
        offset
    }
}

} // verus!
