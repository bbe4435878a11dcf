//! The viewer: a document, the viewport on it and the settings, with the
//! step that a session takes on each event and the frame that it draws.

use crate::buffer::Buffer;
use crate::config::NanoConfiguration;
use crate::content::{grapheme_clusters, Data};
use crate::format::{
    align_right, blanks, centre_padding, decimal, push_blanks, right_aligned, to_decimal,
};
use crate::highlight::{HighlightError, Highlighter, RowContent, Style};
use crate::session::{
    action_for, direction_of, next_state, terminal_after, Key, SessionAction, SessionEvent,
    SessionState, QUIT_KEY,
};
use crate::terminal::{Direction, Position, Terminal};
use crossterm::style::{Color, Stylize};
use vstd::prelude::*;

verus! {

/// The version shown in the status bar.
pub const NANO_VERSION: &'static str = "0.1.0";

/// The name shown for a document that has none.
pub const UNTITLED: &'static str = "Untitled";

/// How far from the right edge the column of row numbers starts.
pub const LINE_NUMBER_COLUMNS: u16 = 10;

/// The width that a row number is padded to.
pub const LINE_NUMBER_WIDTH: usize = 3;

/// One thing done to the terminal while a frame is drawn.
#[derive(Debug, Clone, PartialEq, Eq)]
pub enum DrawOp {
    HideCursor,
    ShowCursor,
    /// Put the terminal's cursor at this cell.
    MoveTo(Position),
    /// Clear the line that the terminal's cursor is on.
    ClearLine,
    /// Write the status bar, dark on light.
    StatusBar(StatusBar),
    /// Write a row of the document.
    Row(RowContent),
    /// Write a row number.
    LineNumber(String),
    Flush,
}

/// The name shown for a document.
pub open spec fn shown_name(name: Option<String>) -> Seq<char> {
    match name {
        Some(name) => name@,
        None => UNTITLED@,
    }
}

/// The title of the terminal window for a document.
pub open spec fn title_text(name: Option<String>) -> Seq<char> {
    "Nano - "@ + shown_name(name)
}

/// The text of the status bar for a document: the program's name, its
/// version and the document's name.
pub open spec fn status_text(name: Option<String>) -> Seq<char> {
    "Nano "@ + NANO_VERSION@ + " - File: "@ + shown_name(name)
}

/// The spaces put before a text to centre it in `width` cells: half of the
/// cells left over, rounded down. The text counts one cell for each
/// grapheme cluster.
pub open spec fn centring(text: Seq<char>, width: nat) -> nat {
    centre_padding(grapheme_clusters(text).len(), width)
}

/// Whether `styled` is `text` with something before and something behind it.
pub open spec fn encloses(styled: Seq<char>, text: Seq<char>) -> bool {
    exists|before: Seq<char>, after: Seq<char>| styled == #[trigger] (before + text + after)
}

/// Whether `styled` is what styling `text` may give: the text with codes
/// before and behind it, or nothing at all, as on a console that takes no
/// codes.
pub open spec fn styles(styled: Seq<char>, text: Seq<char>) -> bool {
    styled.len() == 0 || encloses(styled, text)
}

/// Styles a text black on white with `crossterm` (`Stylize::with`,
/// `Stylize::on`) and writes the styled text out (its `Display`).
///
/// Trusted: where anything comes out, it is the text, unchanged, between
/// the codes that set the two colours and those that reset them. Which
/// codes these are depends on the environment, and nothing is claimed of
/// them; on a Windows console without support for such codes nothing comes
/// out.
#[verifier::external_body]
fn dark_on_light(text: &str) -> (styled: String)
    ensures
        styles(styled@, text@),
{
    text.with(Color::Black).on(Color::White).to_string()
}

/// The status bar: a line of text and the spaces that centre it.
#[derive(Debug, Clone, PartialEq, Eq)]
pub struct StatusBar {
    /// The number of spaces before the text.
    pub padding: usize,
    /// The text.
    pub text: String,
}

impl StatusBar {
    /// The line as it reads: the spaces, then the text.
    pub open spec fn shown(&self) -> Seq<char> {
        blanks(self.padding as nat) + self.text@
    }

    /// The characters to send to the terminal for the line: the spaces,
    /// then the text, dark on light.
    pub fn to_terminal_text(&self) -> (line: String)
        ensures
            exists|styled: Seq<char>|
                styles(styled, self.text@) && line@ == #[trigger] (blanks(self.padding as nat)
                    + styled),
    {
        let mut line = String::new();
        push_blanks(&mut line, self.padding);
        let styled = dark_on_light(self.text.as_str());
        line.append(styled.as_str());
        assert(line@ == blanks(self.padding as nat) + styled@);
        line
    }
}

/// The viewer.
pub struct NanoEditor {
    /// The viewport.
    pub terminal: Terminal,
    /// The document.
    pub buffer: Buffer,
    /// The settings.
    pub config: NanoConfiguration,
    /// Where the session stands.
    pub state: SessionState,
}

impl NanoEditor {
    /// A viewer of `buffer` whose session has not started: it has no
    /// terminal yet, and its viewport is empty.
    pub fn new(config: NanoConfiguration, buffer: Buffer) -> (editor: NanoEditor)
        ensures
            editor.config == config,
            editor.buffer == buffer,
            editor.terminal == Terminal::sized(0, 0),
            editor.state == SessionState::Uninitialized,
    {
        NanoEditor {
            terminal: Terminal::new(0, 0),
            buffer,
            config,
            state: SessionState::Uninitialized,
        }
    }

    /// The title of the terminal window.
    pub fn title(&self) -> (title: String)
        ensures
            title@ == title_text(self.buffer.name),
    {
        let mut title = String::from_str("Nano - ");
        match &self.buffer.name {
            Some(name) => title.append(name.as_str()),
            None => title.append(UNTITLED),
        }
        title
    }

    /// Moves the cursor where `key` is an arrow key, and does nothing
    /// otherwise.
    pub fn navigate_cursor(&mut self, key: Key)
        ensures
            final(self).terminal == match direction_of(key) {
                Some(direction) => old(self).terminal.stepped(direction, old(self).buffer.widths()),
                None => old(self).terminal,
            },
            final(self).buffer == old(self).buffer,
            final(self).config == old(self).config,
            final(self).state == old(self).state,
    {
        match key {
            Key::Left => self.terminal.move_cursor(Direction::Left, &self.buffer),
            Key::Right => self.terminal.move_cursor(Direction::Right, &self.buffer),
            Key::Up => self.terminal.move_cursor(Direction::Up, &self.buffer),
            Key::Down => self.terminal.move_cursor(Direction::Down, &self.buffer),
            _ => {},
        }
    }

    /// Takes a key that was pressed while the session is active: the quit
    /// key ends the session, an arrow key moves the cursor, and after any
    /// key but the quit key a frame is due.
    pub fn process_key(&mut self, key: Key) -> (action: SessionAction)
        requires
            old(self).state == SessionState::Active,
        ensures
            action == action_for(SessionState::Active, SessionEvent::Key(key)),
            final(self).state == next_state(SessionState::Active, SessionEvent::Key(key)),
            final(self).terminal == terminal_after(
                SessionState::Active,
                old(self).terminal,
                SessionEvent::Key(key),
                old(self).buffer.widths(),
            ),
            final(self).buffer == old(self).buffer,
            final(self).config == old(self).config,
    {
        match key {
            Key::Char(c) => {
                if c == QUIT_KEY {
                    self.state = SessionState::Terminating { failed: false };
                    SessionAction::Release
                } else {
                    SessionAction::Render
                }
            },
            _ => {
                self.navigate_cursor(key);
                SessionAction::Render
            },
        }
    }

    /// Takes one event and says what the session asks for next.
    pub fn step(&mut self, event: SessionEvent) -> (action: SessionAction)
        ensures
            action == action_for(old(self).state, event),
            final(self).state == next_state(old(self).state, event),
            final(self).terminal == terminal_after(
                old(self).state,
                old(self).terminal,
                event,
                old(self).buffer.widths(),
            ),
            final(self).buffer == old(self).buffer,
            final(self).config == old(self).config,
    {
        match self.state {
            SessionState::Uninitialized => match event {
                SessionEvent::Acquired(width, height) => {
                    self.terminal = Terminal::new(width, height);
                    self.state = SessionState::Active;
                    SessionAction::Render
                },
                _ => {
                    self.state = SessionState::Terminating { failed: true };
                    SessionAction::Exit(1)
                },
            },
            SessionState::Active => match event {
                SessionEvent::FrameDrawn => SessionAction::ReadKey,
                SessionEvent::Resized(width, height) => {
                    self.terminal.resize(width, height);
                    SessionAction::Render
                },
                SessionEvent::Key(key) => self.process_key(key),
                _ => {
                    self.state = SessionState::Terminating { failed: true };
                    SessionAction::Release
                },
            },
            SessionState::Terminating { failed } => SessionAction::Exit(
                if failed {
                    1
                } else {
                    0
                },
            ),
        }
    }

    /// The text of row `index` of the document that lies in the visible
    /// columns.
    pub open spec fn visible_text(&self, index: int) -> Seq<char> {
        self.buffer.data[index].range(
            self.terminal.offset.x as int,
            self.terminal.offset.x + self.terminal.width,
        )
    }

    /// What colouring `text` with `highlighter` comes to for this document
    /// and these settings.
    pub open spec fn colouring(&self, highlighter: &Highlighter, text: Seq<char>) -> Result<
        Seq<(Seq<char>, Style)>,
        HighlightError,
    > {
        highlighter.outcome_of(self.buffer.buffer_type@, self.config.appearance.theme@, text)
    }

    /// Whether `content` is what row `r` of the viewport shows: the mark
    /// below the last row of the document, and else the clusters of the
    /// document's row that lie in the visible columns, in the spans that
    /// `highlighter` gives them, or plain where it gives none.
    pub open spec fn row_shows(&self, content: RowContent, r: int, highlighter: &Highlighter) -> bool {
        let index = self.terminal.offset.y + r;
        if index < self.buffer.data.len() {
            &&& content.follows(
                self.colouring(highlighter, self.visible_text(index)),
                self.visible_text(index),
            )
            &&& content.shown() == self.visible_text(index)
        } else {
            content is PastEnd
        }
    }

    /// The text of the number shown beside row `r` of the viewport: the
    /// index of the document's row, right-aligned.
    pub open spec fn number_text(&self, r: int) -> Seq<char> {
        right_aligned(decimal((self.terminal.offset.y + r) as nat), LINE_NUMBER_WIDTH as nat)
    }

    /// The column at which the row numbers start.
    pub open spec fn number_column(&self) -> u16 {
        if self.terminal.width >= LINE_NUMBER_COLUMNS {
            (self.terminal.width - LINE_NUMBER_COLUMNS) as u16
        } else {
            0
        }
    }

    /// Whether `body` draws row `r` of the viewport: it moves to the start
    /// of the row, clears it and writes what the row shows.
    pub open spec fn draws_row(&self, body: Seq<DrawOp>, r: int, highlighter: &Highlighter) -> bool {
        &&& body[3 * r] == DrawOp::MoveTo(Position { x: 0, y: r as u16 })
        &&& body[3 * r + 1] is ClearLine
        &&& body[3 * r + 2] matches DrawOp::Row(content) && self.row_shows(content, r, highlighter)
    }

    /// Whether `body` draws the number of row `r` of the viewport, after
    /// the rows themselves.
    pub open spec fn draws_number(&self, body: Seq<DrawOp>, r: int) -> bool {
        let at = 3 * self.terminal.height + 2 * r;
        &&& body[at] == DrawOp::MoveTo(Position { x: self.number_column(), y: r as u16 })
        &&& body[at + 1] matches DrawOp::LineNumber(text) && text@ == self.number_text(r)
    }

    /// Whether `body` draws the contents of the viewport: each row from the
    /// top down and then, where rows are numbered, each row's number.
    pub open spec fn draws_contents(&self, body: Seq<DrawOp>, highlighter: &Highlighter) -> bool {
        let height = self.terminal.height as int;
        &&& body.len() == if self.config.editor.line_numbers {
            5 * height
        } else {
            3 * height
        }
        &&& forall|r: int| 0 <= r < height ==> #[trigger] self.draws_row(body, r, highlighter)
        &&& self.config.editor.line_numbers ==> forall|r: int|
            0 <= r < height ==> #[trigger] self.draws_number(body, r)
    }

    /// Whether `bar` is the status bar of this viewer: the status text of
    /// its document, centred in the width of the viewport.
    pub open spec fn status_bar_is(&self, bar: StatusBar) -> bool {
        &&& bar.text@ == status_text(self.buffer.name)
        &&& bar.padding == centring(status_text(self.buffer.name), self.terminal.width as nat)
    }

    /// Whether `ops` draws a frame: with the cursor hidden, the status bar
    /// in the row below the document's rows, then the contents, and at the
    /// end the cursor put at its cell, shown again, and the output flushed.
    pub open spec fn draws_frame(&self, ops: Seq<DrawOp>, highlighter: &Highlighter) -> bool {
        let len = ops.len() as int;
        &&& len >= 6
        &&& ops[0] is HideCursor
        &&& ops[1] == DrawOp::MoveTo(Position { x: 0, y: self.terminal.height })
        &&& ops[2] matches DrawOp::StatusBar(bar) && self.status_bar_is(bar)
        &&& self.draws_contents(ops.subrange(3, len - 3), highlighter)
        &&& ops[len - 3] == DrawOp::MoveTo(self.terminal.cursor_cell())
        &&& ops[len - 2] is ShowCursor
        &&& ops[len - 1] is Flush
    }

    /// The status bar, centred in the width of the viewport.
    pub fn draw_status_bar(&self) -> (bar: StatusBar)
        ensures
            self.status_bar_is(bar),
    {
        let mut text = String::from_str("Nano ");
        text.append(NANO_VERSION);
        text.append(" - File: ");
        match &self.buffer.name {
            Some(name) => text.append(name.as_str()),
            None => text.append(UNTITLED),
        }
        let cells = Data::from(text.as_str()).len();
        let width = self.terminal.width as usize;
        let padding = if cells < width {
            (width - cells) / 2
        } else {
            0
        };
        StatusBar { padding, text }
    }

    /// What a row of the document shows in the viewport: its clusters in
    /// the visible columns, coloured where the highlighter succeeds and
    /// plain where it fails.
    pub fn render_content(&self, content: &Data, highlighter: &Highlighter) -> (row: RowContent)
        ensures
            row.follows(
                self.colouring(
                    highlighter,
                    content.range(
                        self.terminal.offset.x as int,
                        self.terminal.offset.x + self.terminal.width,
                    ),
                ),
                content.range(
                    self.terminal.offset.x as int,
                    self.terminal.offset.x + self.terminal.width,
                ),
            ),
            row.shown() == content.range(
                self.terminal.offset.x as int,
                self.terminal.offset.x + self.terminal.width,
            ),
    {
        let (start, end) = self.terminal.visible_col_span();
        let text = content.display_range(start, end);
        let outcome = highlighter.highlight(
            text.as_str(),
            self.buffer.file_type(),
            self.config.theme(),
        );
        RowContent::from_outcome(outcome, text)
    }

    /// The operations that draw the contents of the viewport.
    pub fn render_contents(&self, highlighter: &Highlighter) -> (body: Vec<DrawOp>)
        ensures
            self.draws_contents(body@, highlighter),
    {
        let height = self.terminal.height;
        let first = self.terminal.offset.y as usize;
        let mut body: Vec<DrawOp> = Vec::new();
        let mut r: u16 = 0;
        while r < height
            invariant
                r <= height,
                height == self.terminal.height,
                first == self.terminal.offset.y,
                body.len() == 3 * r,
                forall|k: int| 0 <= k < r ==> #[trigger] self.draws_row(body@, k, highlighter),
            decreases height - r,
        {
            let content = match self.buffer.row(first + r as usize) {
                Some(data) => self.render_content(data, highlighter),
                None => RowContent::PastEnd,
            };
            let ghost before = body@;
            body.push(DrawOp::MoveTo(Position { x: 0, y: r }));
            body.push(DrawOp::ClearLine);
            body.push(DrawOp::Row(content));
            proof {
                assert forall|k: int| 0 <= k < r implies #[trigger] self.draws_row(
                    body@,
                    k,
                    highlighter,
                ) by {
                    assert(self.draws_row(before, k, highlighter));
                }
                assert(self.draws_row(body@, r as int, highlighter));
            }
            r += 1;
        }
        if self.config.turn_on_line_numbers() {
            let column = self.terminal.width.saturating_sub(LINE_NUMBER_COLUMNS);
            let ghost rows = body@;
            let mut r: u16 = 0;
            while r < height
                invariant
                    r <= height,
                    height == self.terminal.height,
                    first == self.terminal.offset.y,
                    column == self.number_column(),
                    rows.len() == 3 * height,
                    body.len() == 3 * height + 2 * r,
                    body@.subrange(0, 3 * height) == rows,
                    forall|k: int| 0 <= k < r ==> #[trigger] self.draws_number(body@, k),
                decreases height - r,
            {
                let number = to_decimal(first + r as usize);
                let text = align_right(number.as_str(), LINE_NUMBER_WIDTH);
                let ghost before = body@;
                body.push(DrawOp::MoveTo(Position { x: column, y: r }));
                body.push(DrawOp::LineNumber(text));
                proof {
                    assert(body@.subrange(0, 3 * height) =~= before.subrange(0, 3 * height));
                    assert forall|k: int| 0 <= k < r implies #[trigger] self.draws_number(
                        body@,
                        k,
                    ) by {
                        assert(self.draws_number(before, k));
                    }
                    assert(self.draws_number(body@, r as int));
                }
                r += 1;
            }
            proof {
                assert forall|k: int| 0 <= k < height implies #[trigger] self.draws_row(
                    body@,
                    k,
                    highlighter,
                ) by {
                    assert(self.draws_row(rows, k, highlighter));
                    assert(body@[3 * k] == rows[3 * k]);
                    assert(body@[3 * k + 1] == rows[3 * k + 1]);
                    assert(body@[3 * k + 2] == rows[3 * k + 2]);
                }
            }
        }
        body
    }

    /// Draws a frame. The offset first follows the cursor, so that the
    /// cursor is visible; the document, the settings, the cursor and the
    /// state of the session stay as they are.
    pub fn render(&mut self, highlighter: &Highlighter) -> (ops: Vec<DrawOp>)
        ensures
            final(self).terminal == old(self).terminal.scrolled(),
            final(self).buffer == old(self).buffer,
            final(self).config == old(self).config,
            final(self).state == old(self).state,
            final(self).draws_frame(ops@, highlighter),
    {
        self.terminal.scroll_to_cursor();
        let mut ops: Vec<DrawOp> = Vec::new();
        ops.push(DrawOp::HideCursor);
        ops.push(DrawOp::MoveTo(Position { x: 0, y: self.terminal.height }));
        ops.push(DrawOp::StatusBar(self.draw_status_bar()));
        let mut body = self.render_contents(highlighter);
        let ghost drawn = body@;
        ops.append(&mut body);
        ops.push(DrawOp::MoveTo(self.terminal.screen_cursor()));
        ops.push(DrawOp::ShowCursor);
        ops.push(DrawOp::Flush);
        assert(ops@.subrange(3, ops.len() - 3) =~= drawn);
        ops
    }
}

} // verus!
