//! The life of a viewing session: the states it passes through, what it
//! asks of the terminal at each step, and the commands that take the
//! terminal and give it back.

use crate::terminal::{Direction, Terminal};
use vstd::prelude::*;

verus! {

/// A key as the session sees it.
#[derive(Debug, Clone, Copy, PartialEq, Eq, Structural)]
pub enum Key {
    /// A character key.
    Char(char),
    Left,
    Right,
    Up,
    Down,
    /// Any other key.
    Other,
}

/// The key that ends the session.
pub const QUIT_KEY: char = 'q';

/// Where a session stands.
#[derive(Debug, Clone, Copy, PartialEq, Eq, Structural)]
pub enum SessionState {
    /// The terminal is not taken yet.
    Uninitialized,
    /// The terminal is taken; frames are drawn and keys read.
    Active,
    /// The session is over; `failed` tells whether an error ended it.
    Terminating { failed: bool },
}

/// What happened at the terminal since the last step.
#[derive(Debug, Clone, Copy, PartialEq, Eq, Structural)]
pub enum SessionEvent {
    /// The terminal was taken; it has this many columns and rows.
    Acquired(u16, u16),
    /// The terminal could not be taken.
    AcquireFailed,
    /// The frame was drawn.
    FrameDrawn,
    /// Drawing the frame failed.
    FrameFailed,
    /// A key was pressed.
    Key(Key),
    /// Reading the input failed.
    InputFailed,
    /// The terminal now has this many columns and rows.
    Resized(u16, u16),
    /// The terminal was given back, or the attempt was made.
    Released,
}

/// What the session asks for next.
#[derive(Debug, Clone, Copy, PartialEq, Eq, Structural)]
pub enum SessionAction {
    /// Draw a frame.
    Render,
    /// Wait for one input event.
    ReadKey,
    /// Give the terminal back.
    Release,
    /// Leave the process with this code.
    Exit(u8),
}

/// A command that changes the mode of the terminal.
#[derive(Debug, Clone, Copy, PartialEq, Eq, Structural)]
pub enum TerminalCommand {
    EnterAlternateScreen,
    LeaveAlternateScreen,
    EnableRawMode,
    DisableRawMode,
    /// Make the cursor a blinking bar.
    BlinkingBarCursor,
    /// Make the cursor a steady bar.
    SteadyBarCursor,
    EnableMouseCapture,
    DisableMouseCapture,
    ShowCursor,
    ClearScreen,
    Flush,
}

/// The direction that a key moves the cursor in, for the keys that move it.
pub open spec fn direction_of(key: Key) -> Option<Direction> {
    match key {
        Key::Left => Some(Direction::Left),
        Key::Right => Some(Direction::Right),
        Key::Up => Some(Direction::Up),
        Key::Down => Some(Direction::Down),
        _ => None,
    }
}

/// The state that follows `state` on `event`. Before the terminal is taken,
/// only its acquisition starts the session and anything else ends it. While
/// it is active, the quit key ends it without failure; a failed frame, a
/// failed read and an event that belongs to another state end it with
/// failure; everything else leaves it active. Once it is ending it stays so.
pub open spec fn next_state(state: SessionState, event: SessionEvent) -> SessionState {
    match state {
        SessionState::Uninitialized => match event {
            SessionEvent::Acquired(_, _) => SessionState::Active,
            _ => SessionState::Terminating { failed: true },
        },
        SessionState::Active => match event {
            SessionEvent::FrameDrawn | SessionEvent::Resized(_, _) => SessionState::Active,
            SessionEvent::Key(key) => if key == Key::Char(QUIT_KEY) {
                SessionState::Terminating { failed: false }
            } else {
                SessionState::Active
            },
            _ => SessionState::Terminating { failed: true },
        },
        SessionState::Terminating { failed } => SessionState::Terminating { failed },
    }
}

/// What the session asks for when `event` reaches it in `state`. The
/// terminal is given back at the step that leaves the active state, and at
/// no other; a session that is ending asks only to leave, with code 0 where
/// the quit key ended it and 1 otherwise.
pub open spec fn action_for(state: SessionState, event: SessionEvent) -> SessionAction {
    match state {
        SessionState::Uninitialized => match event {
            SessionEvent::Acquired(_, _) => SessionAction::Render,
            _ => SessionAction::Exit(1),
        },
        SessionState::Active => match next_state(state, event) {
            SessionState::Active => if event == SessionEvent::FrameDrawn {
                SessionAction::ReadKey
            } else {
                SessionAction::Render
            },
            _ => SessionAction::Release,
        },
        SessionState::Terminating { failed } => SessionAction::Exit(
            if failed {
                1
            } else {
                0
            },
        ),
    }
}

/// The viewport after `event` reached the session in `state`, over rows of
/// the widths `widths`: acquisition and resizing set its size, an arrow key
/// moves its cursor, and nothing else touches it.
pub open spec fn terminal_after(
    state: SessionState,
    terminal: Terminal,
    event: SessionEvent,
    widths: Seq<nat>,
) -> Terminal {
    match (state, event) {
        (SessionState::Uninitialized, SessionEvent::Acquired(width, height)) => Terminal::sized(
            width,
            height,
        ),
        (SessionState::Active, SessionEvent::Resized(width, height)) => terminal.resized(
            width,
            height,
        ),
        (SessionState::Active, SessionEvent::Key(key)) => match direction_of(key) {
            Some(direction) => terminal.stepped(direction, widths),
            None => terminal,
        },
        _ => terminal,
    }
}

/// The state of a session that started in `state` and received `events`.
pub open spec fn state_after(state: SessionState, events: Seq<SessionEvent>) -> SessionState
    decreases events.len(),
{
    if events.len() == 0 {
        state
    } else {
        next_state(state_after(state, events.drop_last()), events.last())
    }
}

/// What a session that started in `state` asked for on the last of `events`.
pub open spec fn last_action(state: SessionState, events: Seq<SessionEvent>) -> SessionAction
    recommends
        events.len() > 0,
{
    action_for(state_after(state, events.drop_last()), events.last())
}

/// How often a session that started in `state` asked to give the terminal
/// back while it received `events`.
pub open spec fn releases(state: SessionState, events: Seq<SessionEvent>) -> nat
    decreases events.len(),
{
    if events.len() == 0 {
        0
    } else {
        releases(state, events.drop_last()) + if last_action(state, events)
            == SessionAction::Release {
            1nat
        } else {
            0nat
        }
    }
}

/// An active session gives the terminal back exactly once on every way out:
/// whatever events reach it, it has asked for the release once if it has
/// left the active state, and not at all if it is still active.
pub proof fn lemma_release_exactly_once(events: Seq<SessionEvent>)
    ensures
        state_after(SessionState::Active, events) == SessionState::Active || state_after(
            SessionState::Active,
            events,
        ) is Terminating,
        releases(SessionState::Active, events) == if state_after(SessionState::Active, events)
            == SessionState::Active {
            0nat
        } else {
            1nat
        },
    decreases events.len(),
{
    if events.len() > 0 {
        lemma_release_exactly_once(events.drop_last());
    }
}

/// An active session asks to leave the process only after it has asked, once,
/// to give the terminal back.
pub proof fn lemma_release_before_exit(events: Seq<SessionEvent>)
    requires
        events.len() > 0,
        last_action(SessionState::Active, events) is Exit,
    ensures
        releases(SessionState::Active, events.drop_last()) == 1,
        releases(SessionState::Active, events) == 1,
{
    lemma_release_exactly_once(events.drop_last());
}

/// A session never asks twice for the release, whatever state it starts in;
/// one that never became active never asks for it.
pub proof fn lemma_release_at_most_once(state: SessionState, events: Seq<SessionEvent>)
    ensures
        releases(state, events) <= 1,
        releases(state, events) == 1 ==> state_after(state, events) is Terminating,
        state is Terminating ==> releases(state, events) == 0 && state_after(state, events)
            == state,
        state == SessionState::Uninitialized && state_after(state, events)
            == SessionState::Uninitialized ==> events.len() == 0,
    decreases events.len(),
{
    if events.len() > 0 {
        lemma_release_at_most_once(state, events.drop_last());
    }
}

/// The exit code of a session that was active is 0 exactly where the quit
/// key ended it.
pub proof fn lemma_exit_code(events: Seq<SessionEvent>)
    requires
        events.len() > 0,
        state_after(SessionState::Active, events.drop_last()) == SessionState::Active,
        state_after(SessionState::Active, events) is Terminating,
    ensures
        state_after(SessionState::Active, events) == (SessionState::Terminating {
            failed: events.last() != SessionEvent::Key(Key::Char(QUIT_KEY)),
        }),
{
}

/// The commands that take the terminal, in order.
pub open spec fn acquire_sequence() -> Seq<TerminalCommand> {
    seq![
        TerminalCommand::EnterAlternateScreen,
        TerminalCommand::EnableRawMode,
        TerminalCommand::BlinkingBarCursor,
        TerminalCommand::EnableMouseCapture,
    ]
}

/// The commands that give the terminal back, in order.
pub open spec fn release_sequence() -> Seq<TerminalCommand> {
    seq![
        TerminalCommand::SteadyBarCursor,
        TerminalCommand::ShowCursor,
        TerminalCommand::DisableMouseCapture,
        TerminalCommand::LeaveAlternateScreen,
        TerminalCommand::DisableRawMode,
        TerminalCommand::ClearScreen,
        TerminalCommand::Flush,
    ]
}

/// The commands that take the terminal: the alternate screen, raw mode, the
/// cursor's style and the mouse.
pub fn acquire_commands() -> (commands: Vec<TerminalCommand>)
    ensures
        commands@ == acquire_sequence(),
{
    let mut commands = Vec::new();
    commands.push(TerminalCommand::EnterAlternateScreen);
    commands.push(TerminalCommand::EnableRawMode);
    commands.push(TerminalCommand::BlinkingBarCursor);
    commands.push(TerminalCommand::EnableMouseCapture);
    assert(commands@ =~= acquire_sequence());
    commands
}

/// The commands that give the terminal back. They undo what
/// `acquire_commands` did, show the cursor again, clear the screen and
/// flush. Each is to be tried even where one before it failed.
pub fn release_commands() -> (commands: Vec<TerminalCommand>)
    ensures
        commands@ == release_sequence(),
{
    let mut commands = Vec::new();
    commands.push(TerminalCommand::SteadyBarCursor);
    commands.push(TerminalCommand::ShowCursor);
    commands.push(TerminalCommand::DisableMouseCapture);
    commands.push(TerminalCommand::LeaveAlternateScreen);
    commands.push(TerminalCommand::DisableRawMode);
    commands.push(TerminalCommand::ClearScreen);
    commands.push(TerminalCommand::Flush);
    assert(commands@ =~= release_sequence());
    commands
}

} // verus!
