use nano::buffer::Buffer;
use nano::config::NanoConfiguration;
use nano::editor::NanoEditor;
use nano::session::{
    acquire_commands, release_commands, Key, SessionAction, SessionEvent, SessionState,
    TerminalCommand,
};
use nano::terminal::Position;

fn editor() -> NanoEditor {
    NanoEditor::new(NanoConfiguration::default(), Buffer::from_text("notes.txt", "a\nbb\nccc"))
}

fn active() -> NanoEditor {
    let mut editor = editor();
    assert_eq!(editor.step(SessionEvent::Acquired(10, 7)), SessionAction::Render);
    editor
}

fn count(commands: &[TerminalCommand], wanted: TerminalCommand) -> usize {
    commands.iter().filter(|command| **command == wanted).count()
}

#[test]
fn acquisition_starts_the_session() {
    let mut editor = editor();
    assert_eq!(editor.state, SessionState::Uninitialized);
    assert_eq!(editor.step(SessionEvent::Acquired(10, 7)), SessionAction::Render);
    assert_eq!(editor.state, SessionState::Active);
    assert_eq!(editor.terminal.size(), (10, 5));
}

#[test]
fn failed_acquisition_ends_without_release() {
    let mut editor = editor();
    assert_eq!(editor.step(SessionEvent::AcquireFailed), SessionAction::Exit(1));
    assert_eq!(editor.state, SessionState::Terminating { failed: true });
    assert_eq!(editor.step(SessionEvent::Released), SessionAction::Exit(1));
}

#[test]
fn drawn_frame_is_followed_by_a_read() {
    let mut editor = active();
    assert_eq!(editor.step(SessionEvent::FrameDrawn), SessionAction::ReadKey);
    assert_eq!(editor.state, SessionState::Active);
}

#[test]
fn quit_key_releases_and_leaves_with_zero() {
    let mut editor = active();
    assert_eq!(editor.step(SessionEvent::Key(Key::Char('q'))), SessionAction::Release);
    assert_eq!(editor.state, SessionState::Terminating { failed: false });
    assert_eq!(editor.step(SessionEvent::Released), SessionAction::Exit(0));
    assert_eq!(editor.step(SessionEvent::Key(Key::Char('q'))), SessionAction::Exit(0));
}

#[test]
fn arrow_keys_move_the_cursor_and_ask_for_a_frame() {
    let mut editor = active();
    assert_eq!(editor.step(SessionEvent::Key(Key::Down)), SessionAction::Render);
    assert_eq!(editor.terminal.cursor, Position { x: 0, y: 1 });
    assert_eq!(editor.step(SessionEvent::Key(Key::Right)), SessionAction::Render);
    assert_eq!(editor.terminal.cursor, Position { x: 1, y: 1 });
    assert_eq!(editor.step(SessionEvent::Key(Key::Up)), SessionAction::Render);
    assert_eq!(editor.terminal.cursor, Position { x: 1, y: 0 });
    assert_eq!(editor.step(SessionEvent::Key(Key::Left)), SessionAction::Render);
    assert_eq!(editor.terminal.cursor, Position { x: 0, y: 0 });
}

#[test]
fn other_keys_only_ask_for_a_frame() {
    let mut editor = active();
    editor.step(SessionEvent::Key(Key::Down));
    assert_eq!(editor.step(SessionEvent::Key(Key::Char('x'))), SessionAction::Render);
    assert_eq!(editor.step(SessionEvent::Key(Key::Other)), SessionAction::Render);
    assert_eq!(editor.step(SessionEvent::Key(Key::Char('Q'))), SessionAction::Render);
    assert_eq!(editor.state, SessionState::Active);
    assert_eq!(editor.terminal.cursor, Position { x: 0, y: 1 });
}

#[test]
fn down_ten_times_through_the_session() {
    let mut editor = active();
    for _ in 0..10 {
        assert_eq!(editor.step(SessionEvent::Key(Key::Down)), SessionAction::Render);
    }
    assert_eq!(editor.terminal.cursor.y, 4);
}

#[test]
fn resize_sets_the_size_and_asks_for_a_frame() {
    let mut editor = active();
    editor.step(SessionEvent::Key(Key::Down));
    assert_eq!(editor.step(SessionEvent::Resized(40, 12)), SessionAction::Render);
    assert_eq!(editor.terminal.size(), (40, 10));
    assert_eq!(editor.terminal.cursor, Position { x: 0, y: 1 });
}

#[test]
fn failed_frame_releases_once_before_exit() {
    let mut editor = active();
    let mut actions = vec![editor.step(SessionEvent::FrameFailed)];
    assert_eq!(editor.state, SessionState::Terminating { failed: true });
    actions.push(editor.step(SessionEvent::Released));
    actions.push(editor.step(SessionEvent::FrameFailed));
    actions.push(editor.step(SessionEvent::Key(Key::Down)));
    assert_eq!(
        actions,
        vec![
            SessionAction::Release,
            SessionAction::Exit(1),
            SessionAction::Exit(1),
            SessionAction::Exit(1),
        ]
    );
    let commands = release_commands();
    assert_eq!(count(&commands, TerminalCommand::LeaveAlternateScreen), 1);
    assert_eq!(count(&commands, TerminalCommand::DisableRawMode), 1);
}

#[test]
fn failed_frame_leaves_document_and_viewport_alone() {
    let mut editor = active();
    editor.step(SessionEvent::Key(Key::Down));
    let terminal = editor.terminal;
    editor.step(SessionEvent::FrameFailed);
    assert_eq!(editor.terminal.cursor, terminal.cursor);
    assert_eq!(editor.terminal.offset, terminal.offset);
    assert_eq!(editor.terminal.size(), terminal.size());
    assert_eq!(editor.buffer.len(), 3);
}

#[test]
fn failed_read_releases() {
    let mut editor = active();
    editor.step(SessionEvent::FrameDrawn);
    assert_eq!(editor.step(SessionEvent::InputFailed), SessionAction::Release);
    assert_eq!(editor.step(SessionEvent::Released), SessionAction::Exit(1));
}

#[test]
fn events_of_another_state_end_an_active_session() {
    for event in [SessionEvent::Acquired(1, 1), SessionEvent::AcquireFailed, SessionEvent::Released] {
        let mut editor = active();
        assert_eq!(editor.step(event), SessionAction::Release);
        assert_eq!(editor.state, SessionState::Terminating { failed: true });
    }
}

#[test]
fn anything_but_acquisition_ends_a_session_that_has_not_started() {
    for event in [
        SessionEvent::FrameDrawn,
        SessionEvent::FrameFailed,
        SessionEvent::Key(Key::Char('q')),
        SessionEvent::InputFailed,
        SessionEvent::Resized(3, 3),
        SessionEvent::Released,
    ] {
        let mut editor = editor();
        assert_eq!(editor.step(event), SessionAction::Exit(1));
        assert_eq!(editor.state, SessionState::Terminating { failed: true });
    }
}

#[test]
fn process_key_is_the_step_on_a_key() {
    let mut editor = active();
    assert_eq!(editor.process_key(Key::Down), SessionAction::Render);
    assert_eq!(editor.terminal.cursor, Position { x: 0, y: 1 });
    assert_eq!(editor.process_key(Key::Char('z')), SessionAction::Render);
    assert_eq!(editor.process_key(Key::Char('q')), SessionAction::Release);
    assert_eq!(editor.state, SessionState::Terminating { failed: false });
}

#[test]
fn navigate_cursor_ignores_keys_that_are_no_arrows() {
    let mut editor = active();
    editor.navigate_cursor(Key::Down);
    editor.navigate_cursor(Key::Char('q'));
    editor.navigate_cursor(Key::Other);
    assert_eq!(editor.terminal.cursor, Position { x: 0, y: 1 });
    assert_eq!(editor.state, SessionState::Active);
}

#[test]
fn acquisition_takes_screen_mode_cursor_and_mouse() {
    assert_eq!(
        acquire_commands(),
        vec![
            TerminalCommand::EnterAlternateScreen,
            TerminalCommand::EnableRawMode,
            TerminalCommand::BlinkingBarCursor,
            TerminalCommand::EnableMouseCapture,
        ]
    );
}

#[test]
fn release_gives_everything_back_then_clears_and_flushes() {
    assert_eq!(
        release_commands(),
        vec![
            TerminalCommand::SteadyBarCursor,
            TerminalCommand::ShowCursor,
            TerminalCommand::DisableMouseCapture,
            TerminalCommand::LeaveAlternateScreen,
            TerminalCommand::DisableRawMode,
            TerminalCommand::ClearScreen,
            TerminalCommand::Flush,
        ]
    );
}
