use docker_tui::input::{translate_terminal_event, AppEvent, KeyCode, KeyEvent, TerminalEvent};
use docker_tui::theme::{Color, Style, Theme};
use docker_tui::worker::{tick_due, WorkerAction, WorkerEvent, WorkerState};

#[test]
fn a_failed_query_never_stops_the_refresh_loop() {
    let mut w = WorkerState::new();
    assert_eq!(w.step(WorkerEvent::Tick), WorkerAction::Work);
    w.record_outcome(true);
    assert_eq!(w.step(WorkerEvent::Tick), WorkerAction::Work);
    w.record_outcome(true);
    assert_eq!(w.step(WorkerEvent::Tick), WorkerAction::Work);
}

#[test]
fn cancellation_stops_the_loop_at_once_and_for_good() {
    let mut w = WorkerState::new();
    assert_eq!(w.step(WorkerEvent::Cancelled), WorkerAction::Exit);
    assert!(w.stopped);
    assert_eq!(w.step(WorkerEvent::Tick), WorkerAction::Exit);
    assert_eq!(w.step(WorkerEvent::Tick), WorkerAction::Exit);
    assert_eq!(w.step(WorkerEvent::Cancelled), WorkerAction::Exit);
}

#[test]
fn periodic_refresh_fires_only_after_its_interval() {
    assert!(tick_due(0, 10, 5));
    assert!(tick_due(0, 5, 5));
    assert!(!tick_due(8, 10, 5));
    assert!(!tick_due(10, 8, 5));
}

#[test]
fn only_key_presses_reach_the_event_channel() {
    let key = KeyEvent::plain(KeyCode::Up);
    assert_eq!(
        translate_terminal_event(TerminalEvent::KeyPress(key)),
        Some(AppEvent::Key(key))
    );
    assert_eq!(translate_terminal_event(TerminalEvent::Other), None);
}

#[test]
fn themes_pin_their_palettes() {
    let t = Theme::default();
    assert_eq!(t.accent, Color::Yellow);
    assert_eq!(t.header_style(), Style { fg: Some(Color::Yellow), bg: None });
    assert_eq!(
        t.selected_style(),
        Style { fg: Some(Color::LightYellow), bg: Some(Color::DarkGray) }
    );
    let b = Theme::blue();
    assert_eq!(b.primary, Color::Blue);
    assert_eq!(b.surface, Color::Rgb(20, 30, 50));
    assert_eq!(Theme::dracula().background, Color::Rgb(40, 42, 54));
    assert_eq!(Theme::gruvbox().text_primary, Color::Rgb(235, 219, 178));
}
