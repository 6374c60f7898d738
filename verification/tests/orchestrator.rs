use docker_tui::app::{App, Command, UIComponent};
use docker_tui::input::{AppEvent, KeyCode, KeyEvent};
use docker_tui::ui_containers::ContainerCmd;

fn press(app: &mut App, code: KeyCode) -> Command {
    app.handle_event(AppEvent::Key(KeyEvent::plain(code)))
}

#[test]
fn four_views_on_contiguous_tabs() {
    let app = App::new();
    assert_eq!(app.components.len(), 4);
    let tabs: Vec<usize> = app.components.iter().map(|c| c.tab()).collect();
    assert_eq!(tabs, vec![0, 1, 2, 3]);
    assert_eq!(app.active_tab, 0);
    assert!(!app.should_quit);
}

#[test]
fn three_rights_reach_last_tab_and_a_fourth_wraps() {
    let mut app = App::new();
    press(&mut app, KeyCode::Right);
    press(&mut app, KeyCode::Right);
    press(&mut app, KeyCode::Right);
    assert_eq!(app.active_tab, 3);
    press(&mut app, KeyCode::Right);
    assert_eq!(app.active_tab, 0);
}

#[test]
fn left_from_first_tab_wraps_to_last() {
    let mut app = App::new();
    press(&mut app, KeyCode::Left);
    assert_eq!(app.active_tab, 3);
    press(&mut app, KeyCode::Left);
    assert_eq!(app.active_tab, 2);
}

#[test]
fn tab_stays_in_range_under_any_key_sequence() {
    let mut app = App::new();
    let keys = [
        KeyCode::Left,
        KeyCode::Left,
        KeyCode::Right,
        KeyCode::Left,
        KeyCode::Right,
        KeyCode::Right,
        KeyCode::Right,
        KeyCode::Left,
        KeyCode::Left,
        KeyCode::Left,
        KeyCode::Left,
    ];
    for k in keys {
        press(&mut app, k);
        assert!(app.active_tab < 4);
    }
}

#[test]
fn quit_keys_set_the_quit_flag() {
    let mut app = App::new();
    press(&mut app, KeyCode::Char('q'));
    assert!(app.should_quit);

    let mut app = App::new();
    press(&mut app, KeyCode::Esc);
    assert!(app.should_quit);

    let mut app = App::new();
    app.handle_event(AppEvent::Key(KeyEvent { code: KeyCode::Char('c'), ctrl: true }));
    assert!(app.should_quit);
}

#[test]
fn plain_c_is_not_a_quit_key() {
    let mut app = App::new();
    let cmd = press(&mut app, KeyCode::Char('c'));
    assert!(!app.should_quit);
    // it went to the containers view, which has no binding for it
    assert!(matches!(cmd, Command::Containers(ContainerCmd::Idle)));
}

#[test]
fn unclaimed_key_goes_to_the_active_view() {
    let mut app = App::new();
    match &mut app.components[0] {
        UIComponent::Containers(ui) => {
            ui.apply_refresh(Ok(vec!["web".to_string(), "db".to_string()])).unwrap();
        }
        _ => panic!("tab 0 should hold the containers view"),
    }
    let cmd = press(&mut app, KeyCode::Char('s'));
    match cmd {
        Command::Containers(ContainerCmd::Toggle(name)) => assert_eq!(name, "web"),
        other => panic!("expected a toggle command, got {:?}", other),
    }
}

#[test]
fn error_events_never_touch_the_state() {
    let mut app = App::new();
    press(&mut app, KeyCode::Right);
    let cmd = app.handle_event(AppEvent::Error("backend unreachable".to_string()));
    match cmd {
        Command::LogError(msg) => assert_eq!(msg, "backend unreachable"),
        other => panic!("expected a log command, got {:?}", other),
    }
    assert_eq!(app.active_tab, 1);
    assert!(!app.should_quit);
}

#[test]
fn tab_titles_follow_the_fixed_order() {
    let app = App::new();
    assert_eq!(app.tab_titles(), vec!["Containers", "Images", "Networks", "Volumes"]);
}

#[test]
fn help_line_follows_the_active_view() {
    let mut app = App::new();
    assert!(app.help_line().contains("Start/Stop"));
    press(&mut app, KeyCode::Right);
    assert!(app.help_line().contains("Pull"));
    press(&mut app, KeyCode::Right);
    assert!(app.help_line().contains("Create"));
}
