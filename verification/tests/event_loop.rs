//! The orchestrator: event classification, dispatch, teardown ordering,
//! suspension and shutdown.

use actionloop::action::Action;
use actionloop::app::{App, LoopDirective, RunState};
use actionloop::events::TerminalEvent;
use actionloop::keys::{KeyBindings, KeyCode, KeyPress, Mode};
use actionloop::session::SessionState;
use actionloop::views::{Home, LoginGauge};

fn new_app(table: KeyBindings) -> App {
    App::new(table, "user".to_string(), "secret".to_string())
}

#[test]
fn terminal_events_classify_to_actions() {
    let mut app = new_app(KeyBindings::new());
    let quit = app.handle_event(&TerminalEvent::Quit);
    assert_eq!(quit.len(), 1);
    assert!(matches!(quit[0], Action::Quit));
    let tick = app.handle_event(&TerminalEvent::Tick);
    assert!(matches!(tick[0], Action::Tick));
    let render = app.handle_event(&TerminalEvent::Render);
    assert!(matches!(render[0], Action::Render));
    let resize = app.handle_event(&TerminalEvent::Resize(80, 24));
    assert!(matches!(resize[0], Action::Resize(80, 24)));
    let other = app.handle_event(&TerminalEvent::Other);
    assert!(other.is_empty());
}

#[test]
fn enter_in_home_mode_yields_submit() {
    // Table {Home: {[Enter]: Submit}}: pressing Enter yields Submit at once.
    let mut table = KeyBindings::new();
    table.bind(Mode::Home, vec![KeyPress::plain(KeyCode::Enter)], Action::Submit);
    let mut app = new_app(table);
    assert_eq!(app.mode(), Mode::Home);
    let got = app.handle_event(&TerminalEvent::Key(KeyPress::plain(KeyCode::Enter)));
    assert_eq!(got.len(), 1);
    assert!(matches!(got[0], Action::Submit));
}

#[test]
fn tick_action_abandons_chord_in_progress() {
    let mut table = KeyBindings::new();
    let a = KeyPress::plain(KeyCode::Char('a'));
    let b = KeyPress::plain(KeyCode::Char('b'));
    table.bind(Mode::Home, vec![a, b], Action::Submit);
    let mut app = new_app(table);
    assert!(app.handle_event(&TerminalEvent::Key(a)).is_empty());
    // The tick clears the pending key sequence.
    app.handle_action(&Action::Tick);
    assert!(app.handle_event(&TerminalEvent::Key(b)).is_empty());
}

#[test]
fn quit_with_three_components_tears_down_once() {
    // Three registered components, session connected, a Quit dispatched:
    // teardown effects are requested exactly once, and the loop reaches
    // Stopped only after the teardown outcome is in hand.
    let mut app = new_app(KeyBindings::new());
    app.register_component(Home::new().component());
    app.register_component(LoginGauge::new().component());
    assert_eq!(app.component_count(), 3);
    app.session.ensure_begin();
    app.session.on_probe(true);
    app.session.on_connect_success();
    assert_eq!(app.session.state(), SessionState::Connected);

    let (plan, draw, resize, followups) = app.handle_action(&Action::Quit);
    let plan = plan.expect("a quit must issue a teardown plan");
    assert!(plan.close_handle);
    assert!(plan.kill_process);
    assert!(!draw);
    assert!(resize.is_none());
    assert!(followups.is_empty());
    assert!(app.should_quit());
    assert_eq!(app.session.state(), SessionState::Closed);
    // The loop stops only now, after teardown resolved.
    assert_eq!(app.run_state(), RunState::Running);
    assert_eq!(app.after_drain(), LoopDirective::Stop);
    assert_eq!(app.run_state(), RunState::Stopped);

    // A second Quit still issues a plan, but one with no effect left.
    let (second, _, _, _) = app.handle_action(&Action::Quit);
    let second = second.expect("every quit issues a plan");
    assert!(!second.close_handle);
    assert!(!second.kill_process);
}

#[test]
fn suspend_then_resume_round_trip() {
    let mut app = new_app(KeyBindings::new());
    app.handle_action(&Action::Suspend);
    assert!(app.should_suspend());
    assert_eq!(app.after_drain(), LoopDirective::SuspendThenResume);
    assert_eq!(app.run_state(), RunState::Suspended);
    // The caller enqueues Resume; dispatching it re-enters the running state.
    app.handle_action(&Action::Resume);
    assert!(!app.should_suspend());
    assert_eq!(app.run_state(), RunState::Running);
    assert_eq!(app.after_drain(), LoopDirective::Continue);
}

#[test]
fn render_and_resize_trigger_a_draw_pass() {
    let mut app = new_app(KeyBindings::new());
    let (plan, draw, resize, _) = app.handle_action(&Action::Render);
    assert!(plan.is_none());
    assert!(draw);
    assert!(resize.is_none());
    let (_, draw, resize, _) = app.handle_action(&Action::Resize(100, 40));
    assert!(draw);
    assert_eq!(resize, Some((100, 40)));
}

#[test]
fn startup_message_carries_driver_launch_text() {
    let action = App::startup_message();
    match action {
        Action::Message(map) => {
            assert_eq!(
                map.get(&"startup".to_string()),
                Some(&"Starting Geckodriver...".to_string())
            );
        },
        _ => panic!("the startup message is a Message action"),
    }
}

#[test]
fn draw_accessors_follow_component_state() {
    let mut app = new_app(KeyBindings::new());
    assert_eq!(app.progress_of(0), (0, 3));
    let lines = app.splash_lines_of(0, 20);
    assert_eq!(lines.len(), 20);
    assert_eq!(lines[13], "Loading...");
    app.handle_action(&Action::Message({
        let mut map = actionloop::action::MessageMap::new();
        map.insert("startup".to_string(), "Starting Geckodriver...".to_string());
        map
    }));
    assert_eq!(app.progress_of(0), (1, 3));
    assert_eq!(app.splash_lines_of(0, 20)[13], "Starting Geckodriver...");
}
