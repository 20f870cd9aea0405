//! The component family: progress accumulation and the splash layout.

use actionloop::action::{Action, MessageMap};
use actionloop::views::{Home, LoginComponent, LoginGauge, LoginSplash};

fn startup_message(text: &str) -> Action {
    let mut map = MessageMap::new();
    map.insert("startup".to_string(), text.to_string());
    Action::Message(map)
}

#[test]
fn progress_saturates_exactly_at_one() {
    // Five unique startup messages against an expected total of three: the
    // ratio is exactly 1.0, never above.
    let mut login = LoginComponent::new();
    for i in 0..5 {
        let r = login.update(&startup_message(&format!("step {i}")));
        assert!(r.is_none());
    }
    let (num, den) = login.progress();
    assert_eq!((num, den), (3, 3));
    assert_eq!(num as f64 / den as f64, 1.0);
}

#[test]
fn progress_is_monotonic_step_by_step() {
    let mut login = LoginComponent::new();
    let mut previous = 0;
    for i in 0..6 {
        login.update(&startup_message(&format!("message {i}")));
        let (num, den) = login.progress();
        assert_eq!(den, 3);
        assert!(num >= previous);
        assert!(num <= den);
        previous = num;
    }
    assert_eq!(previous, 3);
}

#[test]
fn gauge_fills_after_ten_messages() {
    let mut home = Home::new();
    let mut gauge = LoginGauge::new();
    for i in 0..12 {
        home.update(&startup_message(&format!("home {i}")));
        gauge.update(&startup_message(&format!("gauge {i}")));
    }
    assert_eq!(home.progress(), (10, 10));
    assert_eq!(gauge.progress(), (10, 10));
}

#[test]
fn message_without_startup_key_is_ignored() {
    let mut login = LoginComponent::new();
    let mut map = MessageMap::new();
    map.insert("other".to_string(), "ignored".to_string());
    login.update(&Action::Message(map));
    assert_eq!(login.progress(), (0, 3));
}

#[test]
fn tick_advances_the_animation() {
    let splash = LoginSplash::new();
    let lines = splash.component().splash_lines(20);
    // Height 20 around 6 frame lines, a blank and a message: 6 above.
    assert_eq!(lines.len(), 20);
    assert_eq!(lines[6], "     __");
    let mut splash = LoginSplash::new();
    splash.update(&Action::Tick);
    let lines = splash.splash_lines(20);
    assert_eq!(lines[6], "     __ __");
}

#[test]
fn animation_stops_at_the_last_frame() {
    let mut login = LoginComponent::new();
    for _ in 0..25 {
        login.update(&Action::Tick);
    }
    let lines = login.splash_lines(20);
    assert_eq!(lines[6], "     __ __             __      ");
    // Another tick changes nothing further.
    login.update(&Action::Tick);
    let again = login.splash_lines(20);
    assert_eq!(again[6], "     __ __             __      ");
}

#[test]
fn splash_shows_placeholder_then_received_message() {
    let mut login = LoginComponent::new();
    let lines = login.splash_lines(20);
    // 6 blanks above, 6 frame lines, one blank separator, then the message.
    assert_eq!(lines[12], "");
    assert_eq!(lines[13], "Loading...");
    login.update(&startup_message("Starting Geckodriver..."));
    let lines = login.splash_lines(20);
    assert_eq!(lines[13], "Starting Geckodriver...");
}

#[test]
fn splash_overflows_below_short_surface() {
    let login = LoginComponent::new();
    let lines = login.splash_lines(3);
    // No padding fits: the frame, the separator and the message remain.
    assert_eq!(lines.len(), 8);
    assert_eq!(lines[0], "     __");
    assert_eq!(lines[6], "");
    assert_eq!(lines[7], "Loading...");
}

#[test]
fn message_map_insert_shadows_and_get_finds() {
    let mut map = MessageMap::new();
    assert!(map.get(&"startup".to_string()).is_none());
    map.insert("startup".to_string(), "first".to_string());
    map.insert("startup".to_string(), "second".to_string());
    assert_eq!(map.get(&"startup".to_string()), Some(&"second".to_string()));
    assert!(map.get(&"missing".to_string()).is_none());
}
