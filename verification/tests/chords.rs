//! Key-chord resolution against a keybinding table.

use actionloop::action::Action;
use actionloop::keys::{KeyBindings, KeyChordResolver, KeyCode, KeyPress, Mode};

fn key(c: char) -> KeyPress {
    KeyPress::plain(KeyCode::Char(c))
}

fn enter() -> KeyPress {
    KeyPress::plain(KeyCode::Enter)
}

#[test]
fn single_key_binding_resolves_immediately() {
    // Table {Home: {[Enter]: Submit}}: pressing Enter yields Submit at once.
    let mut table = KeyBindings::new();
    table.bind(Mode::Home, vec![enter()], Action::Submit);
    let mut resolver = KeyChordResolver::new();
    let got = resolver.resolve_key(&table, Mode::Home, enter());
    assert!(matches!(got, Some(Action::Submit)));
}

#[test]
fn multi_key_chord_resolves_on_last_key_only() {
    let mut table = KeyBindings::new();
    table.bind(Mode::Home, vec![key('g'), key('q')], Action::Quit);
    let mut resolver = KeyChordResolver::new();
    // The strict prefix yields nothing.
    assert!(resolver.resolve_key(&table, Mode::Home, key('g')).is_none());
    // The full chord yields the bound action.
    let got = resolver.resolve_key(&table, Mode::Home, key('q'));
    assert!(matches!(got, Some(Action::Quit)));
}

#[test]
fn three_key_chord_prefixes_yield_nothing() {
    let mut table = KeyBindings::new();
    table.bind(Mode::Home, vec![key('a'), key('b'), key('c')], Action::Submit);
    let mut resolver = KeyChordResolver::new();
    assert!(resolver.resolve_key(&table, Mode::Home, key('a')).is_none());
    assert!(resolver.resolve_key(&table, Mode::Home, key('b')).is_none());
    let got = resolver.resolve_key(&table, Mode::Home, key('c'));
    assert!(matches!(got, Some(Action::Submit)));
}

#[test]
fn cleared_buffer_abandons_chord() {
    // Clearing between the keys (as a Tick does) must not yield the action.
    let mut table = KeyBindings::new();
    table.bind(Mode::Home, vec![key('a'), key('b')], Action::Submit);
    let mut resolver = KeyChordResolver::new();
    assert!(resolver.resolve_key(&table, Mode::Home, key('a')).is_none());
    resolver.clear();
    assert!(resolver.resolve_key(&table, Mode::Home, key('b')).is_none());
}

#[test]
fn single_key_binding_takes_precedence() {
    // [a] alone is bound; a resolves immediately even mid-chord.
    let mut table = KeyBindings::new();
    table.bind(Mode::Home, vec![key('a')], Action::Submit);
    table.bind(Mode::Home, vec![key('b'), key('a')], Action::Quit);
    let mut resolver = KeyChordResolver::new();
    assert!(resolver.resolve_key(&table, Mode::Home, key('b')).is_none());
    let got = resolver.resolve_key(&table, Mode::Home, key('a'));
    assert!(matches!(got, Some(Action::Submit)));
    // The successful resolution reset the buffer: b then a again behaves the
    // same way.
    assert!(resolver.resolve_key(&table, Mode::Home, key('b')).is_none());
    let again = resolver.resolve_key(&table, Mode::Home, key('a'));
    assert!(matches!(again, Some(Action::Submit)));
}

#[test]
fn empty_table_yields_nothing_for_any_key() {
    let table = KeyBindings::new();
    let mut resolver = KeyChordResolver::new();
    assert!(resolver.resolve_key(&table, Mode::Home, enter()).is_none());
    assert!(resolver.resolve_key(&table, Mode::Home, key('x')).is_none());
}

#[test]
fn fresh_binding_shadows_older_one() {
    let mut table = KeyBindings::new();
    table.bind(Mode::Home, vec![enter()], Action::Quit);
    table.bind(Mode::Home, vec![enter()], Action::Submit);
    let mut resolver = KeyChordResolver::new();
    let got = resolver.resolve_key(&table, Mode::Home, enter());
    assert!(matches!(got, Some(Action::Submit)));
}

#[test]
fn modifiers_distinguish_key_presses() {
    let mut table = KeyBindings::new();
    let ctrl_c = KeyPress { code: KeyCode::Char('c'), ctrl: true, alt: false, shift: false };
    table.bind(Mode::Home, vec![ctrl_c], Action::Quit);
    let mut resolver = KeyChordResolver::new();
    assert!(resolver.resolve_key(&table, Mode::Home, key('c')).is_none());
    let got = resolver.resolve_key(&table, Mode::Home, ctrl_c);
    assert!(matches!(got, Some(Action::Quit)));
}
