use sherlock::nav::{
    activates_on_click, nav_event, ConfKeys, Key, KeyPress, NavAction, NavDecision, SHIFT_MASK,
    TAB_KEYCODE,
};

const CONTROL: u32 = 4;

fn no_binds() -> ConfKeys {
    ConfKeys { prev: None, prev_mod: None, next: None, next_mod: None, shortcut_modifier: None }
}

fn press(key: Key, modifiers: u32) -> KeyPress {
    KeyPress { key, keycode: 0, modifiers }
}

fn decision(action: NavAction, handled: bool) -> NavDecision {
    NavDecision { action, handled }
}

#[test]
fn other_pages_ignore_keys() {
    let binds = ConfKeys { prev: Some(Key::Up), ..no_binds() };
    for key in [Key::Up, Key::Down, Key::BackSpace, Key::Return, Key::Digit(1), Key::Tab] {
        assert_eq!(
            nav_event(press(key, CONTROL), &binds, false, true),
            decision(NavAction::Nothing, false)
        );
    }
}

#[test]
fn arrows_move_the_focus() {
    assert_eq!(
        nav_event(press(Key::Up, 0), &no_binds(), true, false),
        decision(NavAction::FocusPrev, false)
    );
    assert_eq!(
        nav_event(press(Key::Down, 0), &no_binds(), true, false),
        decision(NavAction::FocusNext, true)
    );
}

#[test]
fn bindings_go_before_the_arrows() {
    let binds = ConfKeys {
        prev: Some(Key::Down),
        prev_mod: Some(CONTROL),
        next: Some(Key::Other(106)),
        next_mod: None,
        shortcut_modifier: None,
    };
    assert_eq!(
        nav_event(press(Key::Down, CONTROL), &binds, true, false),
        decision(NavAction::FocusPrev, true)
    );
    // Without the modifier the binding is not met and the arrow acts.
    assert_eq!(
        nav_event(press(Key::Down, 0), &binds, true, false),
        decision(NavAction::FocusNext, true)
    );
    assert_eq!(
        nav_event(press(Key::Other(106), 0), &binds, true, false),
        decision(NavAction::FocusNext, true)
    );
    assert_eq!(
        nav_event(press(Key::Other(106), CONTROL | SHIFT_MASK), &binds, true, false),
        decision(NavAction::FocusNext, true)
    );
    assert_eq!(
        nav_event(press(Key::Other(107), 0), &binds, true, false),
        decision(NavAction::Nothing, false)
    );
}

#[test]
fn backspace_leaves_the_mode_on_empty_input() {
    assert_eq!(
        nav_event(press(Key::BackSpace, 0), &no_binds(), true, true),
        decision(NavAction::Erase { clear_text: false, reset_mode: true }, false)
    );
    assert_eq!(
        nav_event(press(Key::BackSpace, 0), &no_binds(), true, false),
        decision(NavAction::Erase { clear_text: false, reset_mode: false }, false)
    );
}

#[test]
fn backspace_with_the_shortcut_modifier_clears_the_input() {
    let binds = ConfKeys { shortcut_modifier: Some(CONTROL), ..no_binds() };
    assert_eq!(
        nav_event(press(Key::BackSpace, CONTROL), &binds, true, false),
        decision(NavAction::Erase { clear_text: true, reset_mode: true }, false)
    );
    assert_eq!(
        nav_event(press(Key::BackSpace, SHIFT_MASK), &binds, true, false),
        decision(NavAction::Erase { clear_text: false, reset_mode: false }, false)
    );
    // Without a modifier for shortcuts none is held.
    assert_eq!(
        nav_event(press(Key::BackSpace, CONTROL), &no_binds(), true, false),
        decision(NavAction::Erase { clear_text: false, reset_mode: false }, false)
    );
}

#[test]
fn return_activates() {
    assert_eq!(
        nav_event(press(Key::Return, 0), &no_binds(), true, false),
        decision(NavAction::Activate, false)
    );
}

#[test]
fn digits_are_shortcuts_with_the_modifier() {
    let binds = ConfKeys { shortcut_modifier: Some(CONTROL), ..no_binds() };
    for n in 1..=5u8 {
        assert_eq!(
            nav_event(press(Key::Digit(n), CONTROL), &binds, true, false),
            decision(NavAction::ExecuteByIndex(n), true)
        );
        assert_eq!(
            nav_event(press(Key::Digit(n), 0), &binds, true, false),
            decision(NavAction::Nothing, false)
        );
    }
    assert_eq!(
        nav_event(press(Key::Digit(6), CONTROL), &binds, true, false),
        decision(NavAction::Nothing, false)
    );
    assert_eq!(
        nav_event(press(Key::Digit(0), CONTROL), &binds, true, false),
        decision(NavAction::Nothing, false)
    );
}

#[test]
fn shift_tab_goes_where_it_is_bound() {
    let shift_tab = KeyPress { key: Key::Other(0xfe20), keycode: TAB_KEYCODE, modifiers: SHIFT_MASK };
    let prev = ConfKeys { prev: Some(Key::Tab), prev_mod: Some(SHIFT_MASK), ..no_binds() };
    let next = ConfKeys { next: Some(Key::Tab), next_mod: Some(SHIFT_MASK), ..no_binds() };
    assert_eq!(nav_event(shift_tab, &prev, true, false), decision(NavAction::FocusPrev, true));
    assert_eq!(nav_event(shift_tab, &next, true, false), decision(NavAction::FocusNext, true));
    assert_eq!(nav_event(shift_tab, &no_binds(), true, false), decision(NavAction::Nothing, false));
    let plain = KeyPress { key: Key::Other(0xfe20), keycode: TAB_KEYCODE, modifiers: 0 };
    assert_eq!(nav_event(plain, &prev, true, false), decision(NavAction::Nothing, false));
    let other_code = KeyPress { key: Key::Other(0xfe20), keycode: 24, modifiers: SHIFT_MASK };
    assert_eq!(nav_event(other_code, &prev, true, false), decision(NavAction::Nothing, false));
    // An arrow with the tabulator's code is an arrow.
    let arrow = KeyPress { key: Key::Up, keycode: TAB_KEYCODE, modifiers: SHIFT_MASK };
    assert_eq!(nav_event(arrow, &next, true, false), decision(NavAction::FocusPrev, false));
}

#[test]
fn double_click_activates() {
    assert!(!activates_on_click(0));
    assert!(!activates_on_click(1));
    assert!(activates_on_click(2));
    assert!(activates_on_click(3));
    assert!(!activates_on_click(-1));
}
