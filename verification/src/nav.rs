//! What a key press on the search page comes to: which row takes the focus,
//! whether the input is cleared and the mode left, which row is activated.

use vstd::prelude::*;

verus! {

/// The keys that the search page tells apart.
#[derive(Clone, Copy, PartialEq, Eq, Structural, Debug)]
pub enum Key {
    Up,
    Down,
    BackSpace,
    Return,
    Tab,
    /// One of the keys `1` to `5`, with its number.
    Digit(u8),
    /// Any other key, with its code.
    Other(u32),
}

/// The bit of the shift key in a set of modifiers.
pub const SHIFT_MASK: u32 = 1;

/// The code that the keyboard reports for the tabulator key, which a press
/// of shift and tabulator comes with whatever key it is reported as.
pub const TAB_KEYCODE: u32 = 23;

/// The keys that the user has bound: one to go to the row before and one to
/// go to the next row, each with the modifiers that have to be held where
/// there are any, and the modifiers that turn a digit into a shortcut and a
/// backspace into the clearing of the input.
#[derive(Clone, Copy, PartialEq, Eq, Structural, Debug)]
pub struct ConfKeys {
    pub prev: Option<Key>,
    pub prev_mod: Option<u32>,
    pub next: Option<Key>,
    pub next_mod: Option<u32>,
    pub shortcut_modifier: Option<u32>,
}

/// A key press: the key, the code that the keyboard reported, and the set of
/// modifiers that were held.
#[derive(Clone, Copy, PartialEq, Eq, Structural, Debug)]
pub struct KeyPress {
    pub key: Key,
    pub keycode: u32,
    pub modifiers: u32,
}

/// What the search page does on a key press.
#[derive(Clone, Copy, PartialEq, Eq, Structural, Debug)]
pub enum NavAction {
    /// Nothing.
    Nothing,
    /// The row before the selected one takes the focus.
    FocusPrev,
    /// The row after the selected one takes the focus.
    FocusNext,
    /// A backspace: the input is emptied where `clear_text` says so, the
    /// default mode is returned to where `reset_mode` says so, and the first
    /// row takes the focus.
    Erase { clear_text: bool, reset_mode: bool },
    /// The selected row is activated.
    Activate,
    /// The row with the shortcut of this number is activated.
    ExecuteByIndex(u8),
}

/// What a key press comes to: what the page does, and whether the key press
/// is used up, so that nothing else acts on it.
#[derive(Clone, Copy, PartialEq, Eq, Structural, Debug)]
pub struct NavDecision {
    pub action: NavAction,
    pub handled: bool,
}

/// Whether all of `wanted` are among `modifiers`.
pub open spec fn holds(modifiers: u32, wanted: u32) -> bool {
    modifiers & wanted == wanted
}

/// Whether the modifiers that a binding asks for are held: a binding that
/// asks for none is met by any.
pub open spec fn binding_met(modifiers: u32, wanted: Option<u32>) -> bool {
    match wanted {
        Some(m) => holds(modifiers, m),
        None => true,
    }
}

/// Whether the modifiers that make a shortcut are held: there have to be
/// some.
pub open spec fn shortcut_held(modifiers: u32, wanted: Option<u32>) -> bool {
    match wanted {
        Some(m) => holds(modifiers, m),
        None => false,
    }
}

/// What a press of shift and tabulator comes to, which goes where the
/// binding of shift and tabulator goes, if there is one.
pub open spec fn shift_tab_spec(binds: ConfKeys) -> NavDecision {
    if binds.prev_mod == Some(SHIFT_MASK) && binds.prev == Some(Key::Tab) {
        NavDecision { action: NavAction::FocusPrev, handled: true }
    } else if binds.next_mod == Some(SHIFT_MASK) && binds.next == Some(Key::Tab) {
        NavDecision { action: NavAction::FocusNext, handled: true }
    } else {
        NavDecision { action: NavAction::Nothing, handled: false }
    }
}

/// What a key press comes to.
///
/// A page other than the search page does nothing. On the search page the
/// user's bindings go first; then the arrows move the focus; a backspace
/// empties the input where the modifiers of a shortcut are held, and leaves
/// the mode where the input is or becomes empty; return activates the
/// selected row; a digit with the modifiers of a shortcut activates the row of
/// that number; and any other key with the tabulator's code and shift held is
/// a press of shift and tabulator.
pub open spec fn nav_decision(
    press: KeyPress,
    binds: ConfKeys,
    on_search_page: bool,
    input_empty: bool,
) -> NavDecision {
    if !on_search_page {
        NavDecision { action: NavAction::Nothing, handled: false }
    } else if Some(press.key) == binds.prev && binding_met(press.modifiers, binds.prev_mod) {
        NavDecision { action: NavAction::FocusPrev, handled: true }
    } else if Some(press.key) == binds.next && binding_met(press.modifiers, binds.next_mod) {
        NavDecision { action: NavAction::FocusNext, handled: true }
    } else {
        match press.key {
            Key::Up => NavDecision { action: NavAction::FocusPrev, handled: false },
            Key::Down => NavDecision { action: NavAction::FocusNext, handled: true },
            Key::BackSpace => {
                let clear_text = shortcut_held(press.modifiers, binds.shortcut_modifier);
                NavDecision {
                    action: NavAction::Erase { clear_text, reset_mode: clear_text || input_empty },
                    handled: false,
                }
            },
            Key::Return => NavDecision { action: NavAction::Activate, handled: false },
            Key::Digit(n) => if shortcut_held(press.modifiers, binds.shortcut_modifier) && 1 <= n
                <= 5 {
                NavDecision { action: NavAction::ExecuteByIndex(n), handled: true }
            } else {
                NavDecision { action: NavAction::Nothing, handled: false }
            },
            _ => if press.keycode == TAB_KEYCODE && holds(press.modifiers, SHIFT_MASK) {
                shift_tab_spec(binds)
            } else {
                NavDecision { action: NavAction::Nothing, handled: false }
            },
        }
    }
}

/// Whether all of `wanted` are among `modifiers`.
fn contains(modifiers: u32, wanted: u32) -> (r: bool)
    ensures
        r == holds(modifiers, wanted),
{
    modifiers & wanted == wanted
}

/// Whether `key` is the key `bound` and the modifiers that go with it are
/// held.
fn is_bound(press: KeyPress, bound: Option<Key>, wanted: Option<u32>) -> (r: bool)
    ensures
        r == (Some(press.key) == bound && binding_met(press.modifiers, wanted)),
{
    match bound {
        Some(k) => k == press.key && match wanted {
            Some(m) => contains(press.modifiers, m),
            None => true,
        },
        None => false,
    }
}

/// Decides what a key press comes to.
pub fn nav_event(press: KeyPress, binds: &ConfKeys, on_search_page: bool, input_empty: bool) -> (d:
    NavDecision)
    ensures
        d == nav_decision(press, *binds, on_search_page, input_empty),
{
    let nothing = NavDecision { action: NavAction::Nothing, handled: false };
    if !on_search_page {
        return nothing;
    }
    if is_bound(press, binds.prev, binds.prev_mod) {
        return NavDecision { action: NavAction::FocusPrev, handled: true };
    }
    if is_bound(press, binds.next, binds.next_mod) {
        return NavDecision { action: NavAction::FocusNext, handled: true };
    }
    let shortcut = match binds.shortcut_modifier {
        Some(m) => contains(press.modifiers, m),
        None => false,
    };
    match press.key {
        Key::Up => NavDecision { action: NavAction::FocusPrev, handled: false },
        Key::Down => NavDecision { action: NavAction::FocusNext, handled: true },
        Key::BackSpace => NavDecision {
            action: NavAction::Erase { clear_text: shortcut, reset_mode: shortcut || input_empty },
            handled: false,
        },
        Key::Return => NavDecision { action: NavAction::Activate, handled: false },
        Key::Digit(n) => {
            if shortcut && 1 <= n && n <= 5 {
                NavDecision { action: NavAction::ExecuteByIndex(n), handled: true }
            } else {
                nothing
            }
        },
        _ => {
            if press.keycode == TAB_KEYCODE && contains(press.modifiers, SHIFT_MASK) {
                let shift_prev = match (binds.prev_mod, binds.prev) {
                    (Some(m), Some(k)) => m == SHIFT_MASK && k == Key::Tab,
                    _ => false,
                };
                let shift_next = match (binds.next_mod, binds.next) {
                    (Some(m), Some(k)) => m == SHIFT_MASK && k == Key::Tab,
                    _ => false,
                };
                if shift_prev {
                    NavDecision { action: NavAction::FocusPrev, handled: true }
                } else if shift_next {
                    NavDecision { action: NavAction::FocusNext, handled: true }
                } else {
                    nothing
                }
            } else {
                nothing
            }
        },
    }
}

/// Whether a click on a row activates the row: the second click of a double
/// click does, and every click after it.
pub fn activates_on_click(n_clicks: i32) -> (r: bool)
    ensures
        r == (n_clicks >= 2),
{
    n_clicks >= 2
}

/// A key press that the page is not the search page for is not used up and
/// does nothing, and no key press is used up without moving the focus or
/// activating a row.
pub proof fn lemma_handled_keys_act(
    press: KeyPress,
    binds: ConfKeys,
    on_search_page: bool,
    input_empty: bool,
)
    ensures
        !on_search_page ==> nav_decision(press, binds, on_search_page, input_empty) == (
        NavDecision { action: NavAction::Nothing, handled: false }),
        nav_decision(press, binds, on_search_page, input_empty).handled ==> nav_decision(
            press,
            binds,
            on_search_page,
            input_empty,
        ).action != NavAction::Nothing,
{
}

/// A backspace in the empty input leaves the mode, unless the user has bound
/// the backspace key to go to another row.
pub proof fn lemma_backspace_on_empty_resets(press: KeyPress, binds: ConfKeys)
    requires
        press.key == Key::BackSpace,
        binds.prev != Some(Key::BackSpace),
        binds.next != Some(Key::BackSpace),
    ensures
        nav_decision(press, binds, true, true).action matches NavAction::Erase {
            clear_text,
            reset_mode,
        } && reset_mode,
{
}

} // verus!
