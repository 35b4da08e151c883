use vstd::prelude::*;

verus! {

/// A key press, as the handlers read it.
#[derive(Clone, Copy, Debug, PartialEq, Eq, Structural)]
pub enum Key {
    Char(char),
    Enter,
    Esc,
    Backspace,
    /// The tab key; `shift` tells whether Shift was held.
    Tab { shift: bool },
    Left,
    Right,
    Up,
    Down,
    Delete,
    /// Any other key; no handler acts on it.
    Other,
}

/// What a key asks of the world outside the application state.
#[derive(Clone, Copy, Debug, PartialEq, Eq, Structural)]
pub enum Effect {
    Nothing,
    /// Write the projects to storage.
    Save,
    /// Raise the memory and disk gauges.
    RaiseUsage,
    /// Lower the memory and disk gauges.
    LowerUsage,
    /// Start the download animation over.
    RestartDownload,
}

/// Which pane of the todo tab has the focus.
#[derive(Clone, Copy, Debug, PartialEq, Eq, Structural)]
pub enum TodoFocus {
    Projects,
    Todos,
}

/// What a pending delete confirmation would remove.
#[derive(Clone, Copy, Debug, PartialEq, Eq, Structural)]
pub enum DeleteTarget {
    Project(usize),
    Todo { project_idx: usize, todo_idx: usize },
}

pub open spec fn is_left(key: Key) -> bool {
    key == Key::Left || key == Key::Char('h')
}

pub open spec fn is_right(key: Key) -> bool {
    key == Key::Right || key == Key::Char('l')
}

pub open spec fn is_down(key: Key) -> bool {
    key == Key::Down || key == Key::Char('j')
}

pub open spec fn is_up(key: Key) -> bool {
    key == Key::Up || key == Key::Char('k')
}

pub open spec fn is_activate(key: Key) -> bool {
    key == Key::Enter || key == Key::Char(' ')
}

pub open spec fn is_delete(key: Key) -> bool {
    key == Key::Char('d') || key == Key::Delete
}

/// What a key does on the gauges tab.
pub open spec fn gauge_effect(key: Key) -> Effect {
    if key == Key::Char('+') || key == Key::Char('=') {
        Effect::RaiseUsage
    } else if key == Key::Char('-') {
        Effect::LowerUsage
    } else if key == Key::Char('r') {
        Effect::RestartDownload
    } else {
        Effect::Nothing
    }
}

/// The key handler of the gauges tab: which change to the gauges a key asks for.
pub fn handle_gauge_keys(key: Key) -> (effect: Effect)
    ensures
        effect == gauge_effect(key),
{
    match key {
        Key::Char('+') | Key::Char('=') => Effect::RaiseUsage,
        Key::Char('-') => Effect::LowerUsage,
        Key::Char('r') => Effect::RestartDownload,
        _ => Effect::Nothing,
    }
}

} // verus!
