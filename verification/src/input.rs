use vstd::prelude::*;

verus! {

/// The operating system the user is on, as far as the text cursor cares.
#[derive(Clone, Copy, Debug, PartialEq, Eq, Structural)]
pub enum OperatingSystem {
    /// Unknown OS - could be wasm
    Unknown,
    /// Android OS
    Android,
    /// Apple iPhone OS
    IOS,
    /// Linux or Unix other than Android
    Nix,
    /// macOS
    Mac,
    /// Windows
    Windows,
}

/// State of the modifier keys.
#[derive(Clone, Copy, Debug, PartialEq, Eq, Structural)]
pub struct Modifiers {
    /// Either of the alt or option keys are down (option ⌥ on Mac).
    pub alt: bool,
    /// Either of the control keys are down.
    pub ctrl: bool,
    /// Either of the shift keys are down.
    pub shift: bool,
    /// The Mac ⌘ Command key.
    pub mac_cmd: bool,
    /// On Windows and Linux, set this to the same value as `ctrl`; on Mac, to `mac_cmd`.
    pub command: bool,
}

impl Modifiers {
    /// No modifier key is down.
    pub open spec fn none_down(self) -> bool {
        !self.alt && !self.ctrl && !self.shift && !self.mac_cmd && !self.command
    }

    /// No modifier key is down.
    pub fn is_none(&self) -> (r: bool)
        ensures
            r == self.none_down(),
    {
        !self.alt && !self.ctrl && !self.shift && !self.mac_cmd && !self.command
    }
}

/// Keyboard keys.
#[derive(Clone, Copy, Debug, PartialEq, Eq, Structural)]
pub enum Key {
    ArrowDown,
    ArrowLeft,
    ArrowRight,
    ArrowUp,
    Escape,
    Tab,
    Backspace,
    Enter,
    Space,
    Insert,
    Delete,
    Home,
    End,
    PageUp,
    PageDown,
    A,
    B,
    C,
    D,
    E,
    F,
    G,
    H,
    I,
    J,
    K,
    L,
    M,
    N,
    O,
    P,
    Q,
    R,
    S,
    T,
    U,
    V,
    W,
    X,
    Y,
    Z,
}

impl Key {
    /// An arrow key, `Home` or `End`: the keys that move a text cursor on every system.
    pub open spec fn is_navigation(self) -> bool {
        self is ArrowLeft || self is ArrowRight || self is ArrowUp || self is ArrowDown
            || self is Home || self is End
    }

    /// A key that moves a text cursor together with control on a Mac, as in Emacs.
    pub open spec fn is_emacs_motion(self) -> bool {
        self is P || self is N || self is B || self is F || self is A || self is E
    }
}

/// A position in the text of a widget as an accessibility tool names it: the row's
/// accessibility node, and the character index within that row.
#[derive(Clone, Copy, Debug, PartialEq, Eq, Structural)]
pub struct TextPosition {
    pub node: u64,
    pub character_index: usize,
}

/// An input event, as far as a text cursor reacts to it.
#[derive(Clone, Debug)]
pub enum Event {
    /// The clipboard copy command.
    Copy,
    /// The clipboard cut command.
    Cut,
    /// Text pasted from the clipboard.
    Paste(String),
    /// Text input.
    Text(String),
    /// A key was pressed or released.
    Key { key: Key, physical_key: Option<Key>, pressed: bool, repeat: bool, modifiers: Modifiers },
    /// An accessibility tool asks the widget with node `target` to select from `anchor`
    /// to `focus`.
    SetTextSelection { target: u64, anchor: TextPosition, focus: TextPosition },
}

} // verus!
