use vstd::prelude::*;
use crate::byte_cursor::ByteCursor;
use crate::input::{Key, Modifiers, OperatingSystem};

verus! {

/// A way to move a cursor within a galley, as the galley carries it out.
#[derive(Clone, Copy, Debug, PartialEq, Eq, Structural)]
pub enum CursorMotion {
    /// To the start of the cursor's row.
    BeginOfRow,
    /// To the end of the cursor's row.
    EndOfRow,
    /// One row up.
    UpOneRow,
    /// One row down.
    DownOneRow,
    /// One character to the left.
    LeftOneCharacter,
    /// One character to the right.
    RightOneCharacter,
    /// To the start of the previous word.
    PreviousWord,
    /// To the end of the next word.
    NextWord,
    /// To the start of the galley, wherever the cursor is.
    GalleyBegin,
    /// To the end of the galley, wherever the cursor is.
    GalleyEnd,
}

/// Control is held down on a Mac without shift: the Emacs-like motions apply.
pub open spec fn mac_control(os: OperatingSystem, modifiers: Modifiers) -> bool {
    os == OperatingSystem::Mac && modifiers.ctrl && !modifiers.shift
}

/// The motion with which a key moves a text cursor, or `None` where it leaves the
/// cursor where it is.
pub open spec fn motion_for_key(os: OperatingSystem, key: Key, modifiers: Modifiers) -> Option<
    CursorMotion,
> {
    if mac_control(os, modifiers) {
        match key {
            Key::A => Some(CursorMotion::BeginOfRow),
            Key::E => Some(CursorMotion::EndOfRow),
            Key::P => Some(CursorMotion::UpOneRow),
            Key::N => Some(CursorMotion::DownOneRow),
            Key::B => Some(CursorMotion::LeftOneCharacter),
            Key::F => Some(CursorMotion::RightOneCharacter),
            _ => None,
        }
    } else {
        match key {
            // alt on mac, ctrl on windows
            Key::ArrowLeft => if modifiers.alt || modifiers.ctrl {
                Some(CursorMotion::PreviousWord)
            } else if modifiers.mac_cmd {
                Some(CursorMotion::BeginOfRow)
            } else {
                Some(CursorMotion::LeftOneCharacter)
            },
            Key::ArrowRight => if modifiers.alt || modifiers.ctrl {
                Some(CursorMotion::NextWord)
            } else if modifiers.mac_cmd {
                Some(CursorMotion::EndOfRow)
            } else {
                Some(CursorMotion::RightOneCharacter)
            },
            // mac and windows behavior
            Key::ArrowUp => if modifiers.command {
                Some(CursorMotion::GalleyBegin)
            } else {
                Some(CursorMotion::UpOneRow)
            },
            Key::ArrowDown => if modifiers.command {
                Some(CursorMotion::GalleyEnd)
            } else {
                Some(CursorMotion::DownOneRow)
            },
            // windows behavior
            Key::Home => if modifiers.ctrl {
                Some(CursorMotion::GalleyBegin)
            } else {
                Some(CursorMotion::BeginOfRow)
            },
            Key::End => if modifiers.ctrl {
                Some(CursorMotion::GalleyEnd)
            } else {
                Some(CursorMotion::EndOfRow)
            },
            _ => None,
        }
    }
}

/// `to` is where `key` moves a cursor at `from` in `galley`.
pub open spec fn key_moves<F: Fn(ByteCursor, CursorMotion) -> ByteCursor>(
    galley: &F,
    os: OperatingSystem,
    key: Key,
    modifiers: Modifiers,
    from: ByteCursor,
    to: ByteCursor,
) -> bool {
    match motion_for_key(os, key, modifiers) {
        Some(m) => galley.ensures((from, m), to),
        None => to == from,
    }
}

/// Move a text cursor based on keyboard.
///
/// `galley` carries out a motion of a cursor within the laid-out text. Keys other than
/// the arrows, `Home` and `End` are only handed in with control held down on a Mac.
pub fn move_single_cursor<F: Fn(ByteCursor, CursorMotion) -> ByteCursor>(
    os: OperatingSystem,
    cursor: &mut ByteCursor,
    galley: &F,
    key: Key,
    modifiers: &Modifiers,
)
    requires
        mac_control(os, *modifiers) || key.is_navigation(),
        forall|c: ByteCursor, m: CursorMotion| galley.requires((c, m)),
    ensures
        key_moves(galley, os, key, *modifiers, *old(cursor), *final(cursor)),
{
    let motion = if os == OperatingSystem::Mac && modifiers.ctrl && !modifiers.shift {
        match key {
            Key::A => Some(CursorMotion::BeginOfRow),
            Key::E => Some(CursorMotion::EndOfRow),
            Key::P => Some(CursorMotion::UpOneRow),
            Key::N => Some(CursorMotion::DownOneRow),
            Key::B => Some(CursorMotion::LeftOneCharacter),
            Key::F => Some(CursorMotion::RightOneCharacter),
            _ => None,
        }
    } else {
        match key {
            Key::ArrowLeft => {
                if modifiers.alt || modifiers.ctrl {
                    // alt on mac, ctrl on windows
                    Some(CursorMotion::PreviousWord)
                } else if modifiers.mac_cmd {
                    Some(CursorMotion::BeginOfRow)
                } else {
                    Some(CursorMotion::LeftOneCharacter)
                }
            },
            Key::ArrowRight => {
                if modifiers.alt || modifiers.ctrl {
                    // alt on mac, ctrl on windows
                    Some(CursorMotion::NextWord)
                } else if modifiers.mac_cmd {
                    Some(CursorMotion::EndOfRow)
                } else {
                    Some(CursorMotion::RightOneCharacter)
                }
            },
            Key::ArrowUp => {
                if modifiers.command {
                    // mac and windows behavior
                    Some(CursorMotion::GalleyBegin)
                } else {
                    Some(CursorMotion::UpOneRow)
                }
            },
            Key::ArrowDown => {
                if modifiers.command {
                    // mac and windows behavior
                    Some(CursorMotion::GalleyEnd)
                } else {
                    Some(CursorMotion::DownOneRow)
                }
            },
            Key::Home => {
                if modifiers.ctrl {
                    // windows behavior
                    Some(CursorMotion::GalleyBegin)
                } else {
                    Some(CursorMotion::BeginOfRow)
                }
            },
            Key::End => {
                if modifiers.ctrl {
                    // windows behavior
                    Some(CursorMotion::GalleyEnd)
                } else {
                    Some(CursorMotion::EndOfRow)
                }
            },
            _ => None,
        }
    };
    match motion {
        Some(m) => {
            *cursor = galley(*cursor, m);
        },
        None => {},
    }
}

} // verus!
