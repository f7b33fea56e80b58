//! Raw pointer messages and the abstract events they map to.
//!
//! The operating system identifies each low-level pointer message by a
//! `u32` code. Only five of those codes are meaningful to the capture
//! subsystem: movement, press and release of the primary button, and
//! press and release of the secondary button. Everything else is
//! unrecognized and dropped before it can reach a handler.

use vstd::prelude::*;

verus! {

/// Raw message code for a pointer movement.
pub const MSG_MOVE: u32 = 0x0200;
/// Raw message code for a primary-button press.
pub const MSG_PRIMARY_DOWN: u32 = 0x0201;
/// Raw message code for a primary-button release.
pub const MSG_PRIMARY_UP: u32 = 0x0202;
/// Raw message code for a secondary-button press.
pub const MSG_SECONDARY_DOWN: u32 = 0x0204;
/// Raw message code for a secondary-button release.
pub const MSG_SECONDARY_UP: u32 = 0x0205;

/// The kind of an abstract event handed to a registered handler.
#[derive(Clone, Copy, Debug, PartialEq, Eq, Structural)]
pub enum EventKind {
    /// The pointer moved.
    Move,
    /// The primary or secondary button was pressed.
    Down,
    /// The primary or secondary button was released.
    Up,
}

impl EventKind {
    /// The integer encoding of this kind at the callback boundary.
    pub open spec fn code_spec(self) -> i32 {
        match self {
            EventKind::Move => 0,
            EventKind::Down => 1,
            EventKind::Up => 2,
        }
    }

    /// Encodes this kind as the integer that crosses the callback boundary:
    /// movement is 0, a press is 1, a release is 2.
    pub fn code(self) -> (c: i32)
        ensures
            c == self.code_spec(),
    {
        match self {
            EventKind::Move => 0,
            EventKind::Down => 1,
            EventKind::Up => 2,
        }
    }
}

/// What a raw message code maps to: the abstract kind for the five
/// recognized codes, nothing for every other code.
pub open spec fn translate_spec(msg: u32) -> Option<EventKind> {
    if msg == MSG_MOVE {
        Some(EventKind::Move)
    } else if msg == MSG_PRIMARY_DOWN || msg == MSG_SECONDARY_DOWN {
        Some(EventKind::Down)
    } else if msg == MSG_PRIMARY_UP || msg == MSG_SECONDARY_UP {
        Some(EventKind::Up)
    } else {
        None
    }
}

/// Maps a raw message code to its abstract event kind, or `None`
/// for a code the subsystem does not recognize.
pub fn translate(msg: u32) -> (r: Option<EventKind>)
    ensures
        r == translate_spec(msg),
{
    if msg == MSG_MOVE {
        Some(EventKind::Move)
    } else if msg == MSG_PRIMARY_DOWN || msg == MSG_SECONDARY_DOWN {
        Some(EventKind::Down)
    } else if msg == MSG_PRIMARY_UP || msg == MSG_SECONDARY_UP {
        Some(EventKind::Up)
    } else {
        None
    }
}

} // verus!
