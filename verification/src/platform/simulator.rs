//! The desktop backend: key codes of the windowing system and the rules by
//! which a window event becomes a key event, a request to stop, or nothing.

use vstd::prelude::*;
use crate::input::{Key, KeyEvent};
use crate::platform::Size;

verus! {

/// Width of the window's surface unless configured otherwise.
pub const DISPLAY_WIDTH: u32 = 640;
/// Height of the window's surface unless configured otherwise.
pub const DISPLAY_HEIGHT: u32 = 480;
/// How long to sleep, in milliseconds, when no window event is pending.
pub const IDLE_SLEEP_MILLIS: u64 = 10;

pub const KEYCODE_BACKSPACE: i32 = 8;
pub const KEYCODE_TAB: i32 = 9;
pub const KEYCODE_RETURN: i32 = 13;
pub const KEYCODE_ESCAPE: i32 = 27;
pub const KEYCODE_SPACE: i32 = 32;
pub const KEYCODE_E: i32 = 101;
/// The key that closes the window.
pub const KEYCODE_Q: i32 = 113;
pub const KEYCODE_T: i32 = 116;
pub const KEYCODE_RIGHT: i32 = 1073741903;
pub const KEYCODE_LEFT: i32 = 1073741904;
pub const KEYCODE_DOWN: i32 = 1073741905;
pub const KEYCODE_UP: i32 = 1073741906;
pub const KEYCODE_POWER: i32 = 1073741926;
pub const KEYCODE_LCTRL: i32 = 1073742048;
pub const KEYCODE_LSHIFT: i32 = 1073742049;
pub const KEYCODE_LALT: i32 = 1073742050;
pub const KEYCODE_LGUI: i32 = 1073742051;
pub const KEYCODE_RCTRL: i32 = 1073742052;
pub const KEYCODE_RGUI: i32 = 1073742055;

/// The keycodes that stand for a button of the device.
pub open spec fn in_table(keycode: i32) -> bool {
    keycode == 8 || keycode == 9 || keycode == 13 || keycode == 27 || keycode == 32 || keycode
        == 101 || keycode == 116 || (1073741903 <= keycode <= 1073741906) || keycode
        == 1073741926 || (1073742048 <= keycode <= 1073742052) || keycode == 1073742055
}

/// The button behind a keycode of the window; `Unknown` for every other
/// keycode.
pub open spec fn key_of(keycode: i32) -> Key {
    match keycode {
        1073741906 => Key::Up,
        1073741905 => Key::Down,
        1073741904 => Key::Left,
        1073741903 => Key::Right,
        32 => Key::A,
        1073742048 => Key::B,
        1073742049 => Key::X,
        1073742050 => Key::Y,
        13 => Key::Start,
        1073742052 => Key::Select,
        101 => Key::L,
        116 => Key::R,
        27 => Key::Menu,
        9 => Key::L2,
        8 => Key::R2,
        1073741926 => Key::Power,
        1073742051 => Key::VolDown,
        1073742055 => Key::VolUp,
        _ => Key::Unknown,
    }
}

/// Translates a keycode of the window.
pub fn translate(keycode: i32) -> (key: Key)
    ensures
        key == key_of(keycode),
        !in_table(keycode) ==> key == Key::Unknown,
        in_table(keycode) ==> key != Key::Unknown,
{
    if keycode == KEYCODE_UP {
        Key::Up
    } else if keycode == KEYCODE_DOWN {
        Key::Down
    } else if keycode == KEYCODE_LEFT {
        Key::Left
    } else if keycode == KEYCODE_RIGHT {
        Key::Right
    } else if keycode == KEYCODE_SPACE {
        Key::A
    } else if keycode == KEYCODE_LCTRL {
        Key::B
    } else if keycode == KEYCODE_LSHIFT {
        Key::X
    } else if keycode == KEYCODE_LALT {
        Key::Y
    } else if keycode == KEYCODE_RETURN {
        Key::Start
    } else if keycode == KEYCODE_RCTRL {
        Key::Select
    } else if keycode == KEYCODE_E {
        Key::L
    } else if keycode == KEYCODE_T {
        Key::R
    } else if keycode == KEYCODE_ESCAPE {
        Key::Menu
    } else if keycode == KEYCODE_TAB {
        Key::L2
    } else if keycode == KEYCODE_BACKSPACE {
        Key::R2
    } else if keycode == KEYCODE_POWER {
        Key::Power
    } else if keycode == KEYCODE_LGUI {
        Key::VolDown
    } else if keycode == KEYCODE_RGUI {
        Key::VolUp
    } else {
        Key::Unknown
    }
}

/// A keycode translates to `Unknown` exactly when the table does not list it.
pub proof fn lemma_unknown_iff_absent(keycode: i32)
    ensures
        key_of(keycode) == Key::Unknown <==> !in_table(keycode),
{
}

/// No two keycodes of the table name the same button.
pub proof fn lemma_table_injective(a: i32, b: i32)
    requires
        in_table(a),
        key_of(a) == key_of(b),
    ensures
        a == b,
{
}

/// What the window reports, as plain values.
#[derive(Debug, Clone, Copy, PartialEq, Eq, Structural)]
pub enum WindowEvent {
    /// A key went down; `repeat` is set while it is held.
    KeyDown { keycode: i32, repeat: bool },
    /// A key went up.
    KeyUp { keycode: i32 },
    /// The window was closed.
    Quit,
    /// Anything else, such as the mouse.
    Other,
}

/// What the event source does next.
#[derive(Debug, Clone, Copy, PartialEq, Eq, Structural)]
pub enum Polled {
    /// Hand this event to the caller.
    Event(KeyEvent),
    /// Stop the whole program.
    Terminate,
    /// Drop what was read and read again at once.
    Skip,
    /// Nothing is pending: sleep for `IDLE_SLEEP_MILLIS`, then read again.
    Idle,
}

/// What becomes of the next entry of the window's event queue.
pub open spec fn decided(pending: Option<WindowEvent>) -> Polled {
    match pending {
        None => Polled::Idle,
        Some(WindowEvent::Quit) => Polled::Terminate,
        Some(WindowEvent::Other) => Polled::Skip,
        Some(WindowEvent::KeyUp { keycode }) => Polled::Event(KeyEvent::Released(key_of(keycode))),
        Some(WindowEvent::KeyDown { keycode, repeat }) => if keycode == KEYCODE_Q {
            Polled::Terminate
        } else if repeat {
            Polled::Event(KeyEvent::Autorepeat(key_of(keycode)))
        } else {
            Polled::Event(KeyEvent::Pressed(key_of(keycode)))
        },
    }
}

/// The desktop backend: the size of its surface and its event rules.
pub struct Platform {
    pub size: Size,
}

impl Platform {
    /// A backend with the default surface of 640 by 480 pixels.
    pub fn new() -> (platform: Platform)
        ensures
            platform.size == (Size { width: DISPLAY_WIDTH, height: DISPLAY_HEIGHT }),
    {
        Platform { size: Size { width: DISPLAY_WIDTH, height: DISPLAY_HEIGHT } }
    }

    /// Decides what becomes of the next entry of the window's event queue;
    /// `None` says that the queue is empty.
    pub fn poll(&self, pending: Option<WindowEvent>) -> (next: Polled)
        ensures
            next == decided(pending),
    {
        match pending {
            None => Polled::Idle,
            Some(WindowEvent::Quit) => Polled::Terminate,
            Some(WindowEvent::Other) => Polled::Skip,
            Some(WindowEvent::KeyUp { keycode }) => Polled::Event(
                KeyEvent::Released(translate(keycode)),
            ),
            Some(WindowEvent::KeyDown { keycode, repeat }) => {
                if keycode == KEYCODE_Q {
                    Polled::Terminate
                } else if repeat {
                    Polled::Event(KeyEvent::Autorepeat(translate(keycode)))
                } else {
                    Polled::Event(KeyEvent::Pressed(translate(keycode)))
                }
            },
        }
    }
}

} // verus!
