//! Input manager: a single-writer, single-reader queue between the window
//! procedure and the render loop.
//!
//! The window-message handler is the sole writer: each raw message is
//! classified and either appended as a discrete event (replayed in order on
//! the next collection) while state that must stay coherent across skipped
//! frames — cursor position, modifier keys, focus — is updated immediately.
//! The frame orchestrator is the sole reader: it drains the queue exactly
//! once per frame, leaving it empty.  Writer and reader are serialized by
//! the host's single message-and-render thread; that discipline is the
//! host's to keep, not enforced here.

use vstd::prelude::*;

verus! {

pub const WM_SETFOCUS: u32 = 0x0007;

pub const WM_KILLFOCUS: u32 = 0x0008;

pub const WM_KEYDOWN: u32 = 0x0100;

pub const WM_KEYUP: u32 = 0x0101;

pub const WM_CHAR: u32 = 0x0102;

pub const WM_MOUSEMOVE: u32 = 0x0200;

pub const WM_LBUTTONDOWN: u32 = 0x0201;

pub const WM_LBUTTONUP: u32 = 0x0202;

pub const WM_RBUTTONDOWN: u32 = 0x0204;

pub const WM_RBUTTONUP: u32 = 0x0205;

pub const WM_MBUTTONDOWN: u32 = 0x0207;

pub const WM_MBUTTONUP: u32 = 0x0208;

pub const WM_MOUSEWHEEL: u32 = 0x020A;

/// Virtual-key code of the shift key.
pub const VK_SHIFT: u32 = 0x10;

/// Virtual-key code of the control key.
pub const VK_CONTROL: u32 = 0x11;

/// Virtual-key code of the alt key.
pub const VK_MENU: u32 = 0x12;

/// A mouse button the toolkit knows about.
#[derive(Clone, Copy, PartialEq, Eq, Structural, Debug)]
pub enum MouseButton {
    Left,
    Right,
    Middle,
}

/// One discrete input event in the toolkit's model.
#[derive(Clone, Copy, PartialEq, Eq, Structural, Debug)]
pub enum InputEvent {
    MouseMove { x: i32, y: i32 },
    Button { button: MouseButton, down: bool, x: i32, y: i32 },
    Wheel { delta: i32 },
    Key { code: u32, down: bool },
    Character { code: u32 },
    Focus { gained: bool },
}

/// Whether the GUI consumed a window message; the host forwards ignored
/// messages to its own handler.
#[derive(Clone, Copy, PartialEq, Eq, Structural, Debug)]
pub enum InputResult {
    Consumed,
    Ignored,
}

/// The signed horizontal pixel coordinate packed into a message's `lparam`.
pub open spec fn coord_x_spec(lparam: u64) -> i32 {
    (lparam & 0xFFFF) as u16 as i16 as i32
}

/// The signed vertical pixel coordinate packed into a message's `lparam`.
pub open spec fn coord_y_spec(lparam: u64) -> i32 {
    ((lparam >> 16) & 0xFFFF) as u16 as i16 as i32
}

/// The signed wheel delta packed into a message's `wparam`.
pub open spec fn wheel_delta_spec(wparam: u64) -> i32 {
    ((wparam >> 16) & 0xFFFF) as u16 as i16 as i32
}

/// The event a raw window message stands for, if the GUI consumes that
/// message class at all.
pub open spec fn classify_spec(msg: u32, wparam: u64, lparam: u64) -> Option<InputEvent> {
    if msg == WM_MOUSEMOVE {
        Some(InputEvent::MouseMove { x: coord_x_spec(lparam), y: coord_y_spec(lparam) })
    } else if msg == WM_LBUTTONDOWN || msg == WM_LBUTTONUP {
        Some(
            InputEvent::Button {
                button: MouseButton::Left,
                down: msg == WM_LBUTTONDOWN,
                x: coord_x_spec(lparam),
                y: coord_y_spec(lparam),
            },
        )
    } else if msg == WM_RBUTTONDOWN || msg == WM_RBUTTONUP {
        Some(
            InputEvent::Button {
                button: MouseButton::Right,
                down: msg == WM_RBUTTONDOWN,
                x: coord_x_spec(lparam),
                y: coord_y_spec(lparam),
            },
        )
    } else if msg == WM_MBUTTONDOWN || msg == WM_MBUTTONUP {
        Some(
            InputEvent::Button {
                button: MouseButton::Middle,
                down: msg == WM_MBUTTONDOWN,
                x: coord_x_spec(lparam),
                y: coord_y_spec(lparam),
            },
        )
    } else if msg == WM_MOUSEWHEEL {
        Some(InputEvent::Wheel { delta: wheel_delta_spec(wparam) })
    } else if msg == WM_KEYDOWN || msg == WM_KEYUP {
        Some(InputEvent::Key { code: (wparam & 0xFFFF_FFFF) as u32, down: msg == WM_KEYDOWN })
    } else if msg == WM_CHAR {
        Some(InputEvent::Character { code: (wparam & 0xFFFF_FFFF) as u32 })
    } else if msg == WM_SETFOCUS || msg == WM_KILLFOCUS {
        Some(InputEvent::Focus { gained: msg == WM_SETFOCUS })
    } else {
        None
    }
}

/// The input drained for one frame: the discrete events in arrival order
/// and the coherent immediate state.
pub struct CollectedInput {
    pub events: Vec<InputEvent>,
    pub cursor_x: i32,
    pub cursor_y: i32,
    pub focused: bool,
    pub shift_down: bool,
    pub ctrl_down: bool,
    pub alt_down: bool,
}

/// The process-wide input buffer: discrete events plus immediate state.
pub struct InputManager {
    pub events: Vec<InputEvent>,
    pub cursor_x: i32,
    pub cursor_y: i32,
    pub focused: bool,
    pub shift_down: bool,
    pub ctrl_down: bool,
    pub alt_down: bool,
}

impl InputManager {
    /// A fresh buffer: no events, cursor at the origin, nothing pressed.
    pub fn new() -> (r: InputManager)
        ensures
            r.events@.len() == 0,
            r.cursor_x == 0 && r.cursor_y == 0,
            !r.focused && !r.shift_down && !r.ctrl_down && !r.alt_down,
    {
        InputManager {
            events: Vec::new(),
            cursor_x: 0,
            cursor_y: 0,
            focused: false,
            shift_down: false,
            ctrl_down: false,
            alt_down: false,
        }
    }

    /// Classifies one raw window message.  A consumed message appends its
    /// event to the queue — arrival order is kept — and updates the
    /// immediate state; an unknown message changes nothing and is passed
    /// through.
    pub fn process(&mut self, msg: u32, wparam: u64, lparam: u64) -> (r: InputResult)
        ensures
            ({
                let ev = classify_spec(msg, wparam, lparam);
                if ev.is_some() {
                    &&& r == InputResult::Consumed
                    &&& final(self).events@ == old(self).events@.push(ev.unwrap())
                    &&& final(self).cursor_x == (match ev.unwrap() {
                        InputEvent::MouseMove { x, .. } => x,
                        InputEvent::Button { x, .. } => x,
                        _ => old(self).cursor_x,
                    })
                    &&& final(self).cursor_y == (match ev.unwrap() {
                        InputEvent::MouseMove { y, .. } => y,
                        InputEvent::Button { y, .. } => y,
                        _ => old(self).cursor_y,
                    })
                    &&& final(self).focused == (match ev.unwrap() {
                        InputEvent::Focus { gained } => gained,
                        _ => old(self).focused,
                    })
                    &&& final(self).shift_down == (match ev.unwrap() {
                        InputEvent::Key { code, down } => if code == VK_SHIFT {
                            down
                        } else {
                            old(self).shift_down
                        },
                        _ => old(self).shift_down,
                    })
                    &&& final(self).ctrl_down == (match ev.unwrap() {
                        InputEvent::Key { code, down } => if code == VK_CONTROL {
                            down
                        } else {
                            old(self).ctrl_down
                        },
                        _ => old(self).ctrl_down,
                    })
                    &&& final(self).alt_down == (match ev.unwrap() {
                        InputEvent::Key { code, down } => if code == VK_MENU {
                            down
                        } else {
                            old(self).alt_down
                        },
                        _ => old(self).alt_down,
                    })
                } else {
                    r == InputResult::Ignored && *final(self) == *old(self)
                }
            }),
    {
        let x: i32 = (lparam & 0xFFFF) as u16 as i16 as i32;
        let y: i32 = ((lparam >> 16) & 0xFFFF) as u16 as i16 as i32;
        if msg == WM_MOUSEMOVE {
            self.cursor_x = x;
            self.cursor_y = y;
            self.events.push(InputEvent::MouseMove { x, y });
            InputResult::Consumed
        } else if msg == WM_LBUTTONDOWN || msg == WM_LBUTTONUP {
            self.cursor_x = x;
            self.cursor_y = y;
            self.events.push(
                InputEvent::Button {
                    button: MouseButton::Left,
                    down: msg == WM_LBUTTONDOWN,
                    x,
                    y,
                },
            );
            InputResult::Consumed
        } else if msg == WM_RBUTTONDOWN || msg == WM_RBUTTONUP {
            self.cursor_x = x;
            self.cursor_y = y;
            self.events.push(
                InputEvent::Button {
                    button: MouseButton::Right,
                    down: msg == WM_RBUTTONDOWN,
                    x,
                    y,
                },
            );
            InputResult::Consumed
        } else if msg == WM_MBUTTONDOWN || msg == WM_MBUTTONUP {
            self.cursor_x = x;
            self.cursor_y = y;
            self.events.push(
                InputEvent::Button {
                    button: MouseButton::Middle,
                    down: msg == WM_MBUTTONDOWN,
                    x,
                    y,
                },
            );
            InputResult::Consumed
        } else if msg == WM_MOUSEWHEEL {
            let delta: i32 = ((wparam >> 16) & 0xFFFF) as u16 as i16 as i32;
            self.events.push(InputEvent::Wheel { delta });
            InputResult::Consumed
        } else if msg == WM_KEYDOWN || msg == WM_KEYUP {
            let code: u32 = (wparam & 0xFFFF_FFFF) as u32;
            let down = msg == WM_KEYDOWN;
            if code == VK_SHIFT {
                self.shift_down = down;
            } else if code == VK_CONTROL {
                self.ctrl_down = down;
            } else if code == VK_MENU {
                self.alt_down = down;
            }
            self.events.push(InputEvent::Key { code, down });
            InputResult::Consumed
        } else if msg == WM_CHAR {
            let code: u32 = (wparam & 0xFFFF_FFFF) as u32;
            self.events.push(InputEvent::Character { code });
            InputResult::Consumed
        } else if msg == WM_SETFOCUS || msg == WM_KILLFOCUS {
            self.focused = msg == WM_SETFOCUS;
            self.events.push(InputEvent::Focus { gained: msg == WM_SETFOCUS });
            InputResult::Consumed
        } else {
            InputResult::Ignored
        }
    }

    /// Drains the queue for one frame: hands the accumulated events out in
    /// arrival order together with the immediate state, and leaves the
    /// queue empty.  The immediate state itself is kept.
    pub fn collect_input(&mut self) -> (r: CollectedInput)
        ensures
            r.events@ == old(self).events@,
            final(self).events@.len() == 0,
            r.cursor_x == old(self).cursor_x && final(self).cursor_x == old(self).cursor_x,
            r.cursor_y == old(self).cursor_y && final(self).cursor_y == old(self).cursor_y,
            r.focused == old(self).focused && final(self).focused == old(self).focused,
            r.shift_down == old(self).shift_down && final(self).shift_down == old(
                self,
            ).shift_down,
            r.ctrl_down == old(self).ctrl_down && final(self).ctrl_down == old(self).ctrl_down,
            r.alt_down == old(self).alt_down && final(self).alt_down == old(self).alt_down,
    {
        let mut events: Vec<InputEvent> = Vec::new();
        core::mem::swap(&mut events, &mut self.events);
        CollectedInput {
            events,
            cursor_x: self.cursor_x,
            cursor_y: self.cursor_y,
            focused: self.focused,
            shift_down: self.shift_down,
            ctrl_down: self.ctrl_down,
            alt_down: self.alt_down,
        }
    }
}

} // verus!
