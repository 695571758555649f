//! Input bookkeeping: which keys and mouse buttons are held, which were
//! pressed since the last frame, and where the cursor is.
//!
//! Keys and buttons are plain numbers. The core itself reads the two mouse
//! buttons and the keys `KEY_B` and `KEY_SPACE`; every other number is free
//! for the caller.

use std::collections::HashSet;
use vstd::prelude::*;

verus! {

broadcast use vstd::std_specs::hash::group_hash_axioms;

/// The key that pauses and resumes the simulation.
pub const KEY_B: u32 = 66;

/// The key that resets the grid.
pub const KEY_SPACE: u32 = 32;

/// The mouse button that paints.
pub const MOUSE_LEFT: u32 = 0;

/// The mouse button that erases.
pub const MOUSE_RIGHT: u32 = 1;

/// What the window reports, as far as the bookkeeping reads it.
#[derive(Clone, Copy, Debug, PartialEq, Eq, Structural)]
pub enum InputEvent {
    /// A key went down.
    KeyPressed { key: u32 },
    /// A key came up.
    KeyReleased { key: u32 },
    /// A mouse button went down.
    MousePressed { button: u32 },
    /// A mouse button came up.
    MouseReleased { button: u32 },
    /// The cursor moved to a position of the window, in pixels.
    CursorMoved { x: i32, y: i32 },
    /// Any other event.
    Other,
}

/// The bookkeeping as a plain value.
pub ghost struct Inputs {
    /// The keys that are held.
    pub keys_held: Set<u32>,
    /// The keys that went down since the last reset.
    pub keys_pressed: Set<u32>,
    /// The mouse buttons that are held.
    pub buttons_held: Set<u32>,
    /// The mouse buttons that went down since the last reset.
    pub buttons_pressed: Set<u32>,
    /// The cursor's position in the window, in pixels.
    pub cursor: (i32, i32),
}

impl Inputs {
    /// The bookkeeping once `event` has been taken in. A key or button that
    /// goes down is held and counts as pressed; one that comes up is no
    /// longer held, and still counts as pressed if it did.
    pub open spec fn after(self, event: InputEvent) -> Inputs {
        match event {
            InputEvent::KeyPressed { key } => Inputs {
                keys_held: self.keys_held.insert(key),
                keys_pressed: self.keys_pressed.insert(key),
                ..self
            },
            InputEvent::KeyReleased { key } => Inputs {
                keys_held: self.keys_held.remove(key),
                ..self
            },
            InputEvent::MousePressed { button } => Inputs {
                buttons_held: self.buttons_held.insert(button),
                buttons_pressed: self.buttons_pressed.insert(button),
                ..self
            },
            InputEvent::MouseReleased { button } => Inputs {
                buttons_held: self.buttons_held.remove(button),
                ..self
            },
            InputEvent::CursorMoved { x, y } => Inputs { cursor: (x, y), ..self },
            InputEvent::Other => self,
        }
    }

    /// The bookkeeping at the start of the next frame: nothing counts as
    /// pressed any more; what is held stays held.
    pub open spec fn cleared(self) -> Inputs {
        Inputs { keys_pressed: Set::empty(), buttons_pressed: Set::empty(), ..self }
    }
}

/// The keys and buttons that are down and the cursor's position.
pub struct InputManager {
    currently_pressed: HashSet<u32>,
    just_pressed: HashSet<u32>,
    mouse_currently_pressed: HashSet<u32>,
    mouse_just_pressed: HashSet<u32>,
    mouse_screen_pos: (i32, i32),
}

impl View for InputManager {
    type V = Inputs;

    closed spec fn view(&self) -> Inputs {
        Inputs {
            keys_held: self.currently_pressed@,
            keys_pressed: self.just_pressed@,
            buttons_held: self.mouse_currently_pressed@,
            buttons_pressed: self.mouse_just_pressed@,
            cursor: self.mouse_screen_pos,
        }
    }
}

impl InputManager {
    /// Nothing is held, nothing was pressed, the cursor is at the origin.
    pub fn new() -> (manager: Self)
        ensures
            manager@ == (Inputs {
                keys_held: Set::empty(),
                keys_pressed: Set::empty(),
                buttons_held: Set::empty(),
                buttons_pressed: Set::empty(),
                cursor: (0i32, 0i32),
            }),
    {
        Self {
            currently_pressed: HashSet::new(),
            just_pressed: HashSet::new(),
            mouse_currently_pressed: HashSet::new(),
            mouse_just_pressed: HashSet::new(),
            mouse_screen_pos: (0, 0),
        }
    }

    /// Takes in one event.
    pub fn process_event(&mut self, event: &InputEvent)
        ensures
            final(self)@ == old(self)@.after(*event),
    {
        match *event {
            InputEvent::KeyPressed { key } => {
                self.currently_pressed.insert(key);
                self.just_pressed.insert(key);
            },
            InputEvent::KeyReleased { key } => {
                self.currently_pressed.remove(&key);
            },
            InputEvent::MousePressed { button } => {
                self.mouse_currently_pressed.insert(button);
                self.mouse_just_pressed.insert(button);
            },
            InputEvent::MouseReleased { button } => {
                self.mouse_currently_pressed.remove(&button);
            },
            InputEvent::CursorMoved { x, y } => {
                self.mouse_screen_pos = (x, y);
            },
            InputEvent::Other => {},
        }
    }

    /// Whether `key` is held.
    pub fn is_key_pressed(&self, key: u32) -> (r: bool)
        ensures
            r == self@.keys_held.contains(key),
    {
        self.currently_pressed.contains(&key)
    }

    /// Whether `key` went down since the last reset.
    pub fn is_key_just_pressed(&self, key: u32) -> (r: bool)
        ensures
            r == self@.keys_pressed.contains(key),
    {
        self.just_pressed.contains(&key)
    }

    /// Whether the mouse button `button` is held.
    pub fn is_mouse_key_pressed(&self, button: u32) -> (r: bool)
        ensures
            r == self@.buttons_held.contains(button),
    {
        self.mouse_currently_pressed.contains(&button)
    }

    /// Whether the mouse button `button` went down since the last reset.
    pub fn is_mouse_key_just_pressed(&self, button: u32) -> (r: bool)
        ensures
            r == self@.buttons_pressed.contains(button),
    {
        self.mouse_just_pressed.contains(&button)
    }

    /// The cursor's position in the window, in pixels.
    pub fn mouse_screen_pos(&self) -> (pos: (i32, i32))
        ensures
            pos == self@.cursor,
    {
        self.mouse_screen_pos
    }

    /// Ends the frame: nothing counts as pressed any more.
    pub fn reset(&mut self)
        ensures
            final(self)@ == old(self)@.cleared(),
    {
        self.just_pressed.clear();
        self.mouse_just_pressed.clear();
    }
}

} // verus!
