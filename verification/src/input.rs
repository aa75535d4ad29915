//! The per-frame input snapshot: pointer position, edge-triggered press
//! and release flags, structural key presses and typed characters.

use vstd::prelude::*;

verus! {

/// The structural keys the toolkit reports as edge-triggered presses.
/// This fixed whitelist covers navigation only; characters typed are
/// captured separately so that text input is never double-handled as
/// navigation.
#[derive(Debug, Clone, Copy, PartialEq, Eq, Structural)]
pub enum Key {
    Enter,
    Backspace,
    Tab,
    Left,
    Right,
    Up,
    Down,
}

/// One frame's input facts: pointer position, edge-triggered press and
/// release flags, the structural keys pressed this frame, and the
/// characters typed this frame. Built once per frame from the input
/// backend and read-only for the rest of the frame.
#[derive(Debug, Clone)]
pub struct Input {
    pub mouse_x: i32,
    pub mouse_y: i32,
    pub mouse_pressed: bool,
    pub mouse_released: bool,
    pub keys_pressed: Vec<Key>,
    pub chars_pressed: Vec<char>,
}

impl Input {
    /// Create an empty input snapshot: pointer at the origin, no edges,
    /// no keys, no characters.
    pub fn new() -> (r: Input)
        ensures
            r.mouse_x == 0,
            r.mouse_y == 0,
            !r.mouse_pressed,
            !r.mouse_released,
            r.keys_pressed@ == Seq::<Key>::empty(),
            r.chars_pressed@ == Seq::<char>::empty(),
    {
        Input {
            mouse_x: 0,
            mouse_y: 0,
            mouse_pressed: false,
            mouse_released: false,
            keys_pressed: Vec::new(),
            chars_pressed: Vec::new(),
        }
    }

    /// Refill the snapshot from values polled off the input backend.
    pub fn update(
        &mut self,
        mouse_x: i32,
        mouse_y: i32,
        mouse_pressed: bool,
        mouse_released: bool,
        keys_pressed: Vec<Key>,
        chars_pressed: Vec<char>,
    )
        ensures
            *final(self) == (Input {
                mouse_x,
                mouse_y,
                mouse_pressed,
                mouse_released,
                keys_pressed,
                chars_pressed,
            }),
    {
        self.mouse_x = mouse_x;
        self.mouse_y = mouse_y;
        self.mouse_pressed = mouse_pressed;
        self.mouse_released = mouse_released;
        self.keys_pressed = keys_pressed;
        self.chars_pressed = chars_pressed;
    }
}

impl Default for Input {
    fn default() -> (r: Input)
        ensures
            r.mouse_x == 0,
            r.mouse_y == 0,
            !r.mouse_pressed,
            !r.mouse_released,
            r.keys_pressed@ == Seq::<Key>::empty(),
            r.chars_pressed@ == Seq::<char>::empty(),
    {
        Input::new()
    }
}

} // verus!
