//! The keypad: sixteen keys, of which at most one is held down at a time.

use vstd::prelude::*;

verus! {

/// The latch that holds the key which is down, if one is.
pub struct Keypad {
    key_pressed: Option<u8>,
}

impl Keypad {
    /// The key that is held down, if any.
    pub closed spec fn view(&self) -> Option<u8> {
        self.key_pressed
    }

    pub fn new() -> (keypad: Keypad)
        ensures
            keypad@ == None::<u8>,
    {
        Keypad { key_pressed: None }
    }

    pub fn get_pressed_key(&self) -> (key: Option<u8>)
        ensures
            key == self@,
    {
        self.key_pressed
    }

    /// Latches `key` as it is given; the codes of the sixteen keys are 0 to 15.
    pub fn set_pressed_key(&mut self, key: Option<u8>)
        ensures
            final(self)@ == key,
    {
        self.key_pressed = key
    }

    pub fn is_key_pressed(&self, key_code: u8) -> (pressed: bool)
        ensures
            pressed == (self@ == Some(key_code)),
    {
        match self.key_pressed {
            Some(k) => k == key_code,
            _ => false,
        }
    }
}

} // verus!
