//! The 16-key input latch: maps host key identifiers to machine key
//! indices 0-15 and records pressed state plus the most recent key.

use vstd::prelude::*;

verus! {

/// A key transition reported by the environment.
#[derive(Clone, Copy, Debug, PartialEq, Eq, Structural)]
pub enum KeyEvent {
    KeyUp,
    KeyDown,
}

impl KeyEvent {
    /// Whether this event leaves the key held down.
    pub open spec fn spec_pressed(self) -> bool {
        self is KeyDown
    }

    /// Whether this event leaves the key held down.
    pub fn pressed(&self) -> (r: bool)
        ensures
            r == self.spec_pressed(),
    {
        match self {
            KeyEvent::KeyDown => true,
            KeyEvent::KeyUp => false,
        }
    }
}

/// Ghost image of the input latch: the 16 key states and the index of
/// the key touched most recently.
#[verifier::ext_equal]
pub ghost struct KeypadView {
    pub keys: Seq<bool>,
    pub last_pressed: u8,
}

/// The machine key index a host key identifier maps to, if any: the
/// conventional 4x4 layout of `1234` / `qwer` / `asdf` / `zxcv` over
/// the hexadecimal keypad. Unmapped identifiers map to nothing.
pub open spec fn spec_key_index(key: char) -> Option<u8> {
    if key == '1' {
        Some(0x1u8)
    } else if key == '2' {
        Some(0x2u8)
    } else if key == '3' {
        Some(0x3u8)
    } else if key == '4' {
        Some(0xCu8)
    } else if key == 'q' {
        Some(0x4u8)
    } else if key == 'w' {
        Some(0x5u8)
    } else if key == 'e' {
        Some(0x6u8)
    } else if key == 'r' {
        Some(0xDu8)
    } else if key == 'a' {
        Some(0x7u8)
    } else if key == 's' {
        Some(0x8u8)
    } else if key == 'd' {
        Some(0x9u8)
    } else if key == 'f' {
        Some(0xEu8)
    } else if key == 'z' {
        Some(0xAu8)
    } else if key == 'x' {
        Some(0x0u8)
    } else if key == 'c' {
        Some(0xBu8)
    } else if key == 'v' {
        Some(0xFu8)
    } else {
        None
    }
}

/// The 16-key input latch.
pub struct Keypad {
    /// Live pressed state of the 16 keys, indexed by machine key index.
    pub keys: Vec<bool>,
    /// Machine index of the key touched most recently.
    pub last_pressed: u8,
}

impl View for Keypad {
    type V = KeypadView;

    open spec fn view(&self) -> KeypadView {
        KeypadView { keys: self.keys@, last_pressed: self.last_pressed }
    }
}

impl Keypad {
    /// The latch always tracks exactly 16 keys.
    pub open spec fn wf(&self) -> bool {
        self.keys@.len() == 16
    }

    /// A latch with every key released.
    pub fn new() -> (r: Self)
        ensures
            r.wf(),
            r@.keys == Seq::new(16, |i: int| false),
            r@.last_pressed == 0,
    {
        let mut keys: Vec<bool> = Vec::new();
        let mut i: usize = 0;
        while i < 16
            invariant
                i <= 16,
                keys@.len() == i,
                forall|j: int| 0 <= j < i ==> !keys@[j],
            decreases 16 - i,
        {
            keys.push(false);
            i += 1;
        }
        proof {
            assert(keys@ =~= Seq::new(16, |i: int| false));
        }
        Keypad { keys, last_pressed: 0 }
    }

    /// Route a host key event into the latch. A mapped identifier sets
    /// that key's state from the event and records it as last touched;
    /// an unmapped identifier changes nothing. Returns whether the
    /// event was caught.
    pub fn key_event(&mut self, event: KeyEvent, key: char) -> (caught: bool)
        requires
            old(self).wf(),
        ensures
            final(self).wf(),
            caught == spec_key_index(key) is Some,
            (match spec_key_index(key) {
                Some(k) => final(self)@.keys == old(self)@.keys.update(
                    k as int,
                    event.spec_pressed(),
                ) && final(self)@.last_pressed == k,
                None => final(self)@ == old(self)@,
            }),
    {
        let k: usize = if key == '1' {
            0x1
        } else if key == '2' {
            0x2
        } else if key == '3' {
            0x3
        } else if key == '4' {
            0xC
        } else if key == 'q' {
            0x4
        } else if key == 'w' {
            0x5
        } else if key == 'e' {
            0x6
        } else if key == 'r' {
            0xD
        } else if key == 'a' {
            0x7
        } else if key == 's' {
            0x8
        } else if key == 'd' {
            0x9
        } else if key == 'f' {
            0xE
        } else if key == 'z' {
            0xA
        } else if key == 'x' {
            0x0
        } else if key == 'c' {
            0xB
        } else if key == 'v' {
            0xF
        } else {
            return false;
        };

        self.keys[k] = event.pressed();
        self.last_pressed = k as u8;
        true
    }
}

impl Default for Keypad {
    /// Same latch as `Keypad::new`: every key released.
    fn default() -> (r: Self)
        ensures
            r.wf(),
            r@.keys == Seq::new(16, |i: int| false),
            r@.last_pressed == 0,
    {
        Keypad::new()
    }
}

} // verus!
