//! The conventional mapping of a keyboard onto the hexadecimal pad.
//!
//! ```text
//!   keyboard      pad
//!   1 2 3 4       1 2 3 C
//!   q w e r       4 5 6 D
//!   a s d f       7 8 9 E
//!   z x c v       A 0 B F
//! ```

use vstd::prelude::*;
use crate::cpu::CPU;

verus! {

/// The keyboard key for each key of the pad, by the number of the pad key.
pub const KEY_LAYOUT: [char; 16] = [
    'x', '1', '2', '3', 'q', 'w', 'e', 'a', 's', 'd', 'z', 'c', '4', 'r', 'f', 'v',
];

/// Whether `key` stands for a key of the pad.
pub open spec fn is_mapped(key: char) -> bool {
    exists|index: int| 0 <= index < 16 && KEY_LAYOUT@[index] == key
}

/// The number of the pad key that `key` stands for.
pub open spec fn mapped_index(key: char) -> int {
    choose|index: int| 0 <= index < 16 && KEY_LAYOUT@[index] == key
}

/// No keyboard key stands for two keys of the pad.
pub proof fn lemma_layout_is_injective(a: int, b: int)
    requires
        0 <= a < 16,
        0 <= b < 16,
        KEY_LAYOUT@[a] == KEY_LAYOUT@[b],
    ensures
        a == b,
{
}

/// The number of the pad key that the keyboard key `key` stands for, or
/// `None` where it stands for none.
pub fn keypad_index(key: char) -> (index: Option<usize>)
    ensures
        index is Some <==> is_mapped(key),
        index matches Some(found) ==> found < 16 && KEY_LAYOUT@[found as int] == key && found
            == mapped_index(key),
{
    let mut index: usize = 0;
    while index < 16
        invariant
            index <= 16,
            forall|j: int| 0 <= j < index ==> KEY_LAYOUT@[j] != key,
        decreases 16 - index,
    {
        if KEY_LAYOUT[index] == key {
            proof {
                lemma_layout_is_injective(index as int, mapped_index(key));
            }
            return Some(index);
        }
        index += 1;
    }
    None
}

impl CPU {
    /// Takes a key event of the keyboard: the pad key that `key` stands for
    /// is held down (`pressed`) or released. A key that stands for none
    /// changes nothing. Says whether the key stood for one.
    pub fn handle_key(&mut self, key: char, pressed: bool) -> (mapped: bool)
        ensures
            mapped == is_mapped(key),
            mapped ==> final(self)@ == old(self)@.set_key(mapped_index(key), pressed),
            !mapped ==> final(self)@ == old(self)@,
    {
        match keypad_index(key) {
            Some(index) => {
                self.set_key_at_index(index, pressed);
                true
            },
            None => false,
        }
    }
}

} // verus!
