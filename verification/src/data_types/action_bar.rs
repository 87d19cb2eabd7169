//! The character's action bars as raw bytes: four bytes for each of 144
//! buttons.

use vstd::prelude::*;

verus! {

/// The number of bytes of one button.
pub const SIZEPERSLOT: usize = 4;

/// The number of buttons.
pub const MAXSLOTS: usize = 144;

/// The action bars of a character, as raw bytes.
pub struct ActionBar {
    pub data: [u8; 576],
}

impl ActionBar {
    /// Action bars with every byte zero.
    pub fn new() -> (r: Self)
        ensures
            r.data@.len() == SIZEPERSLOT * MAXSLOTS,
            forall|i: int| 0 <= i < SIZEPERSLOT * MAXSLOTS ==> r.data@[i] == 0,
    {
        ActionBar { data: [0; 576] }
    }
}

} // verus!
