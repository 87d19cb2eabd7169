//! The character's action bars: 144 buttons.

use vstd::prelude::*;

verus! {

/// The number of action bar buttons.
pub const MAXSLOTS: usize = 144;

/// One action bar button: the action it triggers, its type and extra data.
#[derive(PartialEq, Eq, Structural, Clone, Copy, Debug, Default)]
pub struct ActionButton {
    pub action: u16,
    pub action_type: u8,
    pub misc: u8,
}

/// The action bars of a character.
pub struct ActionBar {
    pub data: [ActionButton; 144],
}

/// The button that holds nothing.
pub open spec fn empty_button() -> ActionButton {
    ActionButton { action: 0, action_type: 0, misc: 0 }
}

impl ActionBar {
    /// Action bars with every button empty.
    pub fn new() -> (r: Self)
        ensures
            forall|i: int| 0 <= i < MAXSLOTS ==> r.data@[i] == empty_button(),
    {
        let empty = ActionButton { action: 0, action_type: 0, misc: 0 };
        ActionBar { data: [empty; 144] }
    }
}

} // verus!
