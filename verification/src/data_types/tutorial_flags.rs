//! The tutorial flags of a character as the 32 bytes the client sends.

use vstd::prelude::*;

verus! {

/// The tutorial flags of a character, as 32 bytes.
pub struct TutorialFlags {
    pub flag_data: [u8; 32],
}

impl TutorialFlags {
    /// The flags held by 32 bytes.
    pub fn from_array(data: [u8; 32]) -> (r: Self)
        ensures
            r.flag_data@ == data@,
    {
        TutorialFlags { flag_data: data }
    }

    /// The flags stored with a character: its tutorial data when it holds
    /// exactly 32 bytes, and no flag set otherwise.
    pub fn from_database_entry(tutorial_data: &[u8]) -> (r: Self)
        ensures
            tutorial_data@.len() == 32 ==> r.flag_data@ == tutorial_data@,
            tutorial_data@.len() != 32 ==> r.flag_data@ == Seq::new(32, |i: int| 0u8),
    {
        let mut flag_data = [0u8; 32];
        if tutorial_data.len() == 32 {
            let mut i: usize = 0;
            while i < 32
                invariant
                    tutorial_data@.len() == 32,
                    0 <= i <= 32,
                    forall|j: int| 0 <= j < i ==> flag_data@[j] == tutorial_data@[j],
                decreases 32 - i,
            {
                flag_data[i] = tutorial_data[i];
                i = i + 1;
            }
            assert(flag_data@ =~= tutorial_data@);
        } else {
            assert(flag_data@ =~= Seq::new(32, |i: int| 0u8));
        }
        TutorialFlags { flag_data }
    }
}

} // verus!
