//! The spells a character knows when it enters the world.

use crate::wire::{le_bytes_u16, le_bytes_u32, put_u16_le, put_u32_le, put_u8};
use vstd::prelude::*;

verus! {

/// The first of the spells every character is given to start with.
pub const FIRST_INITIAL_SPELL: u32 = 70282;

/// How many spells every character is given to start with.
pub const NUM_INITIAL_SPELLS: u16 = 2;

/// The entry of spell `spell_id` in the initial spells list: its id and a
/// zero.
pub open spec fn spell_entry_bytes(spell_id: u32) -> Seq<u8> {
    le_bytes_u32(spell_id) + le_bytes_u16(0)
}

/// The entries of the first `n` initial spells, numbered from
/// `FIRST_INITIAL_SPELL` on.
pub open spec fn initial_spell_entries(n: nat) -> Seq<u8>
    decreases n,
{
    if n == 0 {
        Seq::empty()
    } else {
        initial_spell_entries((n - 1) as nat) + spell_entry_bytes((FIRST_INITIAL_SPELL + n - 1) as u32)
    }
}

/// The body of the initial spells message: a zero byte, the number of
/// spells, their entries, and no cooldowns.
pub open spec fn initial_spells_bytes() -> Seq<u8> {
    seq![0u8] + le_bytes_u16(NUM_INITIAL_SPELLS) + initial_spell_entries(NUM_INITIAL_SPELLS as nat)
        + le_bytes_u16(0)
}

/// The body of the initial spells message; see `initial_spells_bytes`.
pub fn write_initial_spells() -> (r: Vec<u8>)
    ensures
        r@ == initial_spells_bytes(),
{
    let mut buf: Vec<u8> = Vec::new();
    put_u8(&mut buf, 0);
    put_u16_le(&mut buf, NUM_INITIAL_SPELLS);
    let mut i: u16 = 0;
    while i < NUM_INITIAL_SPELLS
        invariant
            0 <= i <= NUM_INITIAL_SPELLS,
            buf@ == seq![0u8] + le_bytes_u16(NUM_INITIAL_SPELLS) + initial_spell_entries(i as nat),
        decreases NUM_INITIAL_SPELLS - i,
    {
        put_u32_le(&mut buf, FIRST_INITIAL_SPELL + i as u32);
        put_u16_le(&mut buf, 0);
        assert(buf@ =~= seq![0u8] + le_bytes_u16(NUM_INITIAL_SPELLS) + initial_spell_entries(
            (i + 1) as nat,
        ));
        i = i + 1;
    }
    put_u16_le(&mut buf, 0);
    assert(buf@ =~= initial_spells_bytes());
    buf
}

} // verus!
