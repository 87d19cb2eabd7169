//! Account data: the client's saved settings, kept per account or per
//! character according to their type.

use vstd::prelude::*;

verus! {

/// The data types kept per account, as a bit mask over type numbers.
pub const GLOBAL_CACHE_MASK: u32 = 0x15;

/// The data types kept per character, as a bit mask over type numbers.
pub const PER_CHARACTER_CACHE_MASK: u32 = 0xea;

/// The number of account data types.
pub const NUM_ACCOUNT_DATA_TYPES: u32 = 8;

/// Whether data type `data_type` is in `mask`.
pub open spec fn in_mask(mask: u32, data_type: u32) -> bool {
    mask & (1u32 << data_type) != 0
}

/// The data types below `n` that are in `mask`, in increasing order.
pub open spec fn types_in_mask(mask: u32, n: u32) -> Seq<u8>
    decreases n,
{
    if n == 0 {
        Seq::empty()
    } else {
        let rest = types_in_mask(mask, (n - 1) as u32);
        if in_mask(mask, (n - 1) as u32) {
            rest.push((n - 1) as u8)
        } else {
            rest
        }
    }
}

/// The data types that `mask` names, in increasing order: the rows to
/// create for a new account or character.
pub fn account_data_types_for_mask(mask: u32) -> (r: Vec<u8>)
    ensures
        r@ == types_in_mask(mask, NUM_ACCOUNT_DATA_TYPES),
{
    let mut types: Vec<u8> = Vec::new();
    let mut i: u32 = 0;
    while i < NUM_ACCOUNT_DATA_TYPES
        invariant
            0 <= i <= NUM_ACCOUNT_DATA_TYPES,
            types@ == types_in_mask(mask, i),
        decreases NUM_ACCOUNT_DATA_TYPES - i,
    {
        if mask & (1u32 << i) != 0 {
            types.push(i as u8);
        }
        i = i + 1;
    }
    types
}

/// A stored row of account data: its type and when it was last saved.
#[derive(PartialEq, Eq, Structural, Clone, Copy, Debug)]
pub struct AccountDataTime {
    pub data_type: u8,
    pub time: u64,
}

/// The save times of the rows whose type is in `mask`, in their order, cut
/// to 32 bits as the client reads them.
pub open spec fn masked_times(mask: u32, rows: Seq<AccountDataTime>) -> Seq<u32>
    decreases rows.len(),
{
    if rows.len() == 0 {
        Seq::empty()
    } else {
        let rest = masked_times(mask, rows.drop_last());
        if in_mask(mask, rows.last().data_type as u32) {
            rest.push(rows.last().time as u32)
        } else {
            rest
        }
    }
}

/// The save times that the account data times message carries for
/// `mask`; see `masked_times`.
pub fn masked_account_data_times(mask: u32, rows: &Vec<AccountDataTime>) -> (r: Vec<u32>)
    requires
        forall|i: int| 0 <= i < rows@.len() ==> #[trigger] rows@[i].data_type < 32,
    ensures
        r@ == masked_times(mask, rows@),
{
    let mut times: Vec<u32> = Vec::new();
    let mut i: usize = 0;
    while i < rows.len()
        invariant
            0 <= i <= rows@.len(),
            forall|k: int| 0 <= k < rows@.len() ==> #[trigger] rows@[k].data_type < 32,
            times@ == masked_times(mask, rows@.take(i as int)),
        decreases rows@.len() - i,
    {
        let row = rows[i];
        assert(rows@.take(i + 1).drop_last() =~= rows@.take(i as int));
        let shift: u32 = row.data_type as u32;
        if mask & (1u32 << shift) != 0 {
            times.push(row.time as u32);
        }
        i = i + 1;
    }
    assert(rows@.take(rows@.len() as int) =~= rows@);
    times
}

/// Where account data of one type is kept for a client.
#[derive(PartialEq, Eq, Structural, Clone, Copy, Debug)]
pub enum AccountDataScope {
    /// With the account.
    Account,
    /// With the character the client plays.
    Character,
    /// Per character, but the client plays none.
    NoCharacter,
}

/// Where data of type `data_type` is kept: types of the global cache with
/// the account, others with the character the client plays.
pub fn account_data_scope(data_type: u32, has_active_character: bool) -> (r: AccountDataScope)
    requires
        data_type < 32,
    ensures
        in_mask(GLOBAL_CACHE_MASK, data_type) ==> r == AccountDataScope::Account,
        !in_mask(GLOBAL_CACHE_MASK, data_type) && has_active_character ==> r
            == AccountDataScope::Character,
        !in_mask(GLOBAL_CACHE_MASK, data_type) && !has_active_character ==> r
            == AccountDataScope::NoCharacter,
{
    let kept_with_account = (1u32 << data_type) & GLOBAL_CACHE_MASK != 0;
    proof {
        assert((1u32 << data_type) & GLOBAL_CACHE_MASK == GLOBAL_CACHE_MASK & (1u32 << data_type))
            by (bit_vector);
    }
    if kept_with_account {
        AccountDataScope::Account
    } else if has_active_character {
        AccountDataScope::Character
    } else {
        AccountDataScope::NoCharacter
    }
}

/// A stored account data row of one type: the size the data has once
/// decompressed, and its compressed bytes, which the store may lack.
pub struct StoredAccountData {
    pub decompressed_size: u32,
    pub data: Option<Vec<u8>>,
}

/// What a client asking for account data of one type is answered, as the
/// decompressed size and the compressed bytes: what is stored, or size 0
/// and no bytes when the row holds no data.
pub fn account_data_answer(stored: StoredAccountData) -> (r: (u32, Vec<u8>))
    ensures
        stored.data matches Some(bytes) ==> r.0 == stored.decompressed_size && r.1@ == bytes@,
        stored.data is None ==> r.0 == 0 && r.1@ == Seq::<u8>::empty(),
{
    match stored.data {
        Some(bytes) => (stored.decompressed_size, bytes),
        None => (0, Vec::new()),
    }
}

/// Each account data type is kept in exactly one place: with the account
/// or with the character.
pub proof fn lemma_cache_masks_partition_types(data_type: u32)
    requires
        data_type < NUM_ACCOUNT_DATA_TYPES,
    ensures
        in_mask(GLOBAL_CACHE_MASK, data_type) != in_mask(PER_CHARACTER_CACHE_MASK, data_type),
{
    assert(data_type < 8u32 ==> ((0x15u32 & (1u32 << data_type) != 0) != (0xeau32 & (1u32
        << data_type) != 0))) by (bit_vector);
}

} // verus!
