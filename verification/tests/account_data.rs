use world_server::handlers::account_data_handler::{
    account_data_answer, account_data_scope, account_data_types_for_mask, StoredAccountData, masked_account_data_times, AccountDataScope, AccountDataTime,
    GLOBAL_CACHE_MASK, PER_CHARACTER_CACHE_MASK,
};

#[test]
fn cache_masks_name_their_data_types() {
    assert_eq!(account_data_types_for_mask(GLOBAL_CACHE_MASK), vec![0, 2, 4]);
    assert_eq!(account_data_types_for_mask(PER_CHARACTER_CACHE_MASK), vec![1, 3, 5, 6, 7]);
    assert_eq!(account_data_types_for_mask(0), Vec::<u8>::new());
    assert_eq!(account_data_types_for_mask(0xFFFF_FF00), Vec::<u8>::new());
}

#[test]
fn cache_masks_split_the_types() {
    for t in 0..8u32 {
        let global = account_data_scope(t, false) == AccountDataScope::Account;
        let per_character = PER_CHARACTER_CACHE_MASK & (1 << t) != 0;
        assert_ne!(global, per_character);
    }
}

#[test]
fn data_times_keep_the_rows_of_the_mask() {
    let rows = vec![
        AccountDataTime { data_type: 0, time: 100 },
        AccountDataTime { data_type: 1, time: 200 },
        AccountDataTime { data_type: 4, time: 0x1_0000_0005 },
        AccountDataTime { data_type: 31, time: 9 },
    ];
    assert_eq!(masked_account_data_times(GLOBAL_CACHE_MASK, &rows), vec![100, 5]);
    assert_eq!(masked_account_data_times(PER_CHARACTER_CACHE_MASK, &rows), vec![200]);
    assert_eq!(masked_account_data_times(0x8000_0000, &rows), vec![9]);
}

#[test]
fn account_data_is_kept_by_account_or_character() {
    assert_eq!(account_data_scope(0, false), AccountDataScope::Account);
    assert_eq!(account_data_scope(2, true), AccountDataScope::Account);
    assert_eq!(account_data_scope(1, true), AccountDataScope::Character);
    assert_eq!(account_data_scope(7, false), AccountDataScope::NoCharacter);
    assert_eq!(account_data_scope(31, true), AccountDataScope::Character);
}

#[test]
fn stored_account_data_is_answered_as_it_is() {
    let r = account_data_answer(StoredAccountData { decompressed_size: 40, data: Some(vec![1, 2, 3]) });
    assert_eq!(r, (40, vec![1, 2, 3]));
}

#[test]
fn a_row_without_data_is_answered_with_nothing() {
    let r = account_data_answer(StoredAccountData { decompressed_size: 40, data: None });
    assert_eq!(r, (0, Vec::<u8>::new()));
}
