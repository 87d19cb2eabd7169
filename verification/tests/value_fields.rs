use world_server::character::character_values::{FieldError, UnitValueFields};

#[test]
fn a_field_reads_back_what_was_written_and_is_marked() {
    let mut fields = UnitValueFields::new(8);
    assert_eq!(fields.get_num_value_fields(), 8);
    assert_eq!(fields.get_field_u32(3), Ok(0));
    assert!(!fields.is_changed(3));
    assert_eq!(fields.set_field_u32(3, 0xdead_beef), Ok(()));
    assert_eq!(fields.get_field_u32(3), Ok(0xdead_beef));
    assert!(fields.is_changed(3));
    assert!(!fields.is_changed(2));
    assert_eq!(fields.get_field_u32(2), Ok(0));
}

#[test]
fn clearing_the_mask_keeps_the_values() {
    let mut fields = UnitValueFields::new(4);
    fields.set_field_u32(1, 7).unwrap();
    fields.clear_update_mask();
    assert!(!fields.is_changed(1));
    assert_eq!(fields.get_field_u32(1), Ok(7));
}

#[test]
fn a_field_past_the_end_is_an_error() {
    let mut fields = UnitValueFields::new(4);
    assert_eq!(fields.set_field_u32(5, 1), Err(FieldError::OutOfRange));
    assert_eq!(fields.get_field_u32(9), Err(FieldError::OutOfRange));
}
