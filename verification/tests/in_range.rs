use world_server::character::character_range::InRangeObjects;
use world_server::guid::Guid;

#[test]
fn objects_come_into_range_and_leave_it() {
    let mut range = InRangeObjects::new();
    assert!(!range.is_in_range(Guid(1)));
    range.add_in_range_object(Guid(1));
    range.add_in_range_object(Guid(2));
    assert!(range.is_in_range(Guid(1)));
    assert!(range.is_in_range(Guid(2)));
    let mut guids = range.get_in_range_guids();
    guids.sort_by_key(|g| g.0);
    assert_eq!(guids, vec![Guid(1), Guid(2)]);
    range.remove_in_range_object(Guid(1));
    assert!(!range.is_in_range(Guid(1)));
    assert!(range.is_in_range(Guid(2)));
    assert_eq!(range.get_recently_removed_range_guids(), &[Guid(1)]);
    range.clear_recently_removed_range_guids();
    assert!(range.get_recently_removed_range_guids().is_empty());
}

#[test]
fn removing_an_object_out_of_range_still_lists_it() {
    let mut range = InRangeObjects::new();
    range.remove_in_range_object(Guid(9));
    assert_eq!(range.get_recently_removed_range_guids(), &[Guid(9)]);
    assert!(range.get_in_range_guids().is_empty());
}

#[test]
fn characters_are_listed_once() {
    let mut range = InRangeObjects::new();
    range.add_in_range_character(Guid(5));
    range.add_in_range_character(Guid(6));
    range.add_in_range_character(Guid(5));
    assert_eq!(range.get_in_range_characters(), &[Guid(5), Guid(6)]);
}

#[test]
fn clearing_the_range_lists_nothing_as_removed() {
    let mut range = InRangeObjects::new();
    range.add_in_range_object(Guid(3));
    range.clear_in_range_objects();
    assert!(!range.is_in_range(Guid(3)));
    assert!(range.get_recently_removed_range_guids().is_empty());
}
