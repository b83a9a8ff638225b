use arcana::es::event::codegen::{has_different_types_with_same_name_and_ver, Versioned};
use arcana::es::event::Raw;
use arcana::private::unique_event_name_and_ver::all_unique;

#[test]
fn two_types_of_one_name_and_version_are_a_violation() {
    assert!(has_different_types_with_same_name_and_ver([
        ("TypeP", "chat", 1),
        ("TypeQ", "chat", 1),
    ]));
}

#[test]
fn one_type_listed_twice_is_clean() {
    assert!(!has_different_types_with_same_name_and_ver([
        ("TypeP", "chat", 1),
        ("TypeP", "chat", 1),
    ]));
}

#[test]
fn empty_table_is_clean() {
    assert!(!has_different_types_with_same_name_and_ver([]));
    assert!(!has_different_types_with_same_name_and_ver(
        Raw::<(), ()>::__arcana_events()
    ));
}

#[test]
fn raw_event_counts_no_versioned_event() {
    assert_eq!(<Raw<(), u8> as Versioned>::COUNT, 0);
    assert_eq!(Raw::<(), u8>::__arcana_events().len(), 0);
}

#[test]
fn table_of_one_entry_is_clean() {
    assert!(!has_different_types_with_same_name_and_ver([("TypeP", "chat", 1)]));
}

#[test]
fn same_name_of_another_version_is_clean() {
    assert!(!has_different_types_with_same_name_and_ver([
        ("TypeP", "chat", 1),
        ("TypeQ", "chat", 2),
        ("TypeR", "chat", 65_535),
    ]));
}

#[test]
fn same_version_of_another_name_is_clean() {
    assert!(!has_different_types_with_same_name_and_ver([
        ("TypeP", "chat", 1),
        ("TypeQ", "file", 1),
        ("TypeR", "chat.created", 1),
        ("TypeS", "cha", 1),
    ]));
}

#[test]
fn violation_is_found_wherever_the_two_entries_stand() {
    assert!(has_different_types_with_same_name_and_ver([
        ("TypeP", "chat", 1),
        ("TypeQ", "file", 1),
        ("TypeR", "mail", 1),
        ("TypeS", "chat", 1),
    ]));
    assert!(has_different_types_with_same_name_and_ver([
        ("TypeQ", "file", 1),
        ("TypeR", "mail", 1),
        ("TypeS", "chat", 1),
        ("TypeP", "chat", 1),
    ]));
    assert!(has_different_types_with_same_name_and_ver([
        ("TypeS", "chat", 1),
        ("TypeQ", "file", 1),
        ("TypeP", "chat", 1),
        ("TypeR", "mail", 1),
    ]));
}

#[test]
fn violation_is_found_among_repeated_entries() {
    assert!(has_different_types_with_same_name_and_ver([
        ("TypeP", "chat", 1),
        ("TypeP", "chat", 1),
        ("TypeQ", "file", 2),
        ("TypeQ", "file", 2),
        ("TypeR", "file", 2),
    ]));
    assert!(!has_different_types_with_same_name_and_ver([
        ("TypeP", "chat", 1),
        ("TypeP", "chat", 1),
        ("TypeQ", "file", 2),
        ("TypeQ", "file", 2),
        ("TypeP", "chat", 1),
    ]));
}

#[test]
fn strings_are_compared_byte_by_byte() {
    assert!(!has_different_types_with_same_name_and_ver([
        ("TypeP", "chat", 1),
        ("TypeQ", "Chat", 1),
    ]));
    assert!(!has_different_types_with_same_name_and_ver([
        ("TypeP", "chat", 1),
        ("TypeQ", "chat ", 1),
    ]));
    assert!(!has_different_types_with_same_name_and_ver([
        ("TypeP", "caf\u{e9}", 1),
        ("TypeQ", "cafe\u{301}", 1),
    ]));
    assert!(has_different_types_with_same_name_and_ver([
        ("TypeP", "caf\u{e9}", 1),
        ("TypeQ", "caf\u{e9}", 1),
    ]));
    assert!(has_different_types_with_same_name_and_ver([
        ("typep", "chat", 1),
        ("TypeP", "chat", 1),
    ]));
    assert!(has_different_types_with_same_name_and_ver([
        ("", "", 1),
        ("T", "", 1),
    ]));
}

#[test]
fn all_unique_of_an_empty_list() {
    assert!(all_unique([None]));
    assert!(all_unique([None, None, None]));
}

#[test]
fn all_unique_of_different_names_and_versions() {
    assert!(all_unique([Some(("chat", 1)), None]));
    assert!(all_unique([
        Some(("chat", 1)),
        Some(("chat", 2)),
        Some(("file", 1)),
        None,
        None,
    ]));
}

#[test]
fn all_unique_finds_a_name_and_version_that_come_twice() {
    assert!(!all_unique([Some(("chat", 1)), Some(("chat", 1)), None]));
    assert!(!all_unique([
        Some(("chat", 1)),
        Some(("file", 1)),
        Some(("mail", 1)),
        Some(("file", 1)),
        None,
    ]));
    assert!(!all_unique([
        Some(("file", 2)),
        Some(("chat", 1)),
        Some(("mail", 1)),
        Some(("mail", 1)),
        None,
        None,
    ]));
}

#[test]
fn all_unique_reads_the_list_up_to_its_first_empty_slot() {
    assert!(all_unique([
        Some(("chat", 1)),
        None,
        Some(("chat", 1)),
        None,
    ]));
    assert!(all_unique([
        None,
        Some(("chat", 1)),
        Some(("chat", 1)),
    ]));
    assert!(!all_unique([
        Some(("chat", 1)),
        Some(("chat", 1)),
        None,
        Some(("file", 1)),
    ]));
}

#[test]
fn all_unique_compares_names_byte_by_byte() {
    assert!(all_unique([Some(("chat", 1)), Some(("Chat", 1)), None]));
    assert!(all_unique([Some(("chat", 1)), Some(("chats", 1)), None]));
    assert!(!all_unique([Some(("", 1)), Some(("", 1)), None]));
}

#[test]
fn all_unique_of_a_list_without_slots() {
    assert!(all_unique::<0>([]));
}

#[test]
fn all_unique_of_a_full_list() {
    assert!(all_unique([Some(("chat", 1))]));
    assert!(all_unique([Some(("chat", 1)), Some(("file", 1))]));
    assert!(all_unique([Some(("chat", 1)), Some(("chat", 2)), Some(("file", 2))]));
}

#[test]
fn all_unique_finds_what_comes_twice_in_a_full_list() {
    assert!(!all_unique([Some(("chat", 1)), Some(("chat", 1))]));
    assert!(!all_unique([Some(("chat", 1)), Some(("file", 1)), Some(("chat", 1))]));
    assert!(!all_unique([Some(("file", 1)), Some(("chat", 7)), Some(("chat", 7))]));
}
