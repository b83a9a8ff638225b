use arcana::es::event::{Event, Raw, Version, Versioned};

#[test]
fn version_of_zero_fails() {
    assert!(Version::try_new(0).is_none());
    assert!(Version::try_new(0_u8).is_none());
    assert!(Version::try_new(0_u16).is_none());
    assert!(Version::try_new(0_u64).is_none());
    assert!(Version::try_new(0_i128).is_none());
}

#[test]
fn version_out_of_sixteen_bits_fails() {
    assert!(Version::try_new(65_536).is_none());
    assert!(Version::try_new(65_536_u32).is_none());
    assert!(Version::try_new(65_536_i64).is_none());
    assert!(Version::try_new(u32::MAX).is_none());
    assert!(Version::try_new(u64::MAX).is_none());
    assert!(Version::try_new(u128::MAX).is_none());
    assert!(Version::try_new(usize::MAX).is_none());
}

#[test]
fn version_below_zero_fails() {
    assert!(Version::try_new(-1).is_none());
    assert!(Version::try_new(-1_i8).is_none());
    assert!(Version::try_new(-65_535).is_none());
    assert!(Version::try_new(i64::MIN).is_none());
}

#[test]
fn version_within_bounds_succeeds() {
    assert_eq!(Version::try_new(1).map(Version::get), Some(1));
    assert_eq!(Version::try_new(2_u64).map(Version::get), Some(2));
    assert_eq!(Version::try_new(255_u8).map(Version::get), Some(255));
    assert_eq!(Version::try_new(65_534_i32).map(Version::get), Some(65_534));
    assert_eq!(Version::try_new(65_535).map(Version::get), Some(65_535));
    assert_eq!(Version::try_new(65_535_u16).map(Version::get), Some(65_535));
    assert_eq!(Version::try_new(65_535_usize).map(Version::get), Some(65_535));
}

#[test]
fn version_made_unchecked_holds_its_value() {
    assert_eq!(Version::new_unchecked(1).get(), 1);
    assert_eq!(Version::new_unchecked(42).get(), 42);
    assert_eq!(Version::new_unchecked(65_535).get(), 65_535);
    assert_eq!(Some(Version::new_unchecked(42)), Version::try_new(42));
}

#[test]
fn version_converts_into_its_number() {
    let version = Version::try_new(513).unwrap();
    assert_eq!(u16::from(version), 513);
    let number: u16 = version.into();
    assert_eq!(number, 513);
}

#[test]
fn versions_are_ordered_by_their_number() {
    let first = Version::try_new(1).unwrap();
    let second = Version::try_new(2).unwrap();
    let last = Version::try_new(65_535).unwrap();
    assert!(first < second);
    assert!(second < last);
    assert_eq!(first, Version::new_unchecked(1));
    assert_ne!(first, second);
    assert_eq!(first.max(last), last);
}

struct ChatCreated;

impl Versioned for ChatCreated {
    const NAME: &'static str = "chat.created";

    const VERSION: u16 = 3;

    fn revision() -> Version {
        Version::new_unchecked(Self::VERSION)
    }
}

#[test]
fn versioned_event_has_the_name_and_version_of_its_type() {
    let event = ChatCreated;
    assert_eq!(event.name(), "chat.created");
    assert_eq!(event.version().get(), 3);
    assert_eq!(event.name(), ChatCreated::NAME);
    assert_eq!(event.version().get(), ChatCreated::VERSION);
    assert_eq!(event.version(), ChatCreated::revision());
    assert_eq!(ChatCreated.version(), ChatCreated.version());
}

#[test]
fn raw_event_has_the_name_of_its_type_and_its_own_version() {
    let version = Version::try_new(7).unwrap();
    let event = Raw::<ChatCreated, &str>::new("payload", version);
    assert_eq!(event.data, "payload");
    assert_eq!(event.version, version);
    assert_eq!(event.name(), "chat.created");
    assert_eq!(event.version().get(), 7);
}

#[test]
fn raw_event_is_cloned_with_its_data_and_version() {
    let event = Raw::<ChatCreated, String>::new("payload".to_owned(), Version::new_unchecked(9));
    let copy = event.clone();
    assert_eq!(copy.data, "payload");
    assert_eq!(copy.version.get(), 9);
    assert_eq!(event.data, "payload");
}

#[test]
fn raw_event_gives_its_data_when_read_through() {
    let event = Raw::<ChatCreated, String>::new("payload".to_owned(), Version::new_unchecked(1));
    assert_eq!(event.len(), 7);
    assert_eq!(*event, "payload");
}

#[test]
fn raw_event_lets_its_data_be_changed_in_place() {
    let mut event = Raw::<ChatCreated, String>::new("pay".to_owned(), Version::new_unchecked(4));
    event.push_str("load");
    assert_eq!(event.data, "payload");
    assert_eq!(event.version.get(), 4);
}
