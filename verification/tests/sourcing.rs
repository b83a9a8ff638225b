use arcana::es::event::{Initial, Initialized, Sourced, Sourcing, Version, Versioned};

#[derive(Debug, Eq, PartialEq)]
struct Chat {
    messages: u32,
}

struct Created;

impl Versioned for Created {
    const NAME: &'static str = "chat.created";

    const VERSION: u16 = 1;

    fn revision() -> Version {
        Version::new_unchecked(Self::VERSION)
    }
}

struct Posted;

impl Versioned for Posted {
    const NAME: &'static str = "message.posted";

    const VERSION: u16 = 1;

    fn revision() -> Version {
        Version::new_unchecked(Self::VERSION)
    }
}

impl Initialized<Created> for Chat {
    fn init(_: &Created) -> Self {
        Self { messages: 0 }
    }
}

impl Sourced<Posted> for Chat {
    fn apply(&mut self, _: &Posted) {
        self.messages += 1;
    }
}

#[test]
fn event_applied_to_absent_state_changes_nothing() {
    let mut chat = Option::<Chat>::None;
    chat.apply(&Posted);
    assert_eq!(chat, None);
    chat.apply(&Posted);
    assert_eq!(chat, None);
}

#[test]
fn initial_event_makes_the_state() {
    let mut chat = Option::<Chat>::None;
    chat.apply(&Initial(Created));
    assert_eq!(chat, Some(Chat { messages: 0 }));
}

#[test]
fn initial_event_makes_the_state_anew() {
    let mut chat = Some(Chat { messages: 5 });
    chat.apply(&Initial(Created));
    assert_eq!(chat, Some(Chat { messages: 0 }));
}

#[test]
fn event_applied_to_present_state_changes_it() {
    let mut chat = Some(Chat { messages: 0 });
    chat.apply(&Posted);
    chat.apply(&Posted);
    assert_eq!(chat, Some(Chat { messages: 2 }));
}

#[test]
fn events_replayed_in_order_give_the_state() {
    let mut chat = Option::<Chat>::None;
    chat.apply(&Posted);
    chat.apply(&Initial::from(Created));
    chat.apply(&Posted);
    chat.apply(&Posted);
    chat.apply(&Posted);
    assert_eq!(chat, Some(Chat { messages: 3 }));
}

#[test]
fn event_applies_itself_to_the_state() {
    let mut chat = Chat { messages: 1 };
    Posted.apply_to(&mut chat);
    assert_eq!(chat, Chat { messages: 2 });

    let mut absent = Option::<Chat>::None;
    Posted.apply_to(&mut absent);
    assert_eq!(absent, None);
    Initial(Created).apply_to(&mut absent);
    assert_eq!(absent, Some(Chat { messages: 0 }));
}

#[test]
fn event_behind_a_trait_object_applies_itself_to_the_state() {
    let mut chat = Option::<Chat>::None;
    let created = Initial(Created);
    let events: [&dyn Sourcing<Option<Chat>>; 3] = [&created, &Posted, &Posted];
    for event in events {
        chat.apply(event);
    }
    assert_eq!(chat, Some(Chat { messages: 2 }));
}

#[test]
fn initial_wraps_the_event_it_is_made_of() {
    let initial = Initial::from(7_u8);
    assert_eq!(initial.0, 7);
    let copy = initial;
    assert_eq!(copy.0, initial.0);
}

#[test]
fn initial_gives_its_event_when_read_through() {
    let initial = Initial("created".to_owned());
    assert_eq!(initial.len(), 7);
    assert_eq!(*initial, "created");
}

#[test]
fn initial_lets_its_event_be_changed_in_place() {
    let mut initial = Initial("creat".to_owned());
    initial.push_str("ed");
    assert_eq!(initial.0, "created");
}
