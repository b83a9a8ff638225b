//! [`Split`] [`Strategy`] definition.

use super::Strategy;
use crate::es::adapter::WithError;
use crate::es::event::VersionedOrRaw;
use std::marker::PhantomData;
use vstd::prelude::*;

verus! {

/// [`Strategy`] for splitting a single [`Event`] into multiple ones.
///
/// [`Event`]: crate::es::Event
#[derive(Debug)]
pub struct Split<Into>(PhantomData<Into>);

/// Split of a single [`Event`] into multiple [`Event`]s for [`Split`]
/// [`Strategy`].
///
/// [`Event`]: crate::es::Event
pub trait Splitter<From, Into> {
    /// Splits the [`Event`] into the [`Event`]s that take its place, in
    /// their order.
    ///
    /// [`Event`]: crate::es::Event
    fn split(&self, event: From) -> Vec<Into>;
}

/// What comes of the `parts` of a split event: each of them, in the same
/// order, and none of them as an error.
pub open spec fn parted<Into, Error>(parts: Seq<Into>) -> Seq<Result<Into, Error>> {
    Seq::new(parts.len(), |i: int| Ok(parts[i]))
}

impl<Adapter, Event, IntoEvent> Strategy<Adapter, Event> for Split<IntoEvent> where
    Event: VersionedOrRaw,
    Adapter: Splitter<Event, IntoEvent> + WithError,
 {
    type Context = ();

    type Error = Adapter::Error;

    type Transformed = IntoEvent;

    /// Gives the events that the `adapter` splits the `event` into, in the
    /// order in which it returns them.
    fn transform(adapter: &Adapter, event: Event, _context: &Self::Context) -> (transformed: Vec<
        Result<Self::Transformed, Self::Error>,
    >)
        ensures
            exists|parts: Vec<IntoEvent>|
                #[trigger] call_ensures(
                    <Adapter as Splitter<Event, IntoEvent>>::split,
                    (adapter, event),
                    parts,
                ) && transformed@ == parted::<IntoEvent, Adapter::Error>(parts@),
    {
        let mut parts = adapter.split(event);
        let ghost split = parts;
        let mut reversed: Vec<IntoEvent> = Vec::new();
        while parts.len() > 0
            invariant
                parts@.len() + reversed@.len() == split@.len(),
                parts@ == split@.take(parts@.len() as int),
                forall|i: int|
                    0 <= i < reversed@.len() ==> reversed@[i] == split@[split@.len() - 1 - i],
            decreases parts@.len(),
        {
            let part = parts.pop().unwrap();
            reversed.push(part);
        }
        let mut transformed: Vec<Result<IntoEvent, Adapter::Error>> = Vec::new();
        while reversed.len() > 0
            invariant
                reversed@.len() + transformed@.len() == split@.len(),
                forall|i: int|
                    0 <= i < reversed@.len() ==> reversed@[i] == split@[split@.len() - 1 - i],
                forall|i: int|
                    0 <= i < transformed@.len() ==> transformed@[i] == Ok::<
                        IntoEvent,
                        Adapter::Error,
                    >(split@[i]),
            decreases reversed@.len(),
        {
            let part = reversed.pop().unwrap();
            transformed.push(Ok(part));
        }
        assert(transformed@ =~= parted::<IntoEvent, Adapter::Error>(split@));
        transformed
    }
}

} // verus!
