//! [`AsIs`] [`Strategy`] definition.

use super::Strategy;
use crate::es::adapter::transforms;
use crate::es::adapter::widens;
use crate::es::adapter::Adapt;
use crate::es::adapter::Item;
use crate::es::adapter::Transformer;
use crate::es::adapter::WithError;
use crate::es::adapter::Wrapper;
use crate::es::event::VersionedOrRaw;
use vstd::prelude::*;

verus! {

/// [`Strategy`] for passing [`Event`]s as is, without any conversions.
///
/// [`Event`]: crate::es::Event
#[derive(Clone, Copy, Debug)]
pub struct AsIs;

impl<Adapter, Event> Strategy<Adapter, Event> for AsIs where
    Adapter: WithError,
    Event: VersionedOrRaw,
 {
    type Context = ();

    type Error = Adapter::Error;

    type Transformed = Event;

    /// Gives the `event` itself, once and never as an error.
    fn transform(_adapter: &Adapter, event: Event, _context: &Self::Context) -> (transformed: Vec<
        Result<Self::Transformed, Self::Error>,
    >)
        ensures
            transformed@ == seq![Ok::<Event, Adapter::Error>(event)],
    {
        let mut transformed = Vec::new();
        transformed.push(Ok(event));
        transformed
    }
}

/// An event that an adapter binds to [`AsIs`] gives itself, once and not as
/// an error: whatever the adapter makes of it is that one item.
pub proof fn lemma_event_as_is_gives_itself<'a, A, Event>(
    adapter: &Wrapper<&'a A>,
    event: Event,
    context: &<Wrapper<&'a A> as Transformer<Event>>::Context,
    local: Seq<Item<Wrapper<&'a A>, Event>>,
) where Event: VersionedOrRaw, A: WithError + Adapt<Event, Strategy = AsIs>
    requires
        transforms(adapter, event, context, local),
    ensures
        local == seq![Ok::<Event, <A as WithError>::Error>(event)],
{
}

/// An event that is passed as is and that the adapter gives out in its own
/// type leaves a stream of the adapter as it came in: unchanged, and not as
/// an error.
pub proof fn lemma_event_as_is_is_given_unchanged<Event, Error>(
    event: Event,
    wide: Result<Event, Error>,
)
    requires
        widens(Ok::<Event, Error>(event), wide),
    ensures
        wide == Ok::<Event, Error>(event),
{
}

} // verus!
