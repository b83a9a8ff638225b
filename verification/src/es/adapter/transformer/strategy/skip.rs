//! [`Skip`] [`Strategy`] definition.

use super::Strategy;
use crate::es::adapter::transforms;
use crate::es::adapter::Adapt;
use crate::es::adapter::Item;
use crate::es::adapter::Transformer;
use crate::es::adapter::WithError;
use crate::es::adapter::Wrapper;
use crate::es::event::VersionedOrRaw;
use vstd::prelude::*;

verus! {

/// [`Strategy`] for skipping [`Event`]s.
///
/// [`Event`]: crate::es::Event
#[derive(Clone, Copy, Debug)]
pub struct Skip;

impl<Adapter, Event> Strategy<Adapter, Event> for Skip where
    Event: VersionedOrRaw,
    Adapter: WithError,
 {
    type Context = ();

    type Error = Adapter::Error;

    type Transformed = Adapter::Transformed;

    /// Gives nothing, whatever the `event`.
    fn transform(_adapter: &Adapter, _event: Event, _context: &Self::Context) -> (transformed: Vec<
        Result<Self::Transformed, Self::Error>,
    >)
        ensures
            transformed@ == Seq::<Result<Adapter::Transformed, Adapter::Error>>::empty(),
    {
        Vec::new()
    }
}

/// An event that an adapter binds to [`Skip`] gives nothing: whatever the
/// adapter makes of it is empty, so that it adds no item to what a stream of
/// the adapter gives.
pub proof fn lemma_skipped_event_gives_nothing<'a, A, Event>(
    adapter: &Wrapper<&'a A>,
    event: Event,
    context: &<Wrapper<&'a A> as Transformer<Event>>::Context,
    local: Seq<Item<Wrapper<&'a A>, Event>>,
) where Event: VersionedOrRaw, A: WithError + Adapt<Event, Strategy = Skip>
    requires
        transforms(adapter, event, context, local),
    ensures
        local.len() == 0,
{
}

} // verus!
