//! [`Custom`] [`Strategy`] definition.

use super::Strategy;
use crate::es::event::VersionedOrRaw;
use vstd::prelude::*;

verus! {

/// [`Strategy`] for some custom conversion provided by [`Customize`].
#[derive(Clone, Copy, Debug)]
pub struct Custom;

/// Convert `Event` into the events that take its place in a way that the
/// adapter itself defines, for [`Custom`] [`Strategy`].
pub trait Customize<Event> {
    /// Context of this conversion.
    type Context: ?Sized;

    /// Error of this conversion.
    type Error;

    /// Converted [`Event`].
    ///
    /// [`Event`]: crate::es::Event
    type Transformed;

    /// Converts incoming [`Event`] into [`Transformed`] ones.
    ///
    /// [`Event`]: crate::es::Event
    /// [`Transformed`]: Self::Transformed
    fn customize(&self, event: Event, context: &Self::Context) -> Vec<
        Result<Self::Transformed, Self::Error>,
    >;
}

impl<Adapter, Event> Strategy<Adapter, Event> for Custom where
    Event: VersionedOrRaw,
    Adapter: Customize<Event>,
 {
    type Context = Adapter::Context;

    type Error = Adapter::Error;

    type Transformed = Adapter::Transformed;

    /// Gives what the `adapter` itself makes of the `event`.
    fn transform(adapter: &Adapter, event: Event, context: &Self::Context) -> (transformed: Vec<
        Result<Self::Transformed, Self::Error>,
    >)
        ensures
            call_ensures(
                <Adapter as Customize<Event>>::customize,
                (adapter, event, context),
                transformed,
            ),
    {
        adapter.customize(event, context)
    }
}

} // verus!
