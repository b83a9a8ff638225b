//! [`Transformer`] definitions.

pub mod strategy;

pub use self::strategy::Strategy;
use crate::es::adapter::Wrapper;
use crate::es::event::VersionedOrRaw;
use vstd::prelude::*;

verus! {

/// Facility to convert [`Event`]s of one type.
///
/// [`Event`]: crate::es::Event
pub trait Transformer<Event> {
    /// Context for converting [`Event`]s.
    ///
    /// [`Event`]: crate::es::Event
    type Context: ?Sized;

    /// Error of this [`Transformer`].
    type Error;

    /// Converted [`Event`].
    ///
    /// [`Event`]: crate::es::Event
    type Transformed;

    /// Converts incoming [`Event`] into [`Transformed`] ones.
    ///
    /// [`Event`]: crate::es::Event
    /// [`Transformed`]: Self::Transformed
    fn transform(&self, event: Event, context: &Self::Context) -> Vec<
        Result<Self::Transformed, Self::Error>,
    >;
}

/// Binding of the one [`Strategy`] that an adapter converts `Event`s of one
/// type with.
pub trait Adapt<Event>: Sized {
    /// [`Strategy`] to convert the `Event` with.
    type Strategy: Strategy<Self, Event>;
}

impl<'a, A, Event> Transformer<Event> for Wrapper<&'a A> where
    Event: VersionedOrRaw,
    A: Adapt<Event>,
 {
    type Context = <A::Strategy as Strategy<A, Event>>::Context;

    type Error = <A::Strategy as Strategy<A, Event>>::Error;

    type Transformed = <A::Strategy as Strategy<A, Event>>::Transformed;

    /// Hands the `event` to the [`Strategy`] that the adapter binds its type
    /// to.
    fn transform(&self, event: Event, context: &Self::Context) -> (transformed: Vec<
        Result<Self::Transformed, Self::Error>,
    >)
        ensures
            call_ensures(
                <A::Strategy as Strategy<A, Event>>::transform,
                (self.0, event, context),
                transformed,
            ),
    {
        <A::Strategy as Strategy<A, Event>>::transform(self.0, event, context)
    }
}

} // verus!
