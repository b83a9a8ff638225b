//! [`Strategy`] definition and default implementations.

pub mod as_is;
pub mod custom;
pub mod skip;
pub mod split;

pub use self::as_is::AsIs;
pub use self::custom::Custom;
pub use self::custom::Customize;
pub use self::skip::Skip;
pub use self::split::Split;
pub use self::split::Splitter;
use vstd::prelude::*;

verus! {

/// Generalized transformation of one `Event` by the `Adapter` that a
/// [`Strategy`] is bound to.
///
/// What comes back holds the transformed events in the order in which they
/// are to be given out: none, one or many of them, each of them either a
/// transformed event or the error that took its place.
pub trait Strategy<Adapter, Event> {
    /// Context of this [`Strategy`].
    ///
    /// In real world this is usually some sort of a service the conversion
    /// reads from.
    type Context: ?Sized;

    /// Error of this [`Strategy`].
    type Error;

    /// Converted [`Event`].
    ///
    /// [`Event`]: crate::es::Event
    type Transformed;

    /// Converts incoming [`Event`] into [`Transformed`] ones.
    ///
    /// [`Event`]: crate::es::Event
    /// [`Transformed`]: Self::Transformed
    fn transform(adapter: &Adapter, event: Event, context: &Self::Context) -> Vec<
        Result<Self::Transformed, Self::Error>,
    >;
}

} // verus!
