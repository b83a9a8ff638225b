//! Abstractions and tools for [Event Sourcing].
//!
//! [Event Sourcing]: https://martinfowler.com/eaaDev/EventSourcing.html

pub mod adapter;
pub mod event;

pub use self::adapter::Adapter;
pub use self::event::Event;
