//! Event sourcing toolkit: versioned events, a check that every event of an
//! event set is told apart by its name and version, and adapters that turn a
//! stream of incoming events into the events a consumer works with.

pub mod es;
pub mod private;
