//! Utils used by generated code.

pub mod unique_event_name_and_ver;
