//! What goes to the remote query service and what comes back from it.

pub mod model;
pub mod query;
