//! The operations of the remote query service: one request envelope and one
//! response shape for each.

pub mod envelope;
pub mod execute_query;
pub mod find_results;
pub mod get_queue_position;
pub mod session;
pub mod upsert_query;
