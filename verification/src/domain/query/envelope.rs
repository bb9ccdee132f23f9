//! The request envelopes that a pipeline sends, as one type.

use vstd::prelude::*;
use crate::domain::query::execute_query::ExecuteQuery;
use crate::domain::query::find_results::FindResultDataByJobId;
use crate::domain::query::get_queue_position::GetQueuePosition;
use crate::domain::query::upsert_query::UpsertQuery;
use crate::json::{Json, JsonView};

verus! {

/// One request to the query endpoint of the service.
#[derive(Debug, PartialEq, Eq)]
pub enum Envelope {
    /// Register a query.
    UpsertQuery(UpsertQuery),
    /// Ask for a run of a registered query.
    ExecuteQuery(ExecuteQuery),
    /// Ask about a job.
    GetQueuePosition(GetQueuePosition),
    /// Fetch the rows of a job.
    FindResult(FindResultDataByJobId),
}

impl View for Envelope {
    type V = JsonView;

    /// The envelope as it goes on the wire.
    open spec fn view(&self) -> JsonView {
        match self {
            Envelope::UpsertQuery(envelope) => envelope@,
            Envelope::ExecuteQuery(envelope) => envelope@,
            Envelope::GetQueuePosition(envelope) => envelope@,
            Envelope::FindResult(envelope) => envelope@,
        }
    }
}

impl Envelope {
    /// The envelope as a JSON value.
    pub fn to_json(&self) -> (j: Json)
        ensures
            j@ == self@,
    {
        match self {
            Envelope::UpsertQuery(envelope) => envelope.to_json(),
            Envelope::ExecuteQuery(envelope) => envelope.to_json(),
            Envelope::GetQueuePosition(envelope) => envelope.to_json(),
            Envelope::FindResult(envelope) => envelope.to_json(),
        }
    }
}

} // verus!
