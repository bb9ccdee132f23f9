//! Asking the service how far a job has come.

use vstd::prelude::*;
use crate::json::{entries_view, push_entry, FromJson, Json, JsonView};
use crate::text::same_text;

verus! {

/// The name of the operation.
pub const GET_QUEUE_POSITION_OPERATION: &'static str = "GetQueuePosition";

/// The text of the operation.
pub const GET_QUEUE_POSITION_TEXT: &'static str =
    "query GetQueuePosition($job_id: uuid!) {\n  view_queue_positions(where: {id: {_eq: $job_id}}) {\n    pos\n    __typename\n  }\n  jobs_by_pk(id: $job_id) {\n    id\n    user_id\n    category\n    created_at\n    locked_until\n    __typename\n  }\n}\n";

/// The category of a job that the service is still running.
pub const EXECUTING_CATEGORY: &'static str = "execute";

/// The variables as they go on the wire.
pub open spec fn get_queue_position_variables(job_id: Seq<char>) -> JsonView {
    JsonView::Object(seq![("job_id"@, JsonView::String(job_id))])
}

/// The envelope as it goes on the wire.
pub open spec fn get_queue_position_envelope(job_id: Seq<char>) -> JsonView {
    JsonView::Object(
        seq![
            ("operationName"@, JsonView::String(GET_QUEUE_POSITION_OPERATION@)),
            ("variables"@, get_queue_position_variables(job_id)),
            ("query"@, JsonView::String(GET_QUEUE_POSITION_TEXT@)),
        ],
    )
}

/// The variables of the operation: the job that is asked about.
#[derive(Debug, PartialEq, Eq)]
pub struct GetQueuePositionVariables {
    job_id: String,
}

impl View for GetQueuePositionVariables {
    type V = JsonView;

    closed spec fn view(&self) -> JsonView {
        get_queue_position_variables(self.job_id@)
    }
}

impl GetQueuePositionVariables {
    /// The variables that name the job `job_id`.
    pub fn new(job_id: String) -> (variables: GetQueuePositionVariables)
        ensures
            variables@ == get_queue_position_variables(job_id@),
    {
        GetQueuePositionVariables { job_id }
    }

    /// The variables as a JSON value.
    pub fn to_json(&self) -> (j: Json)
        ensures
            j@ == self@,
    {
        let mut entries: Vec<(String, Json)> = Vec::new();
        push_entry(&mut entries, "job_id", Json::string(self.job_id.as_str()));
        assert(entries_view(entries@) =~= self@->Object_0);
        Json::object(entries)
    }
}

/// The request envelope of the operation.
#[derive(Debug, PartialEq, Eq)]
pub struct GetQueuePosition {
    operation_name: &'static str,
    variables: GetQueuePositionVariables,
    query: &'static str,
}

impl View for GetQueuePosition {
    type V = JsonView;

    closed spec fn view(&self) -> JsonView {
        JsonView::Object(
            seq![
                ("operationName"@, JsonView::String(self.operation_name@)),
                ("variables"@, self.variables@),
                ("query"@, JsonView::String(self.query@)),
            ],
        )
    }
}

impl GetQueuePosition {
    /// The envelope that asks about the job `job_id`.
    pub fn new(job_id: String) -> (envelope: GetQueuePosition)
        ensures
            envelope@ == get_queue_position_envelope(job_id@),
    {
        GetQueuePosition {
            operation_name: GET_QUEUE_POSITION_OPERATION,
            variables: GetQueuePositionVariables::new(job_id),
            query: GET_QUEUE_POSITION_TEXT,
        }
    }

    /// The envelope as a JSON value.
    pub fn to_json(&self) -> (j: Json)
        ensures
            j@ == self@,
    {
        let mut entries: Vec<(String, Json)> = Vec::new();
        push_entry(&mut entries, "operationName", Json::string(self.operation_name));
        push_entry(&mut entries, "variables", self.variables.to_json());
        push_entry(&mut entries, "query", Json::string(self.query));
        assert(entries_view(entries@) =~= self@->Object_0);
        Json::object(entries)
    }
}

/// The job as the service describes it.
#[derive(Debug, PartialEq, Eq)]
pub struct GetQueuePositionResponseJob {
    category: String,
}

impl View for GetQueuePositionResponseJob {
    type V = Seq<char>;

    /// The category of the job.
    closed spec fn view(&self) -> Seq<char> {
        self.category@
    }
}

impl GetQueuePositionResponseJob {
    /// The category of the job.
    pub fn category(&self) -> (category: &str)
        ensures
            category@ == self@,
    {
        self.category.as_str()
    }
}

/// What the service answers: the job, where it still knows of it.
#[derive(Debug, PartialEq, Eq)]
pub struct GetQueuePositionResponse {
    jobs_by_pk: Option<GetQueuePositionResponseJob>,
}

impl View for GetQueuePositionResponse {
    type V = Option<Seq<char>>;

    /// The category of the job, where the service still knows of the job.
    closed spec fn view(&self) -> Option<Seq<char>> {
        match self.jobs_by_pk {
            Some(job) => Some(job@),
            None => None,
        }
    }
}

impl FromJson for GetQueuePositionResponse {
    /// `data` is an object. Where it has no `jobs_by_pk`, or `null` there, no
    /// job is known; otherwise `jobs_by_pk` holds the string `category`.
    open spec fn decoded(j: JsonView) -> Option<Option<Seq<char>>> {
        match j.member("data"@) {
            Some(data) => if data.is_object() {
                match data.member("jobs_by_pk"@) {
                    None => Some(None),
                    Some(JsonView::Null) => Some(None),
                    Some(job) => match job.text_member("category"@) {
                        Some(category) => Some(Some(category)),
                        None => None,
                    },
                }
            } else {
                None
            },
            None => None,
        }
    }

    fn from_json(j: &Json) -> (found: Option<GetQueuePositionResponse>) {
        let data = match j.get("data") {
            Some(data) => data,
            None => { return None; },
        };
        if !data.is_object() {
            return None;
        }
        let job = match data.get("jobs_by_pk") {
            Some(job) => job,
            None => { return Some(GetQueuePositionResponse { jobs_by_pk: None }); },
        };
        if job.is_null() {
            return Some(GetQueuePositionResponse { jobs_by_pk: None });
        }
        match job.get_str("category") {
            Some(category) => Some(
                GetQueuePositionResponse {
                    jobs_by_pk: Some(GetQueuePositionResponseJob { category: category.to_owned() }),
                },
            ),
            None => None,
        }
    }
}

impl GetQueuePositionResponse {
    /// The job, where the service still knows of it.
    pub fn jobs_by_pk(&self) -> (job: Option<&GetQueuePositionResponseJob>)
        ensures
            match job {
                Some(job) => self@ == Some(job@),
                None => self@ is None,
            },
    {
        self.jobs_by_pk.as_ref()
    }

    /// Whether the service is still running the job: it knows of the job, and
    /// the job's category is [`EXECUTING_CATEGORY`].
    pub fn is_executing(&self) -> (executing: bool)
        ensures
            executing == (self@ == Some(EXECUTING_CATEGORY@)),
    {
        match &self.jobs_by_pk {
            Some(job) => same_text(job.category.as_str(), EXECUTING_CATEGORY),
            None => false,
        }
    }
}

} // verus!
