//! Asking the service to run a registered query.

use vstd::prelude::*;
use crate::json::{entries_view, push_entry, FromJson, Json, JsonView};
use crate::views::views_of;

verus! {

/// The name of the operation.
pub const EXECUTE_QUERY_OPERATION: &'static str = "ExecuteQuery";

/// The text of the operation.
pub const EXECUTE_QUERY_TEXT: &'static str =
    "mutation ExecuteQuery($query_id: Int!, $parameters: [Parameter!]!) {\n  execute_query(query_id: $query_id, parameters: $parameters) {\n    job_id\n    __typename\n  }\n}\n";

/// The variables of the operation: the query to run, with no parameters.
#[derive(Debug, PartialEq, Eq)]
pub struct ExecuteQueryVariables {
    query_id: i32,
    parameters: Vec<Json>,
}

/// The variables as they go on the wire.
pub open spec fn execute_query_variables(query_id: i32) -> JsonView {
    JsonView::Object(
        seq![
            ("query_id"@, JsonView::Integer(query_id as int)),
            ("parameters"@, JsonView::Array(Seq::empty())),
        ],
    )
}

/// The envelope as it goes on the wire.
pub open spec fn execute_query_envelope(query_id: i32) -> JsonView {
    JsonView::Object(
        seq![
            ("operationName"@, JsonView::String(EXECUTE_QUERY_OPERATION@)),
            ("variables"@, execute_query_variables(query_id)),
            ("query"@, JsonView::String(EXECUTE_QUERY_TEXT@)),
        ],
    )
}

impl View for ExecuteQueryVariables {
    type V = JsonView;

    closed spec fn view(&self) -> JsonView {
        JsonView::Object(
            seq![
                ("query_id"@, JsonView::Integer(self.query_id as int)),
                ("parameters"@, JsonView::Array(views_of(self.parameters@))),
            ],
        )
    }
}

impl ExecuteQueryVariables {
    /// The variables that name the query `query_id`.
    pub fn new(query_id: i32) -> (variables: ExecuteQueryVariables)
        ensures
            variables@ == execute_query_variables(query_id),
    {
        let parameters: Vec<Json> = Vec::new();
        assert(views_of(parameters@) =~= Seq::empty());
        ExecuteQueryVariables { query_id, parameters }
    }

    /// The variables as a JSON value.
    pub fn to_json(&self) -> (j: Json)
        ensures
            j@ == self@,
    {
        let mut entries: Vec<(String, Json)> = Vec::new();
        push_entry(&mut entries, "query_id", Json::integer(self.query_id as i128));
        push_entry(&mut entries, "parameters", Json::array(&self.parameters));
        assert(entries_view(entries@) =~= self@->Object_0);
        Json::object(entries)
    }
}

/// The request envelope of the operation.
#[derive(Debug, PartialEq, Eq)]
pub struct ExecuteQuery {
    operation_name: &'static str,
    variables: ExecuteQueryVariables,
    query: &'static str,
}

impl View for ExecuteQuery {
    type V = JsonView;

    closed spec fn view(&self) -> JsonView {
        JsonView::Object(
            seq![
                ("operationName"@, JsonView::String(self.operation_name@)),
                ("variables"@, self.variables@),
                ("query"@, JsonView::String(self.query@)),
            ],
        )
    }
}

impl ExecuteQuery {
    /// The envelope that asks for a run of the query `query_id`.
    pub fn new(query_id: i32) -> (envelope: ExecuteQuery)
        ensures
            envelope@ == execute_query_envelope(query_id),
    {
        ExecuteQuery {
            operation_name: EXECUTE_QUERY_OPERATION,
            variables: ExecuteQueryVariables::new(query_id),
            query: EXECUTE_QUERY_TEXT,
        }
    }

    /// The envelope as a JSON value.
    pub fn to_json(&self) -> (j: Json)
        ensures
            j@ == self@,
    {
        let mut entries: Vec<(String, Json)> = Vec::new();
        push_entry(&mut entries, "operationName", Json::string(self.operation_name));
        push_entry(&mut entries, "variables", self.variables.to_json());
        push_entry(&mut entries, "query", Json::string(self.query));
        assert(entries_view(entries@) =~= self@->Object_0);
        Json::object(entries)
    }
}

/// What the service answers: the job that runs the query.
#[derive(Debug, PartialEq, Eq)]
pub struct ExecuteQueryResponse {
    job_id: String,
}

impl View for ExecuteQueryResponse {
    type V = Seq<char>;

    /// The id of the job.
    closed spec fn view(&self) -> Seq<char> {
        self.job_id@
    }
}

impl FromJson for ExecuteQueryResponse {
    /// The string at `data.execute_query.job_id`.
    open spec fn decoded(j: JsonView) -> Option<Seq<char>> {
        match j.member("data"@) {
            Some(data) => match data.member("execute_query"@) {
                Some(job) => job.text_member("job_id"@),
                None => None,
            },
            None => None,
        }
    }

    fn from_json(j: &Json) -> (found: Option<ExecuteQueryResponse>) {
        let data = match j.get("data") {
            Some(data) => data,
            None => { return None; },
        };
        let job = match data.get("execute_query") {
            Some(job) => job,
            None => { return None; },
        };
        match job.get_str("job_id") {
            Some(job_id) => Some(ExecuteQueryResponse { job_id: job_id.to_owned() }),
            None => None,
        }
    }
}

impl ExecuteQueryResponse {
    /// The id of the job.
    pub fn job_id(self) -> (job_id: String)
        ensures
            job_id@ == self@,
    {
        self.job_id
    }
}

} // verus!
