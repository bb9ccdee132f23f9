//! Fetching the rows that a job has produced.

use vstd::prelude::*;
use crate::json::{entries_view, push_entry, FromJson, Json, JsonView};
use crate::views::views_of;

verus! {

/// The name of the operation that fetches by job.
pub const FIND_RESULT_BY_JOB_OPERATION: &'static str = "FindResultDataByJob";

/// The text of the operation that fetches by job.
pub const FIND_RESULT_BY_JOB_TEXT: &'static str =
    "query FindResultDataByJob($job_id: uuid!) {\n  query_results(where: {job_id: {_eq: $job_id}, error: {_is_null: true}}) {\n    id\n    job_id\n    runtime\n    generated_at\n    columns\n    __typename\n  }\n  query_errors(where: {job_id: {_eq: $job_id}}) {\n    id\n    job_id\n    runtime\n    message\n    metadata\n    type\n    generated_at\n    __typename\n  }\n  get_result_by_job_id(args: {want_job_id: $job_id}) {\n    data\n    __typename\n  }\n}\n";

/// The name of the operation that fetches by result.
pub const FIND_RESULT_BY_RESULT_OPERATION: &'static str = "FindResultDataByResult";

/// The text of the operation that fetches by result.
pub const FIND_RESULT_BY_RESULT_TEXT: &'static str =
    "query FindResultDataByResult($result_id: uuid!, $error_id: uuid!) {\n  query_results(where: {id: {_eq: $result_id}}) {\n    id\n    job_id\n    runtime\n    generated_at\n    columns\n    __typename\n  }\n  query_errors(where: {id: {_eq: $error_id}}) {\n    id\n    job_id\n    runtime\n    message\n    metadata\n    type\n    generated_at\n    __typename\n  }\n  get_result_by_result_id(args: {want_result_id: $result_id}) {\n    data\n    __typename\n  }\n}\n";

/// The id that stands for "no error" where a result is fetched by its id.
pub const NO_ERROR_ID: &'static str = "00000000-0000-0000-0000-000000000000";

/// The variables of the fetch by job, as they go on the wire.
pub open spec fn find_result_by_job_variables(job_id: Seq<char>) -> JsonView {
    JsonView::Object(seq![("job_id"@, JsonView::String(job_id))])
}

/// The envelope of the fetch by job, as it goes on the wire.
pub open spec fn find_result_by_job_envelope(job_id: Seq<char>) -> JsonView {
    JsonView::Object(
        seq![
            ("operationName"@, JsonView::String(FIND_RESULT_BY_JOB_OPERATION@)),
            ("variables"@, find_result_by_job_variables(job_id)),
            ("query"@, JsonView::String(FIND_RESULT_BY_JOB_TEXT@)),
        ],
    )
}

/// The variables of the fetch by result, as they go on the wire.
pub open spec fn find_result_by_result_variables(result_id: Seq<char>) -> JsonView {
    JsonView::Object(
        seq![
            ("result_id"@, JsonView::String(result_id)),
            ("error_id"@, JsonView::String(NO_ERROR_ID@)),
        ],
    )
}

/// The envelope of the fetch by result, as it goes on the wire.
pub open spec fn find_result_by_result_envelope(result_id: Seq<char>) -> JsonView {
    JsonView::Object(
        seq![
            ("operationName"@, JsonView::String(FIND_RESULT_BY_RESULT_OPERATION@)),
            ("variables"@, find_result_by_result_variables(result_id)),
            ("query"@, JsonView::String(FIND_RESULT_BY_RESULT_TEXT@)),
        ],
    )
}

/// The variables of the fetch by job: the job whose rows are wanted.
#[derive(Debug, PartialEq, Eq)]
pub struct FindResultDataByJobIdVariables {
    job_id: String,
}

impl View for FindResultDataByJobIdVariables {
    type V = JsonView;

    closed spec fn view(&self) -> JsonView {
        find_result_by_job_variables(self.job_id@)
    }
}

impl FindResultDataByJobIdVariables {
    /// The variables that name the job `job_id`.
    pub fn new(job_id: String) -> (variables: FindResultDataByJobIdVariables)
        ensures
            variables@ == find_result_by_job_variables(job_id@),
    {
        FindResultDataByJobIdVariables { job_id }
    }

    /// The variables as a JSON value.
    pub fn to_json(&self) -> (j: Json)
        ensures
            j@ == self@,
    {
        let mut entries: Vec<(String, Json)> = Vec::new();
        push_entry(&mut entries, "job_id", Json::string(self.job_id.as_str()));
        assert(entries_view(entries@) =~= self@->Object_0);
        Json::object(entries)
    }
}

/// The request envelope of the fetch by job.
#[derive(Debug, PartialEq, Eq)]
pub struct FindResultDataByJobId {
    operation_name: &'static str,
    variables: FindResultDataByJobIdVariables,
    query: &'static str,
}

impl View for FindResultDataByJobId {
    type V = JsonView;

    closed spec fn view(&self) -> JsonView {
        JsonView::Object(
            seq![
                ("operationName"@, JsonView::String(self.operation_name@)),
                ("variables"@, self.variables@),
                ("query"@, JsonView::String(self.query@)),
            ],
        )
    }
}

impl FindResultDataByJobId {
    /// The envelope that asks for the rows of the job `job_id`.
    pub fn new(job_id: String) -> (envelope: FindResultDataByJobId)
        ensures
            envelope@ == find_result_by_job_envelope(job_id@),
    {
        FindResultDataByJobId {
            operation_name: FIND_RESULT_BY_JOB_OPERATION,
            variables: FindResultDataByJobIdVariables::new(job_id),
            query: FIND_RESULT_BY_JOB_TEXT,
        }
    }

    /// The envelope as a JSON value.
    pub fn to_json(&self) -> (j: Json)
        ensures
            j@ == self@,
    {
        let mut entries: Vec<(String, Json)> = Vec::new();
        push_entry(&mut entries, "operationName", Json::string(self.operation_name));
        push_entry(&mut entries, "variables", self.variables.to_json());
        push_entry(&mut entries, "query", Json::string(self.query));
        assert(entries_view(entries@) =~= self@->Object_0);
        Json::object(entries)
    }
}

/// The variables of the fetch by result: the result whose rows are wanted.
#[derive(Debug, PartialEq, Eq)]
pub struct FindResultDataByResultIdVariables {
    result_id: String,
    error_id: &'static str,
}

impl View for FindResultDataByResultIdVariables {
    type V = JsonView;

    closed spec fn view(&self) -> JsonView {
        JsonView::Object(
            seq![
                ("result_id"@, JsonView::String(self.result_id@)),
                ("error_id"@, JsonView::String(self.error_id@)),
            ],
        )
    }
}

impl FindResultDataByResultIdVariables {
    /// The variables that name the result `result_id`.
    pub fn new(result_id: String) -> (variables: FindResultDataByResultIdVariables)
        ensures
            variables@ == find_result_by_result_variables(result_id@),
    {
        FindResultDataByResultIdVariables { result_id, error_id: NO_ERROR_ID }
    }

    /// The variables as a JSON value.
    pub fn to_json(&self) -> (j: Json)
        ensures
            j@ == self@,
    {
        let mut entries: Vec<(String, Json)> = Vec::new();
        push_entry(&mut entries, "result_id", Json::string(self.result_id.as_str()));
        push_entry(&mut entries, "error_id", Json::string(self.error_id));
        assert(entries_view(entries@) =~= self@->Object_0);
        Json::object(entries)
    }
}

/// The request envelope of the fetch by result.
#[derive(Debug, PartialEq, Eq)]
pub struct FindResultDataByResultId {
    operation_name: &'static str,
    variables: FindResultDataByResultIdVariables,
    query: &'static str,
}

impl View for FindResultDataByResultId {
    type V = JsonView;

    closed spec fn view(&self) -> JsonView {
        JsonView::Object(
            seq![
                ("operationName"@, JsonView::String(self.operation_name@)),
                ("variables"@, self.variables@),
                ("query"@, JsonView::String(self.query@)),
            ],
        )
    }
}

impl FindResultDataByResultId {
    /// The envelope that asks for the rows of the result `result_id`.
    pub fn new(result_id: String) -> (envelope: FindResultDataByResultId)
        ensures
            envelope@ == find_result_by_result_envelope(result_id@),
    {
        FindResultDataByResultId {
            operation_name: FIND_RESULT_BY_RESULT_OPERATION,
            variables: FindResultDataByResultIdVariables::new(result_id),
            query: FIND_RESULT_BY_RESULT_TEXT,
        }
    }

    /// The envelope as a JSON value.
    pub fn to_json(&self) -> (j: Json)
        ensures
            j@ == self@,
    {
        let mut entries: Vec<(String, Json)> = Vec::new();
        push_entry(&mut entries, "operationName", Json::string(self.operation_name));
        push_entry(&mut entries, "variables", self.variables.to_json());
        push_entry(&mut entries, "query", Json::string(self.query));
        assert(entries_view(entries@) =~= self@->Object_0);
        Json::object(entries)
    }
}

/// One row as the service wraps it.
#[derive(Debug, PartialEq, Eq)]
pub struct FindResult<T> {
    data: T,
}

/// The rows, under the key that tells how they were asked for.
#[derive(Debug, PartialEq, Eq)]
pub enum FindResultsData<T> {
    ByJob { get_result_by_job_id: Vec<FindResult<T>> },
    ByResult { get_result_by_result_id: Vec<FindResult<T>> },
}

/// What the service answers: the rows of a job or of a result.
#[derive(Debug, PartialEq, Eq)]
pub struct FindResultDataResponse<T> {
    data: FindResultsData<T>,
}

/// The mathematical value of a [`FindResultDataResponse`].
pub ghost enum FindResultsView<V> {
    ByJob(Seq<V>),
    ByResult(Seq<V>),
}

impl<V> FindResultsView<V> {
    /// The rows, in the order of the answer, however they were asked for.
    pub open spec fn rows(self) -> Seq<V> {
        match self {
            FindResultsView::ByJob(rows) => rows,
            FindResultsView::ByResult(rows) => rows,
        }
    }
}

/// The rows that a sequence of wrapped rows holds, one for one.
pub closed spec fn unwrapped<T: View>(rows: Seq<FindResult<T>>) -> Seq<T::V> {
    Seq::new(rows.len(), |i: int| rows[i].data@)
}

impl<T: View> View for FindResultDataResponse<T> {
    type V = FindResultsView<T::V>;

    closed spec fn view(&self) -> FindResultsView<T::V> {
        match self.data {
            FindResultsData::ByJob { get_result_by_job_id } => FindResultsView::ByJob(
                unwrapped(get_result_by_job_id@),
            ),
            FindResultsData::ByResult { get_result_by_result_id } => FindResultsView::ByResult(
                unwrapped(get_result_by_result_id@),
            ),
        }
    }
}

/// What one element of the answer decodes to: the row under its `data`.
pub open spec fn decoded_row<T: FromJson>(item: JsonView) -> Option<T::V> {
    match item.member("data"@) {
        Some(data) => T::decoded(data),
        None => None,
    }
}

/// What the value under one of the two keys decodes to: it is an array, and
/// every element of it decodes to a row.
pub open spec fn decoded_rows<T: FromJson>(found: Option<JsonView>) -> Option<Seq<T::V>> {
    match found {
        Some(JsonView::Array(items)) => if forall|i: int|
            0 <= i < items.len() ==> (#[trigger] decoded_row::<T>(items[i])) is Some {
            Some(Seq::new(items.len(), |i: int| decoded_row::<T>(items[i]).unwrap()))
        } else {
            None
        },
        _ => None,
    }
}

/// Decodes the value under one of the two keys.
fn rows_from_json<T: FromJson>(found: Option<&Json>) -> (rows: Option<Vec<FindResult<T>>>)
    ensures
        match rows {
            Some(rows) => decoded_rows::<T>(
                match found {
                    Some(j) => Some(j@),
                    None => None,
                },
            ) == Some(unwrapped(rows@)),
            None => decoded_rows::<T>(
                match found {
                    Some(j) => Some(j@),
                    None => None,
                },
            ) is None,
        },
{
    let items = match found {
        Some(j) => match j.as_array() {
            Some(items) => items,
            None => { return None; },
        },
        None => { return None; },
    };
    let ghost wanted = views_of(items@);
    let mut rows: Vec<FindResult<T>> = Vec::new();
    let mut i: usize = 0;
    while i < items.len()
        invariant
            i <= items.len(),
            rows.len() == i,
            wanted == views_of(items@),
            found matches Some(j) && j@ == JsonView::Array(wanted),
            forall|k: int|
                0 <= k < i ==> decoded_row::<T>(wanted[k]) == Some(#[trigger] rows@[k].data@),
        decreases items.len() - i,
    {
        let data = match items[i].get("data") {
            Some(data) => data,
            None => {
                return None;
            },
        };
        match T::from_json(data) {
            Some(row) => {
                rows.push(FindResult { data: row });
            },
            None => {
                assert(decoded_row::<T>(wanted[i as int]) is None);
                return None;
            },
        }
        i += 1;
    }
    proof {
        assert forall|k: int| 0 <= k < wanted.len() implies (#[trigger] decoded_row::<T>(
            wanted[k],
        )) is Some by {
            assert(decoded_row::<T>(wanted[k]) == Some(rows@[k].data@));
        }
    }
    Some(rows)
}

impl<T: FromJson> FromJson for FindResultDataResponse<T> {
    /// `data` holds the rows under `get_result_by_job_id`, or else under
    /// `get_result_by_result_id`: the first of the two that decodes.
    open spec fn decoded(j: JsonView) -> Option<FindResultsView<T::V>> {
        match j.member("data"@) {
            Some(data) => match decoded_rows::<T>(data.member("get_result_by_job_id"@)) {
                Some(rows) => Some(FindResultsView::ByJob(rows)),
                None => match decoded_rows::<T>(data.member("get_result_by_result_id"@)) {
                    Some(rows) => Some(FindResultsView::ByResult(rows)),
                    None => None,
                },
            },
            None => None,
        }
    }

    fn from_json(j: &Json) -> (found: Option<FindResultDataResponse<T>>) {
        let data = match j.get("data") {
            Some(data) => data,
            None => { return None; },
        };
        match rows_from_json::<T>(data.get("get_result_by_job_id")) {
            Some(rows) => {
                return Some(
                    FindResultDataResponse {
                        data: FindResultsData::ByJob { get_result_by_job_id: rows },
                    },
                );
            },
            None => {},
        }
        match rows_from_json::<T>(data.get("get_result_by_result_id")) {
            Some(rows) => Some(
                FindResultDataResponse {
                    data: FindResultsData::ByResult { get_result_by_result_id: rows },
                },
            ),
            None => None,
        }
    }
}

/// Takes the rows out of their wrappers, in order.
fn unwrap_rows<T: View>(wrapped: Vec<FindResult<T>>) -> (rows: Vec<T>)
    ensures
        views_of(rows@) == unwrapped(wrapped@),
{
    let mut rows: Vec<T> = Vec::new();
    for row in it: wrapped
        invariant
            rows.len() == it.index(),
            forall|k: int| 0 <= k < it.index() ==> rows@[k]@ == it.seq()[k].data@,
    {
        rows.push(row.data);
    }
    rows
}

impl<T: View> FindResultDataResponse<T> {
    /// The rows, in the order of the answer, however they were asked for.
    pub fn data(self) -> (rows: Vec<T>)
        ensures
            views_of(rows@) == self@.rows(),
    {
        match self.data {
            FindResultsData::ByJob { get_result_by_job_id } => unwrap_rows(get_result_by_job_id),
            FindResultsData::ByResult { get_result_by_result_id } => unwrap_rows(
                get_result_by_result_id,
            ),
        }
    }
}

} // verus!
