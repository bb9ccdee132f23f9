use address_labels::domain::query::envelope::Envelope;
use address_labels::domain::query::execute_query::{ExecuteQuery, ExecuteQueryVariables, EXECUTE_QUERY_TEXT};
use address_labels::domain::query::find_results::{
    FindResultDataByJobId, FindResultDataByJobIdVariables, FindResultDataByResultId,
    FindResultDataByResultIdVariables, FIND_RESULT_BY_JOB_TEXT, FIND_RESULT_BY_RESULT_TEXT,
};
use address_labels::domain::query::get_queue_position::{
    GetQueuePosition, GetQueuePositionVariables, GET_QUEUE_POSITION_TEXT,
};
use address_labels::domain::query::upsert_query::{
    UpsertQuery, UpsertQueryOnConflict, UpsertQueryVariables, UpsertQueryVariablesObject,
    UpsertQueryVisualizations, UpsertQueryVisualizationsData, UpsertQueryVisualizationsOnConfilct,
    UPSERT_QUERY_TEXT,
};
use address_labels::json::Json;

fn object_of(entries: Vec<(&str, Json)>) -> Json {
    Json::Object(entries.into_iter().map(|(k, v)| (k.to_string(), v)).collect())
}

fn text_of(s: &str) -> Json {
    Json::String(s.to_string())
}

#[test]
fn execute_query_envelope_goes_on_the_wire_as_three_fields() {
    assert_eq!(
        ExecuteQueryVariables::new(917003).to_json(),
        object_of(vec![("query_id", Json::Integer(917003)), ("parameters", Json::Array(vec![]))])
    );
    assert_eq!(
        ExecuteQuery::new(917003).to_json(),
        object_of(vec![
            ("operationName", text_of("ExecuteQuery")),
            ("variables", object_of(vec![("query_id", Json::Integer(917003)), ("parameters", Json::Array(vec![]))])),
            ("query", text_of(EXECUTE_QUERY_TEXT)),
        ])
    );
    assert!(EXECUTE_QUERY_TEXT.starts_with("mutation ExecuteQuery($query_id: Int!, $parameters: [Parameter!]!) {\n"));
    assert_eq!(EXECUTE_QUERY_TEXT.len(), 165);
    assert_eq!(ExecuteQuery::new(-1).to_json().get("variables").unwrap().get_integer("query_id"), Some(-1));
}

#[test]
fn get_queue_position_envelope_names_the_job() {
    assert_eq!(
        GetQueuePositionVariables::new("job-1".to_string()).to_json(),
        object_of(vec![("job_id", text_of("job-1"))])
    );
    assert_eq!(
        GetQueuePosition::new("job-1".to_string()).to_json(),
        object_of(vec![
            ("operationName", text_of("GetQueuePosition")),
            ("variables", object_of(vec![("job_id", text_of("job-1"))])),
            ("query", text_of(GET_QUEUE_POSITION_TEXT)),
        ])
    );
    assert!(GET_QUEUE_POSITION_TEXT.starts_with("query GetQueuePosition($job_id: uuid!) {\n  view_queue_positions"));
    assert!(GET_QUEUE_POSITION_TEXT.contains("jobs_by_pk(id: $job_id)"));
}

#[test]
fn find_result_envelopes_name_job_or_result() {
    assert_eq!(
        FindResultDataByJobIdVariables::new("job-1".to_string()).to_json(),
        object_of(vec![("job_id", text_of("job-1"))])
    );
    assert_eq!(
        FindResultDataByJobId::new("job-1".to_string()).to_json(),
        object_of(vec![
            ("operationName", text_of("FindResultDataByJob")),
            ("variables", object_of(vec![("job_id", text_of("job-1"))])),
            ("query", text_of(FIND_RESULT_BY_JOB_TEXT)),
        ])
    );
    assert_eq!(
        FindResultDataByResultIdVariables::new("res-1".to_string()).to_json(),
        object_of(vec![
            ("result_id", text_of("res-1")),
            ("error_id", text_of("00000000-0000-0000-0000-000000000000")),
        ])
    );
    assert_eq!(
        FindResultDataByResultId::new("res-1".to_string()).to_json(),
        object_of(vec![
            ("operationName", text_of("FindResultDataByResult")),
            (
                "variables",
                object_of(vec![
                    ("result_id", text_of("res-1")),
                    ("error_id", text_of("00000000-0000-0000-0000-000000000000")),
                ])
            ),
            ("query", text_of(FIND_RESULT_BY_RESULT_TEXT)),
        ])
    );
    assert!(FIND_RESULT_BY_JOB_TEXT.contains("get_result_by_job_id(args: {want_job_id: $job_id})"));
    assert!(FIND_RESULT_BY_RESULT_TEXT.contains("get_result_by_result_id(args: {want_result_id: $result_id})"));
}

fn expected_visualizations() -> Json {
    object_of(vec![
        (
            "data",
            Json::Array(vec![object_of(vec![
                ("type", text_of("table")),
                ("name", text_of("Query results")),
                ("options", Json::Object(vec![])),
            ])]),
        ),
        (
            "on_conflict",
            object_of(vec![
                ("constraint", text_of("visualizations_pkey")),
                ("update_columns", Json::Array(vec![])),
            ]),
        ),
    ])
}

fn expected_object(user_id: i128, query: &str) -> Json {
    object_of(vec![
        ("schedule", Json::Null),
        ("dataset_id", Json::Integer(4)),
        ("name", text_of("NewQuery")),
        ("query", text_of(query)),
        ("user_id", Json::Integer(user_id)),
        ("team_id", Json::Null),
        ("description", text_of("")),
        ("is_archived", Json::Bool(false)),
        ("is_temp", Json::Bool(true)),
        ("is_private", Json::Bool(false)),
        ("parameters", Json::Array(vec![])),
        ("visualizations", expected_visualizations()),
    ])
}

#[test]
fn upsert_query_defaults_are_the_fixed_parts() {
    assert_eq!(
        UpsertQueryVisualizationsData::default().to_json(),
        object_of(vec![
            ("type", text_of("table")),
            ("name", text_of("Query results")),
            ("options", Json::Object(vec![])),
        ])
    );
    assert_eq!(
        UpsertQueryVisualizationsOnConfilct::default().to_json(),
        object_of(vec![("constraint", text_of("visualizations_pkey")), ("update_columns", Json::Array(vec![]))])
    );
    assert_eq!(UpsertQueryVisualizations::default().to_json(), expected_visualizations());
    assert_eq!(
        UpsertQueryOnConflict::default().to_json(),
        object_of(vec![("constraint", text_of("queries_pkey")), ("update_columns", Json::Array(vec![]))])
    );
}

#[test]
fn upsert_query_envelope_carries_user_session_and_query() {
    assert_eq!(
        UpsertQueryVariablesObject::new(121830, "SELECT 1".to_string()).to_json(),
        expected_object(121830, "SELECT 1")
    );
    let variables = object_of(vec![
        ("favs_last_24h", Json::Bool(false)),
        ("favs_last_7d", Json::Bool(false)),
        ("favs_last_30d", Json::Bool(false)),
        ("favs_all_time", Json::Bool(true)),
        ("object", expected_object(121830, "SELECT 1")),
        (
            "on_conflict",
            object_of(vec![("constraint", text_of("queries_pkey")), ("update_columns", Json::Array(vec![]))]),
        ),
        ("session_id", Json::Integer(7)),
    ]);
    assert_eq!(UpsertQueryVariables::new(121830, 7, "SELECT 1".to_string()).to_json(), variables);
    assert_eq!(
        UpsertQuery::new(121830, 7, "SELECT 1".to_string()).to_json(),
        object_of(vec![
            ("operationName", text_of("UpsertQuery")),
            ("variables", variables),
            ("query", text_of(UPSERT_QUERY_TEXT)),
        ])
    );
    assert!(UPSERT_QUERY_TEXT.starts_with("mutation UpsertQuery($session_id: Int!, $object: queries_insert_input!"));
    assert!(UPSERT_QUERY_TEXT.ends_with("favorite_count    __typename  }  __typename}"));
    assert_eq!(UPSERT_QUERY_TEXT.len(), 1876);
}

#[test]
fn an_envelope_renders_as_the_request_that_it_holds() {
    assert_eq!(Envelope::ExecuteQuery(ExecuteQuery::new(3)).to_json(), ExecuteQuery::new(3).to_json());
    assert_eq!(
        Envelope::GetQueuePosition(GetQueuePosition::new("j".to_string())).to_json(),
        GetQueuePosition::new("j".to_string()).to_json()
    );
    assert_eq!(
        Envelope::FindResult(FindResultDataByJobId::new("j".to_string())).to_json(),
        FindResultDataByJobId::new("j".to_string()).to_json()
    );
    assert_eq!(
        Envelope::UpsertQuery(UpsertQuery::new(1, 2, "q".to_string())).to_json(),
        UpsertQuery::new(1, 2, "q".to_string()).to_json()
    );
}
