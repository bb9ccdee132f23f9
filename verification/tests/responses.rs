use address_labels::domain::model::address_label::AddressLabel;
use address_labels::domain::model::label_data::LabelData;
use address_labels::domain::query::execute_query::ExecuteQueryResponse;
use address_labels::domain::query::find_results::FindResultDataResponse;
use address_labels::domain::query::get_queue_position::GetQueuePositionResponse;
use address_labels::domain::query::session::SessionResponse;
use address_labels::domain::query::upsert_query::UpsertQueryResponse;
use address_labels::json::Json;
use address_labels::json_text::from_str;

#[test]
fn deserialize_execute_query_response_should_ok() {
    let json = r#"
    {
        "data": {
            "execute_query": {
                "job_id": "b0a5808d-a4f7-402e-b7e5-d6db9c0d0913",
                "__typename": "execute_query_response"
            }
        }
    }
    "#;

    let res = from_str::<ExecuteQueryResponse>(&json).unwrap();
    assert_eq!(res.job_id(), "b0a5808d-a4f7-402e-b7e5-d6db9c0d0913");
}

#[test]
fn deserialize_find_result_data_response_should_ok() {
    let json = r#"
    {
        "data": {
          "query_results": [],
          "get_result_by_result_id": []
        }
      }
    "#;

    assert!(from_str::<FindResultDataResponse<Json>>(&json).is_some());
}

#[test]
fn deserialize_get_query_position_should_ok() {
    let json = r#"
    {
        "data": {
          "view_queue_positions": [],
          "jobs_by_pk": {
            "id": "ae3b0c14-4022-426b-87ab-82048135d22c",
            "user_id": 121830,
            "category": "execute",
            "created_at": "2022-06-16T13:01:04.593305+00:00",
            "locked_until": "2022-06-16T13:31:04.594428+00:00",
            "__typename": "jobs"
          }
        }
      }
    "#;

    let res = from_str::<GetQueuePositionResponse>(&json).unwrap();
    assert!(res.jobs_by_pk().is_some());
    assert!(res.is_executing());
}

#[test]
fn deserialize_upsert_query_response_should_ok() {
    let json = r#"
    {
        "data": {
            "insert_queries_one": {
                "id": 917003,
                "dataset_id": 4,
                "name": "New Query",
                "description": "",
                "query": "SELECT\n  address,\n  \"name\" as label_name,\n  \"type\" as label_type\nFROM\n  labels.labels\nWHERE\n  name = 'dex trader'\n  AND type = 'activity'\n  AND octet_length(address) > 0\nORDER BY\n  address ASC\nLIMIT\n  10",
                "is_private": false,
                "is_temp": true,
                "is_archived": false,
                "created_at": "2022-06-17T01:46:01.596472+00:00",
                "updated_at": "2022-06-17T01:46:01.596472+00:00",
                "schedule": null,
                "tags": null,
                "parameters": [],
                "__typename": "queries",
                "visualizations": [
                    {
                        "id": 1604231,
                        "type": "table",
                        "name": "Query results",
                        "options": {},
                        "created_at": "2022-06-17T01:46:01.596472+00:00",
                        "__typename": "visualizations"
                    }
                ],
                "forked_query": null,
                "user": {
                    "id": 121830,
                    "name": "matrix2016",
                    "profile_image_url": null,
                    "__typename": "users"
                },
                "team": null,
                "query_favorite_count_all": null,
                "favorite_queries": []
            }
        }
    }
    "#;

    let res = from_str::<UpsertQueryResponse>(json).unwrap();
    assert_eq!(res.query_id(), 917003);
}

#[test]
fn execute_query_fixture_yields_its_job_id() {
    let json = r#"{"data":{"execute_query":{"job_id":"b0a5808d-a4f7-402e-b7e5-d6db9c0d0913"}}}"#;
    let res = from_str::<ExecuteQueryResponse>(json).unwrap();
    assert_eq!(res.job_id(), "b0a5808d-a4f7-402e-b7e5-d6db9c0d0913");
}

#[test]
fn execute_query_response_needs_a_string_job_id() {
    assert!(from_str::<ExecuteQueryResponse>(r#"{"data":{"execute_query":{"job_id":7}}}"#).is_none());
    assert!(from_str::<ExecuteQueryResponse>(r#"{"data":{"execute_query":{}}}"#).is_none());
    assert!(from_str::<ExecuteQueryResponse>(r#"{"data":{}}"#).is_none());
    assert!(from_str::<ExecuteQueryResponse>(r#"{"data":null}"#).is_none());
    assert!(from_str::<ExecuteQueryResponse>(r#"{}"#).is_none());
    assert!(from_str::<ExecuteQueryResponse>(r#"{"data":{"execute_query":{"job_id":"x"}}"#).is_none());
    assert!(from_str::<ExecuteQueryResponse>("").is_none());
}

#[test]
fn upsert_query_response_needs_an_id_of_32_bits() {
    let at = |id: &str| format!(r#"{{"data":{{"insert_queries_one":{{"id":{}}}}}}}"#, id);
    assert_eq!(from_str::<UpsertQueryResponse>(&at("2147483647")).unwrap().query_id(), 2147483647);
    assert_eq!(from_str::<UpsertQueryResponse>(&at("-2147483648")).unwrap().query_id(), -2147483648);
    assert_eq!(from_str::<UpsertQueryResponse>(&at("0")).unwrap().query_id(), 0);
    assert!(from_str::<UpsertQueryResponse>(&at("2147483648")).is_none());
    assert!(from_str::<UpsertQueryResponse>(&at("-2147483649")).is_none());
    assert!(from_str::<UpsertQueryResponse>(&at("917003.0")).is_none());
    assert!(from_str::<UpsertQueryResponse>(&at("\"917003\"")).is_none());
    assert!(from_str::<UpsertQueryResponse>(&at("null")).is_none());
    assert!(from_str::<UpsertQueryResponse>(r#"{"data":{"insert_queries_one":{}}}"#).is_none());
}

#[test]
fn poll_is_executing_only_for_the_executing_category() {
    let executing = from_str::<GetQueuePositionResponse>(r#"{"data":{"jobs_by_pk":{"category":"execute"}}}"#).unwrap();
    assert!(executing.is_executing());
    assert_eq!(executing.jobs_by_pk().unwrap().category(), "execute");

    let absent = from_str::<GetQueuePositionResponse>(r#"{"data":{"jobs_by_pk":null}}"#).unwrap();
    assert!(absent.jobs_by_pk().is_none());
    assert!(!absent.is_executing());

    let missing = from_str::<GetQueuePositionResponse>(r#"{"data":{"view_queue_positions":[]}}"#).unwrap();
    assert!(missing.jobs_by_pk().is_none());
    assert!(!missing.is_executing());

    for other in ["done", "execut", "executed", "Execute", "", "queued"] {
        let text = format!(r#"{{"data":{{"jobs_by_pk":{{"category":"{}"}}}}}}"#, other);
        let res = from_str::<GetQueuePositionResponse>(&text).unwrap();
        assert!(res.jobs_by_pk().is_some());
        assert!(!res.is_executing());
    }
}

#[test]
fn poll_response_needs_an_object_under_data() {
    assert!(from_str::<GetQueuePositionResponse>(r#"{"data":5}"#).is_none());
    assert!(from_str::<GetQueuePositionResponse>(r#"{"data":null}"#).is_none());
    assert!(from_str::<GetQueuePositionResponse>(r#"{}"#).is_none());
    assert!(from_str::<GetQueuePositionResponse>(r#"{"data":{"jobs_by_pk":{}}}"#).is_none());
    assert!(from_str::<GetQueuePositionResponse>(r#"{"data":{"jobs_by_pk":{"category":1}}}"#).is_none());
    assert!(from_str::<GetQueuePositionResponse>(r#"{"data":{"jobs_by_pk":"execute"}}"#).is_none());
    assert!(from_str::<GetQueuePositionResponse>(r#"{"data":{}}"#).is_some());
}

#[test]
fn session_response_holds_its_token() {
    assert_eq!(from_str::<SessionResponse>(r#"{"token":"abc.def","sub":"x"}"#).unwrap().token(), "abc.def");
    assert!(from_str::<SessionResponse>(r#"{"token":null}"#).is_none());
    assert!(from_str::<SessionResponse>(r#"{"Token":"abc"}"#).is_none());
    assert!(from_str::<SessionResponse>(r#"["abc"]"#).is_none());
}

#[test]
fn rows_by_job_and_by_result_come_out_alike() {
    let row = |address: &str| {
        format!(r#"{{"data":{{"address":"{}","label_type":"activity","label_name":"dex trader"}},"__typename":"r"}}"#, address)
    };
    let by_job = format!(
        r#"{{"data":{{"query_results":[],"query_errors":[],"get_result_by_job_id":[{},{}]}}}}"#,
        row("\\\\x01"),
        row("\\\\x02")
    );
    let by_result = format!(
        r#"{{"data":{{"get_result_by_result_id":[{},{}]}}}}"#,
        row("\\\\x01"),
        row("\\\\x02")
    );
    let expected = vec![
        AddressLabel::new("\\x01".to_string(), "activity".to_string(), "dex trader".to_string()),
        AddressLabel::new("\\x02".to_string(), "activity".to_string(), "dex trader".to_string()),
    ];
    assert_eq!(from_str::<FindResultDataResponse<AddressLabel>>(&by_job).unwrap().data(), expected);
    assert_eq!(from_str::<FindResultDataResponse<AddressLabel>>(&by_result).unwrap().data(), expected);
}

#[test]
fn rows_by_job_win_over_rows_by_result() {
    let text = r#"{"data":{
        "get_result_by_result_id":[{"data":{"address":"b","label_type":"t","label_name":"n"}}],
        "get_result_by_job_id":[{"data":{"address":"a","label_type":"t","label_name":"n"}}]}}"#;
    let rows = from_str::<FindResultDataResponse<AddressLabel>>(text).unwrap().data();
    assert_eq!(rows, vec![AddressLabel::new("a".to_string(), "t".to_string(), "n".to_string())]);
}

#[test]
fn rows_by_result_are_taken_where_rows_by_job_do_not_decode() {
    let text = r#"{"data":{
        "get_result_by_job_id":[{"data":{"address":1}}],
        "get_result_by_result_id":[{"data":{"address":"b","label_type":"t","label_name":"n"}}]}}"#;
    let rows = from_str::<FindResultDataResponse<AddressLabel>>(text).unwrap().data();
    assert_eq!(rows, vec![AddressLabel::new("b".to_string(), "t".to_string(), "n".to_string())]);
}

#[test]
fn rows_need_one_of_the_two_keys_and_rows_of_the_right_shape() {
    assert!(from_str::<FindResultDataResponse<AddressLabel>>(r#"{"data":{}}"#).is_none());
    assert!(from_str::<FindResultDataResponse<AddressLabel>>(r#"{"data":{"get_result_by_job_id":null}}"#).is_none());
    assert!(from_str::<FindResultDataResponse<AddressLabel>>(r#"{"data":{"get_result_by_job_id":{}}}"#).is_none());
    assert!(from_str::<FindResultDataResponse<AddressLabel>>(r#"{"data":{"get_result_by_job_id":[{}]}}"#).is_none());
    assert!(from_str::<FindResultDataResponse<AddressLabel>>(
        r#"{"data":{"get_result_by_job_id":[{"data":{"address":"a","label_type":"t"}}]}}"#
    )
    .is_none());
    assert!(from_str::<FindResultDataResponse<AddressLabel>>(
        r#"{"data":{"get_result_by_job_id":[{"data":{"address":"a","label_type":"t","label_name":"n"}},{"data":null}]}}"#
    )
    .is_none());
    assert_eq!(
        from_str::<FindResultDataResponse<AddressLabel>>(r#"{"data":{"get_result_by_job_id":[]}}"#).unwrap().data(),
        vec![]
    );
}

#[test]
fn rows_of_any_shape_are_kept_as_json() {
    let text = r#"{"data":{"get_result_by_result_id":[{"data":1},{"data":"x"},{"data":null}]}}"#;
    let rows = from_str::<FindResultDataResponse<Json>>(text).unwrap().data();
    assert_eq!(rows, vec![Json::Integer(1), Json::String("x".to_string()), Json::Null]);
}

#[test]
fn label_table_lines_decode() {
    let text = r#"{"data":{"get_result_by_result_id":[
        {"data":{"label_name":"dex trader","label_type":"activity","amount":25}},
        {"data":{"label_name":"x","label_type":"ens name","amount":0}}]}}"#;
    let lines = from_str::<FindResultDataResponse<LabelData>>(text).unwrap().data();
    assert_eq!(
        lines,
        vec![
            LabelData::new("dex trader".to_string(), "activity".to_string(), 25),
            LabelData::new("x".to_string(), "ens name".to_string(), 0),
        ]
    );
    let negative = r#"{"data":{"get_result_by_result_id":[{"data":{"label_name":"a","label_type":"b","amount":-1}}]}}"#;
    assert!(from_str::<FindResultDataResponse<LabelData>>(negative).is_none());
    let fraction = r#"{"data":{"get_result_by_result_id":[{"data":{"label_name":"a","label_type":"b","amount":1.5}}]}}"#;
    assert!(from_str::<FindResultDataResponse<LabelData>>(fraction).is_none());
}
