use address_labels::domain::model::address_label::AddressLabel;
use address_labels::domain::model::work_item::WorkItem;
use address_labels::domain::query::envelope::Envelope;
use address_labels::domain::query::execute_query::ExecuteQuery;
use address_labels::domain::query::find_results::FindResultDataByJobId;
use address_labels::domain::query::get_queue_position::GetQueuePosition;
use address_labels::domain::query::upsert_query::UpsertQuery;
use address_labels::json_text::parse;
use address_labels::query_task::{Action, Event, Failure, Input, QueryTask, QueryTaskState, RemoteCall};

const SESSION: &str = r#"{"token":"tok-1"}"#;
const REGISTERED: &str = r#"{"data":{"insert_queries_one":{"id":917003}}}"#;
const ACCEPTED: &str = r#"{"data":{"execute_query":{"job_id":"b0a5808d-a4f7-402e-b7e5-d6db9c0d0913"}}}"#;
const RUNNING: &str = r#"{"data":{"view_queue_positions":[],"jobs_by_pk":{"category":"execute"}}}"#;
const FINISHED: &str = r#"{"data":{"view_queue_positions":[],"jobs_by_pk":null}}"#;
const JOB: &str = "b0a5808d-a4f7-402e-b7e5-d6db9c0d0913";

fn dex_trader(amount: usize, page_cap: usize) -> QueryTask {
    QueryTask::new(121830, page_cap, "activity".to_string(), "dex trader".to_string(), amount)
}

fn address_of(n: usize) -> String {
    format!("\\x{:04}", n)
}

fn stored_address_of(n: usize) -> String {
    format!("0x{:04}", n)
}

fn page_text(from: usize, count: usize) -> String {
    let rows: Vec<String> = (from..from + count)
        .map(|n| {
            format!(
                r#"{{"data":{{"address":"\\x{:04}","label_type":"activity","label_name":"dex trader"}}}}"#,
                n
            )
        })
        .collect();
    format!(r#"{{"data":{{"query_results":[],"get_result_by_job_id":[{}]}}}}"#, rows.join(","))
}

fn page_of(from: usize, count: usize) -> Vec<AddressLabel> {
    (from..from + count)
        .map(|n| AddressLabel::new(address_of(n), "activity".to_string(), "dex trader".to_string()))
        .collect()
}

fn query_call(token: &str, envelope: Envelope) -> Action {
    Action::Call(RemoteCall::Query { bearer_token: token.to_string(), envelope })
}

fn select(condition: &str, limit: usize) -> String {
    format!(
        "SELECT address, name AS label_name, type AS label_type FROM labels.labels WHERE {} ORDER BY address ASC LIMIT {}",
        condition, limit
    )
}

/// Runs one page cycle up to the fetch, and checks every call on the way.
fn cycle_to_fetch(task: &mut QueryTask, token: &str, query: &str) {
    assert_eq!(task.step(Event::Resume), Action::Call(RemoteCall::Session));
    assert_eq!(task.state(), &QueryTaskState::AcquiringSession);
    let session = format!(r#"{{"token":"{}"}}"#, token);
    assert_eq!(
        task.step(Event::Reply(session)),
        query_call(token, Envelope::UpsertQuery(UpsertQuery::new(121830, 121830, query.to_string())))
    );
    assert_eq!(task.state(), &QueryTaskState::SubmittingQuery);
    assert_eq!(
        task.step(Event::Reply(REGISTERED.to_string())),
        query_call(token, Envelope::ExecuteQuery(ExecuteQuery::new(917003)))
    );
    assert_eq!(task.state(), &QueryTaskState::ExecutingQuery);
    assert_eq!(
        task.step(Event::Reply(ACCEPTED.to_string())),
        query_call(token, Envelope::GetQueuePosition(GetQueuePosition::new(JOB.to_string())))
    );
    assert_eq!(task.state(), &QueryTaskState::Polling { job_id: JOB.to_string() });
    assert_eq!(
        task.step(Event::Reply(FINISHED.to_string())),
        query_call(token, Envelope::FindResult(FindResultDataByJobId::new(JOB.to_string())))
    );
    assert_eq!(task.state(), &QueryTaskState::FetchingResult { job_id: JOB.to_string() });
}

#[test]
fn a_pipeline_that_wants_nothing_completes_at_once() {
    let mut task = dex_trader(0, 100000);
    assert_eq!(task.state(), &QueryTaskState::Start);
    assert_eq!(task.step(Event::Resume), Action::Complete);
    assert_eq!(task.state(), &QueryTaskState::Completed);
    assert!(task.is_terminal());
    assert_eq!(task.step(Event::Resume), Action::Idle);
    assert_eq!(task.step(Event::Reply(SESSION.to_string())), Action::Idle);
    assert_eq!(task.step(Event::Failure("late".to_string())), Action::Idle);
    assert_eq!(task.state(), &QueryTaskState::Completed);
}

#[test]
fn a_pipeline_that_wants_nothing_ignores_replies_before_it_is_resumed() {
    let mut task = dex_trader(0, 100000);
    assert_eq!(task.step(Event::Reply(SESSION.to_string())), Action::Idle);
    assert_eq!(task.step(Event::Failure("x".to_string())), Action::Idle);
    assert_eq!(task.state(), &QueryTaskState::Start);
    assert_eq!(task.step(Event::Resume), Action::Complete);
}

#[test]
fn twenty_five_dex_traders_come_in_one_page() {
    let mut task = dex_trader(25, 100000);
    cycle_to_fetch(
        &mut task,
        "tok-1",
        &select("type = 'activity' AND name = 'dex trader' AND octet_length(address) > 0", 25),
    );
    assert_eq!(task.step(Event::Reply(page_text(1, 25))), Action::Emit(page_of(1, 25)));
    assert_eq!(task.state(), &QueryTaskState::Evaluating);
    assert_eq!(task.amount(), 0);
    assert_eq!(task.base_address(), Some(stored_address_of(25).as_str()));
    assert_eq!(task.step(Event::Resume), Action::Complete);
    assert_eq!(task.state(), &QueryTaskState::Completed);
}

#[test]
fn pages_add_up_to_the_target_count() {
    let mut task = dex_trader(25, 10);
    let label = "type = 'activity' AND name = 'dex trader' AND octet_length(address) > 0";
    let mut emitted = 0;

    cycle_to_fetch(&mut task, "tok-1", &select(label, 10));
    match task.step(Event::Reply(page_text(1, 10))) {
        Action::Emit(page) => emitted += page.len(),
        other => panic!("no page: {:?}", other),
    }
    assert_eq!(task.amount(), 15);

    cycle_to_fetch(&mut task, "tok-2", &select(&format!("{}AND address > '0x0010'", label), 10));
    match task.step(Event::Reply(page_text(11, 10))) {
        Action::Emit(page) => emitted += page.len(),
        other => panic!("no page: {:?}", other),
    }
    assert_eq!(task.amount(), 5);

    cycle_to_fetch(&mut task, "tok-3", &select(&format!("{}AND address > '0x0020'", label), 5));
    assert_eq!(task.step(Event::Reply(page_text(21, 5))), Action::Emit(page_of(21, 5)));
    emitted += 5;
    assert_eq!(task.amount(), 0);
    assert_eq!(emitted, 25);
    assert_eq!(task.step(Event::Resume), Action::Complete);
    assert!(task.is_terminal());
}

#[test]
fn an_empty_page_completes_the_pipeline_without_a_page() {
    let mut task = dex_trader(25, 10);
    let label = "type = 'activity' AND name = 'dex trader' AND octet_length(address) > 0";
    cycle_to_fetch(&mut task, "tok-1", &select(label, 10));
    assert_eq!(task.step(Event::Reply(page_text(1, 10))), Action::Emit(page_of(1, 10)));
    cycle_to_fetch(&mut task, "tok-2", &select(&format!("{}AND address > '0x0010'", label), 10));
    assert_eq!(task.step(Event::Reply(page_text(11, 0))), Action::Complete);
    assert_eq!(task.state(), &QueryTaskState::Completed);
    assert_eq!(task.amount(), 15);
    assert_eq!(task.base_address(), Some("0x0010"));
    assert_eq!(task.step(Event::Resume), Action::Idle);
}

#[test]
fn a_short_page_is_handed_out_and_the_pipeline_goes_on() {
    let mut task = dex_trader(25, 100000);
    let label = "type = 'activity' AND name = 'dex trader' AND octet_length(address) > 0";
    cycle_to_fetch(&mut task, "tok-1", &select(label, 25));
    assert_eq!(task.step(Event::Reply(page_text(1, 10))), Action::Emit(page_of(1, 10)));
    assert_eq!(task.amount(), 15);
    cycle_to_fetch(&mut task, "tok-2", &select(&format!("{}AND address > '0x0010'", label), 15));
}

#[test]
fn a_page_longer_than_wanted_leaves_nothing_wanted() {
    let mut task = dex_trader(3, 100000);
    cycle_to_fetch(
        &mut task,
        "tok-1",
        &select("type = 'activity' AND name = 'dex trader' AND octet_length(address) > 0", 3),
    );
    assert_eq!(task.step(Event::Reply(page_text(1, 5))), Action::Emit(page_of(1, 5)));
    assert_eq!(task.amount(), 0);
    assert_eq!(task.step(Event::Resume), Action::Complete);
}

#[test]
fn a_page_cap_of_zero_asks_for_no_row() {
    let mut task = dex_trader(25, 0);
    cycle_to_fetch(
        &mut task,
        "tok-1",
        &select("type = 'activity' AND name = 'dex trader' AND octet_length(address) > 0", 0),
    );
}

#[test]
fn the_query_of_a_page_names_label_cursor_and_limit() {
    let task = QueryTask::new(1, 100000, "t".to_string(), "n".to_string(), 100001);
    assert_eq!(
        task.query(),
        "SELECT address, name AS label_name, type AS label_type FROM labels.labels WHERE type = 't' AND name = 'n' AND octet_length(address) > 0 ORDER BY address ASC LIMIT 100000"
    );
    let small = QueryTask::new(1, 100000, "".to_string(), "".to_string(), 7);
    assert_eq!(
        small.query(),
        "SELECT address, name AS label_name, type AS label_type FROM labels.labels WHERE type = '' AND name = '' AND octet_length(address) > 0 ORDER BY address ASC LIMIT 7"
    );
}

#[test]
fn a_pipeline_describes_itself() {
    assert_eq!(dex_trader(25, 10).describe(), "type: activity, name: dex trader, amount: 25");
    assert_eq!(dex_trader(0, 10).describe(), "type: activity, name: dex trader, amount: 0");
}

#[test]
fn a_pipeline_is_made_for_a_work_item() {
    let item = WorkItem::new("activity".to_string(), "dex trader".to_string(), 25);
    let task = QueryTask::for_item(121830, 10, &item);
    assert_eq!(task.label_type(), "activity");
    assert_eq!(task.label_name(), "dex trader");
    assert_eq!(task.amount(), 25);
    assert_eq!(task.base_address(), None);
    assert_eq!(task.state(), &QueryTaskState::Start);
    assert!(!task.is_terminal());
    assert_eq!(task.query(), dex_trader(25, 10).query());
}

#[test]
fn polling_goes_on_while_the_job_is_executing() {
    let mut task = dex_trader(25, 100000);
    task.step(Event::Resume);
    task.step(Event::Reply(SESSION.to_string()));
    task.step(Event::Reply(REGISTERED.to_string()));
    task.step(Event::Reply(ACCEPTED.to_string()));
    for _ in 0..3 {
        assert_eq!(
            task.step(Event::Reply(RUNNING.to_string())),
            query_call("tok-1", Envelope::GetQueuePosition(GetQueuePosition::new(JOB.to_string())))
        );
        assert_eq!(task.state(), &QueryTaskState::Polling { job_id: JOB.to_string() });
    }
    let other = r#"{"data":{"jobs_by_pk":{"category":"done"}}}"#;
    assert_eq!(
        task.step(Event::Reply(other.to_string())),
        query_call("tok-1", Envelope::FindResult(FindResultDataByJobId::new(JOB.to_string())))
    );
    assert_eq!(task.state(), &QueryTaskState::FetchingResult { job_id: JOB.to_string() });
}

#[test]
fn every_page_cycle_takes_a_fresh_token() {
    let mut task = dex_trader(2, 1);
    let label = "type = 'activity' AND name = 'dex trader' AND octet_length(address) > 0";
    cycle_to_fetch(&mut task, "first", &select(label, 1));
    task.step(Event::Reply(page_text(1, 1)));
    cycle_to_fetch(&mut task, "second", &select(&format!("{}AND address > '0x0001'", label), 1));
}

fn task_awaiting(replies: &[&str]) -> QueryTask {
    let mut task = dex_trader(25, 100000);
    task.step(Event::Resume);
    for reply in replies {
        task.step(Event::Reply(reply.to_string()));
    }
    task
}

#[test]
fn a_failed_call_fails_the_pipeline_in_every_waiting_state() {
    let paths: Vec<Vec<&str>> = vec![
        vec![],
        vec![SESSION],
        vec![SESSION, REGISTERED],
        vec![SESSION, REGISTERED, ACCEPTED],
        vec![SESSION, REGISTERED, ACCEPTED, FINISHED],
    ];
    for path in paths {
        let mut task = task_awaiting(&path);
        assert!(!task.is_terminal());
        assert_eq!(
            task.step(Event::Failure("connection reset".to_string())),
            Action::Fail(Failure::Transport("connection reset".to_string()))
        );
        assert_eq!(task.state(), &QueryTaskState::Failed);
        assert!(task.is_terminal());
        assert_eq!(task.amount(), 25);
        assert_eq!(task.step(Event::Resume), Action::Idle);
        assert_eq!(task.step(Event::Failure("again".to_string())), Action::Idle);
        assert_eq!(task.state(), &QueryTaskState::Failed);
    }
}

#[test]
fn an_answer_of_another_shape_fails_the_pipeline_in_every_waiting_state() {
    let paths: Vec<Vec<&str>> = vec![
        vec![],
        vec![SESSION],
        vec![SESSION, REGISTERED],
        vec![SESSION, REGISTERED, ACCEPTED],
        vec![SESSION, REGISTERED, ACCEPTED, FINISHED],
    ];
    for path in paths {
        for body in [r#"{"errors":[{"message":"denied"}]}"#, "<html>", ""] {
            let mut task = task_awaiting(&path);
            assert_eq!(
                task.step(Event::Reply(body.to_string())),
                Action::Fail(Failure::Decode(body.to_string()))
            );
            assert_eq!(task.state(), &QueryTaskState::Failed);
        }
    }
}

#[test]
fn events_that_do_not_fit_the_state_change_nothing() {
    let mut waiting = task_awaiting(&[SESSION]);
    assert_eq!(waiting.step(Event::Resume), Action::Idle);
    assert_eq!(waiting.state(), &QueryTaskState::SubmittingQuery);

    let mut paused = task_awaiting(&[SESSION, REGISTERED, ACCEPTED, FINISHED]);
    paused.step(Event::Reply(page_text(1, 5)));
    assert_eq!(paused.state(), &QueryTaskState::Evaluating);
    assert_eq!(paused.step(Event::Reply(SESSION.to_string())), Action::Idle);
    assert_eq!(paused.step(Event::Failure("x".to_string())), Action::Idle);
    assert_eq!(paused.state(), &QueryTaskState::Evaluating);
    assert_eq!(paused.amount(), 20);
}

#[test]
fn advance_takes_an_answer_that_has_been_read() {
    let mut task = dex_trader(25, 100000);
    assert_eq!(task.advance(Input::Resume), Action::Call(RemoteCall::Session));
    let body = SESSION.to_string();
    let document = parse(&body);
    assert!(matches!(
        task.advance(Input::Reply { body, document }),
        Action::Call(RemoteCall::Query { .. })
    ));
    assert_eq!(
        task.advance(Input::Reply { body: "gone".to_string(), document: None }),
        Action::Fail(Failure::Decode("gone".to_string()))
    );
    let mut other = dex_trader(25, 100000);
    other.advance(Input::Resume);
    assert_eq!(
        other.advance(Input::Failure("timeout".to_string())),
        Action::Fail(Failure::Transport("timeout".to_string()))
    );
}

#[test]
fn the_cursor_is_the_greatest_stored_address_of_the_page() {
    let mut task = task_awaiting(&[SESSION, REGISTERED, ACCEPTED, FINISHED]);
    let text = r#"{"data":{"get_result_by_job_id":[
        {"data":{"address":"\\x0a","label_type":"activity","label_name":"dex trader"}},
        {"data":{"address":"\\x0b\\","label_type":"activity","label_name":"dex trader"}}]}}"#;
    match task.step(Event::Reply(text.to_string())) {
        Action::Emit(page) => {
            assert_eq!(page.len(), 2);
            assert_eq!(page[1].address(), "0x0b0");
        }
        other => panic!("no page: {:?}", other),
    }
    assert_eq!(task.base_address(), Some("0x0b0"));
    assert_eq!(task.amount(), 23);
    assert!(task.query().ends_with(" AND octet_length(address) > 0AND address > '0x0b0' ORDER BY address ASC LIMIT 23"));
}

#[test]
fn the_cursor_does_not_depend_on_the_order_of_the_page() {
    let mut task = task_awaiting(&[SESSION, REGISTERED, ACCEPTED, FINISHED]);
    let text = r#"{"data":{"get_result_by_job_id":[
        {"data":{"address":"\\x0c","label_type":"activity","label_name":"dex trader"}},
        {"data":{"address":"\\x0a","label_type":"activity","label_name":"dex trader"}},
        {"data":{"address":"\\x0b","label_type":"activity","label_name":"dex trader"}}]}}"#;
    assert!(matches!(task.step(Event::Reply(text.to_string())), Action::Emit(_)));
    assert_eq!(task.base_address(), Some("0x0c"));
    assert_eq!(task.amount(), 22);
}

#[test]
fn an_event_is_read_into_an_input() {
    assert_eq!(Event::Resume.read(), Input::Resume);
    assert_eq!(Event::Failure("x".to_string()).read(), Input::Failure("x".to_string()));
    assert_eq!(
        Event::Reply(SESSION.to_string()).read(),
        Input::Reply { body: SESSION.to_string(), document: parse(SESSION) }
    );
    assert!(parse(SESSION).is_some());
    assert_eq!(
        Event::Reply("{".to_string()).read(),
        Input::Reply { body: "{".to_string(), document: None }
    );
}

#[test]
fn a_source_with_fewer_records_than_wanted_yields_what_it_has() {
    let mut task = dex_trader(25, 100000);
    let label = "type = 'activity' AND name = 'dex trader' AND octet_length(address) > 0";
    let mut pages = 0;
    cycle_to_fetch(&mut task, "tok-1", &select(label, 25));
    match task.step(Event::Reply(page_text(1, 10))) {
        Action::Emit(page) => {
            pages += 1;
            assert_eq!(page.len(), 10);
        }
        other => panic!("no page: {:?}", other),
    }
    cycle_to_fetch(&mut task, "tok-2", &select(&format!("{}AND address > '0x0010'", label), 15));
    assert_eq!(task.step(Event::Reply(page_text(11, 0))), Action::Complete);
    assert_eq!(pages, 1);
    assert_eq!(task.amount(), 15);
    assert!(task.is_terminal());
}
