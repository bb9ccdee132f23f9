//! The pipeline of one work item: a state machine that asks the service for
//! one page after another until the demand is met or the service has no more.
//!
//! The machine does no I/O. It is handed what happened (an [`Event`]) and says
//! what is to be done next (an [`Action`]); whoever drives it makes the remote
//! calls and hands the answers back.

use vstd::prelude::*;
use crate::domain::model::address_label::{
    greatest_address,
    greatest_stored_address,
    AddressLabel,
    AddressLabelView,
};
use crate::domain::model::work_item::{WorkItem, WorkItemView};
use crate::domain::query::envelope::Envelope;
use crate::domain::query::execute_query::{execute_query_envelope, ExecuteQuery, ExecuteQueryResponse};
use crate::domain::query::find_results::{
    find_result_by_job_envelope,
    FindResultDataByJobId,
    FindResultDataResponse,
};
use crate::domain::query::get_queue_position::{
    get_queue_position_envelope,
    GetQueuePosition,
    GetQueuePositionResponse,
    EXECUTING_CATEGORY,
};
use crate::domain::query::session::SessionResponse;
use crate::domain::query::upsert_query::{upsert_query_envelope, UpsertQuery, UpsertQueryResponse};
use crate::json::{decode_document, decoded_document, document_view, Json, JsonView};
use crate::views::views_of;
use crate::json_text::{json_document, parse};
use crate::text::{decimal, push_decimal, push_text};

verus! {

/// Where a pipeline stands.
#[derive(Debug, PartialEq, Eq)]
pub enum QueryTaskState {
    /// Nothing has been asked yet.
    Start,
    /// A session request is on its way.
    AcquiringSession,
    /// The query of the next page is being registered.
    SubmittingQuery,
    /// A run of the registered query is being asked for.
    ExecutingQuery,
    /// The job is being asked about.
    Polling { job_id: String },
    /// The rows of the job are being fetched.
    FetchingResult { job_id: String },
    /// A page has been handed out; the pipeline waits to be resumed.
    Evaluating,
    /// The demand is met, or the service had no more rows.
    Completed,
    /// A call failed, or its answer had not the expected shape.
    Failed,
}

/// The mathematical value of a [`QueryTaskState`].
pub ghost enum StateView {
    Start,
    AcquiringSession,
    SubmittingQuery,
    ExecutingQuery,
    Polling { job_id: Seq<char> },
    FetchingResult { job_id: Seq<char> },
    Evaluating,
    Completed,
    Failed,
}

impl StateView {
    /// Whether a remote call is on its way in this state.
    pub open spec fn awaits_reply(self) -> bool {
        self is AcquiringSession || self is SubmittingQuery || self is ExecutingQuery
            || self is Polling || self is FetchingResult
    }

    /// Whether the pipeline has ended in this state.
    pub open spec fn is_terminal(self) -> bool {
        self is Completed || self is Failed
    }
}

impl View for QueryTaskState {
    type V = StateView;

    open spec fn view(&self) -> StateView {
        match self {
            QueryTaskState::Start => StateView::Start,
            QueryTaskState::AcquiringSession => StateView::AcquiringSession,
            QueryTaskState::SubmittingQuery => StateView::SubmittingQuery,
            QueryTaskState::ExecutingQuery => StateView::ExecutingQuery,
            QueryTaskState::Polling { job_id } => StateView::Polling { job_id: job_id@ },
            QueryTaskState::FetchingResult { job_id } => StateView::FetchingResult {
                job_id: job_id@,
            },
            QueryTaskState::Evaluating => StateView::Evaluating,
            QueryTaskState::Completed => StateView::Completed,
            QueryTaskState::Failed => StateView::Failed,
        }
    }
}

/// Why a pipeline failed.
#[derive(Debug, PartialEq, Eq)]
pub enum Failure {
    /// The call did not go through; the text says what the transport reported.
    Transport(String),
    /// The answer had not the expected shape; the text is the answer.
    Decode(String),
}

/// The mathematical value of a [`Failure`].
pub ghost enum FailureView {
    Transport(Seq<char>),
    Decode(Seq<char>),
}

impl View for Failure {
    type V = FailureView;

    open spec fn view(&self) -> FailureView {
        match self {
            Failure::Transport(message) => FailureView::Transport(message@),
            Failure::Decode(body) => FailureView::Decode(body@),
        }
    }
}

/// A call to the service that the driver is to make.
#[derive(Debug, PartialEq, Eq)]
pub enum RemoteCall {
    /// Ask for a session, with the ambient credential.
    Session,
    /// Send the envelope to the query endpoint, with the token as bearer
    /// credential.
    Query { bearer_token: String, envelope: Envelope },
}

/// The mathematical value of a [`RemoteCall`]: the token that it carries and
/// the envelope as it goes on the wire.
pub ghost enum RemoteCallView {
    Session,
    Query { bearer_token: Seq<char>, body: JsonView },
}

impl View for RemoteCall {
    type V = RemoteCallView;

    open spec fn view(&self) -> RemoteCallView {
        match self {
            RemoteCall::Session => RemoteCallView::Session,
            RemoteCall::Query { bearer_token, envelope } => RemoteCallView::Query {
                bearer_token: bearer_token@,
                body: envelope@,
            },
        }
    }
}

/// What the driver is to do next.
#[derive(Debug, PartialEq, Eq)]
pub enum Action {
    /// Make the call and hand its outcome back.
    Call(RemoteCall),
    /// Hand the page downstream, then resume the pipeline.
    Emit(Vec<AddressLabel>),
    /// The pipeline has completed.
    Complete,
    /// The pipeline has failed.
    Fail(Failure),
    /// The event does not fit the state: nothing has changed and nothing is to
    /// be done.
    Idle,
}

/// The mathematical value of an [`Action`].
pub ghost enum ActionView {
    Call(RemoteCallView),
    Emit(Seq<AddressLabelView>),
    Complete,
    Fail(FailureView),
    Idle,
}

impl View for Action {
    type V = ActionView;

    open spec fn view(&self) -> ActionView {
        match self {
            Action::Call(call) => ActionView::Call(call@),
            Action::Emit(page) => ActionView::Emit(views_of(page@)),
            Action::Complete => ActionView::Complete,
            Action::Fail(failure) => ActionView::Fail(failure@),
            Action::Idle => ActionView::Idle,
        }
    }
}

/// What the driver reports to a pipeline.
#[derive(Debug, PartialEq, Eq)]
pub enum Event {
    /// Go on: at the start, and after a page has been handed downstream.
    Resume,
    /// The call that was on its way has been answered with this text.
    Reply(String),
    /// The call that was on its way did not go through.
    Failure(String),
}

/// An [`Event`] whose answer has been read as JSON.
#[derive(Debug, PartialEq, Eq)]
pub enum Input {
    /// Go on: at the start, and after a page has been handed downstream.
    Resume,
    /// The call has been answered with the text `body`, which spells
    /// `document`, or no JSON value at all.
    Reply { body: String, document: Option<Json> },
    /// The call did not go through.
    Failure(String),
}

/// The mathematical value of an [`Event`].
pub ghost enum EventView {
    Resume,
    Reply(Seq<char>),
    Failure(Seq<char>),
}

/// The mathematical value of an [`Input`].
pub ghost enum InputView {
    Resume,
    Reply { body: Seq<char>, document: Option<JsonView> },
    Failure(Seq<char>),
}

impl View for Event {
    type V = EventView;

    open spec fn view(&self) -> EventView {
        match self {
            Event::Resume => EventView::Resume,
            Event::Reply(body) => EventView::Reply(body@),
            Event::Failure(message) => EventView::Failure(message@),
        }
    }
}

impl View for Input {
    type V = InputView;

    open spec fn view(&self) -> InputView {
        match self {
            Input::Resume => InputView::Resume,
            Input::Reply { body, document } => InputView::Reply {
                body: body@,
                document: document_view(*document),
            },
            Input::Failure(message) => InputView::Failure(message@),
        }
    }
}

impl EventView {
    /// The event with its answer read as JSON, as `serde_json` reads it.
    pub open spec fn read(self) -> InputView {
        match self {
            EventView::Resume => InputView::Resume,
            EventView::Reply(body) => InputView::Reply { body, document: json_document(body) },
            EventView::Failure(message) => InputView::Failure(message),
        }
    }
}

impl Event {
    /// The event with its answer read as JSON by `serde_json`.
    pub fn read(self) -> (input: Input)
        ensures
            input@ == self@.read(),
    {
        match self {
            Event::Resume => Input::Resume,
            Event::Reply(body) => {
                let document = parse(body.as_str());
                Input::Reply { body, document }
            },
            Event::Failure(message) => Input::Failure(message),
        }
    }
}

/// The condition of the query of one page: the label, and, where a cursor is
/// set, only addresses above it.
pub open spec fn where_clause(
    label_type: Seq<char>,
    label_name: Seq<char>,
    cursor: Option<Seq<char>>,
) -> Seq<char> {
    let label = "type = '"@ + label_type + "' AND name = '"@ + label_name
        + "' AND octet_length(address) > 0"@;
    match cursor {
        Some(address) => label + "AND address > '"@ + address + "'"@,
        None => label,
    }
}

/// The query of one page: at most `limit` labels that meet the condition, in
/// ascending order of their addresses.
pub open spec fn query_text(
    label_type: Seq<char>,
    label_name: Seq<char>,
    cursor: Option<Seq<char>>,
    limit: nat,
) -> Seq<char> {
    "SELECT address, name AS label_name, type AS label_type FROM labels.labels WHERE "@
        + where_clause(label_type, label_name, cursor) + " ORDER BY address ASC LIMIT "@ + decimal(
        limit,
    )
}

/// The mathematical value of a [`QueryTask`].
pub ghost struct TaskView {
    /// The user in whose name queries are registered.
    pub userid: i32,
    /// The most that one page may hold.
    pub page_cap: nat,
    pub label_type: Seq<char>,
    pub label_name: Seq<char>,
    /// The greatest address of the last page handed out, if any: the next page
    /// starts above it.
    pub cursor: Option<Seq<char>>,
    /// The token of the current page cycle.
    pub bearer_token: Seq<char>,
    /// How many records are still wanted.
    pub remaining: nat,
    pub state: StateView,
}

impl TaskView {
    /// The pipeline of a work item before anything has happened.
    pub open spec fn initial(userid: i32, page_cap: nat, item: WorkItemView) -> TaskView {
        TaskView {
            userid,
            page_cap,
            label_type: item.label_type,
            label_name: item.label_name,
            cursor: None,
            bearer_token: Seq::empty(),
            remaining: item.target_count,
            state: StateView::Start,
        }
    }

    /// The number of records that the next page asks for: the smaller of the
    /// page cap and what is still wanted.
    pub open spec fn limit(self) -> nat {
        if self.page_cap <= self.remaining {
            self.page_cap
        } else {
            self.remaining
        }
    }

    /// The query of the next page.
    pub open spec fn query(self) -> Seq<char> {
        query_text(self.label_type, self.label_name, self.cursor, self.limit())
    }

    /// The pipeline in words: its label, and how many records are still wanted.
    pub open spec fn description(self) -> Seq<char> {
        "type: "@ + self.label_type + ", name: "@ + self.label_name + ", amount: "@ + decimal(
            self.remaining,
        )
    }

    /// The pipeline in another state, all else unchanged.
    pub open spec fn at(self, state: StateView) -> TaskView {
        TaskView { state, ..self }
    }

    /// The pipeline fails.
    pub open spec fn failed(self, failure: FailureView) -> (TaskView, ActionView) {
        (self.at(StateView::Failed), ActionView::Fail(failure))
    }

    /// At the start and after a page: a new page cycle begins with a session
    /// request while records are wanted; else the pipeline completes, and no
    /// call is made.
    pub open spec fn resumed(self) -> (TaskView, ActionView) {
        if self.remaining > 0 {
            (self.at(StateView::AcquiringSession), ActionView::Call(RemoteCallView::Session))
        } else {
            (self.at(StateView::Completed), ActionView::Complete)
        }
    }

    /// The session request has been answered: its token is that of this page
    /// cycle, and the query of the page is registered with it.
    pub open spec fn session_answered(self, body: Seq<char>, document: Option<JsonView>) -> (
        TaskView,
        ActionView,
    ) {
        match decoded_document::<SessionResponse>(document) {
            Some(token) => (
                TaskView { bearer_token: token, state: StateView::SubmittingQuery, ..self },
                ActionView::Call(
                    RemoteCallView::Query {
                        bearer_token: token,
                        body: upsert_query_envelope(self.userid, self.userid, self.query()),
                    },
                ),
            ),
            None => self.failed(FailureView::Decode(body)),
        }
    }

    /// The query has been registered: a run of it is asked for.
    pub open spec fn query_registered(self, body: Seq<char>, document: Option<JsonView>) -> (
        TaskView,
        ActionView,
    ) {
        match decoded_document::<UpsertQueryResponse>(document) {
            Some(query_id) => (
                self.at(StateView::ExecutingQuery),
                ActionView::Call(
                    RemoteCallView::Query {
                        bearer_token: self.bearer_token,
                        body: execute_query_envelope(query_id),
                    },
                ),
            ),
            None => self.failed(FailureView::Decode(body)),
        }
    }

    /// The run has been accepted as a job: the job is asked about.
    pub open spec fn run_accepted(self, body: Seq<char>, document: Option<JsonView>) -> (
        TaskView,
        ActionView,
    ) {
        match decoded_document::<ExecuteQueryResponse>(document) {
            Some(job_id) => (self.at(StateView::Polling { job_id }), self.poll(job_id)),
            None => self.failed(FailureView::Decode(body)),
        }
    }

    /// The call that asks about a job.
    pub open spec fn poll(self, job_id: Seq<char>) -> ActionView {
        ActionView::Call(
            RemoteCallView::Query {
                bearer_token: self.bearer_token,
                body: get_queue_position_envelope(job_id),
            },
        )
    }

    /// The service has said how far the job is: while it runs the job, the same
    /// question is asked again; once it does not, the rows are fetched.
    pub open spec fn job_reported(
        self,
        job_id: Seq<char>,
        body: Seq<char>,
        document: Option<JsonView>,
    ) -> (TaskView, ActionView) {
        match decoded_document::<GetQueuePositionResponse>(document) {
            Some(category) => if category == Some(EXECUTING_CATEGORY@) {
                (self, self.poll(job_id))
            } else {
                (
                    self.at(StateView::FetchingResult { job_id }),
                    ActionView::Call(
                        RemoteCallView::Query {
                            bearer_token: self.bearer_token,
                            body: find_result_by_job_envelope(job_id),
                        },
                    ),
                )
            },
            None => self.failed(FailureView::Decode(body)),
        }
    }

    /// A page has come. One that holds records is handed out: that many fewer
    /// records are wanted (none, where the page holds more than were wanted),
    /// and the cursor moves to the greatest address of the page. An empty page
    /// completes the pipeline.
    pub open spec fn evaluated(self, page: Seq<AddressLabelView>) -> (TaskView, ActionView) {
        if page.len() > 0 {
            (
                TaskView {
                    remaining: if page.len() <= self.remaining {
                        (self.remaining - page.len()) as nat
                    } else {
                        0
                    },
                    cursor: Some(greatest_stored_address(page)),
                    state: StateView::Evaluating,
                    ..self
                },
                ActionView::Emit(page),
            )
        } else {
            (self.at(StateView::Completed), ActionView::Complete)
        }
    }

    /// The fetch has been answered.
    pub open spec fn rows_fetched(self, body: Seq<char>, document: Option<JsonView>) -> (
        TaskView,
        ActionView,
    ) {
        match decoded_document::<FindResultDataResponse<AddressLabel>>(document) {
            Some(rows) => self.evaluated(rows.rows()),
            None => self.failed(FailureView::Decode(body)),
        }
    }

    /// What the pipeline becomes on an input, and what is to be done next.
    pub open spec fn next(self, input: InputView) -> (TaskView, ActionView) {
        match input {
            InputView::Resume => if self.state is Start || self.state is Evaluating {
                self.resumed()
            } else {
                (self, ActionView::Idle)
            },
            InputView::Failure(message) => if self.state.awaits_reply() {
                self.failed(FailureView::Transport(message))
            } else {
                (self, ActionView::Idle)
            },
            InputView::Reply { body, document } => match self.state {
                StateView::AcquiringSession => self.session_answered(body, document),
                StateView::SubmittingQuery => self.query_registered(body, document),
                StateView::ExecutingQuery => self.run_accepted(body, document),
                StateView::Polling { job_id } => self.job_reported(job_id, body, document),
                StateView::FetchingResult { job_id } => self.rows_fetched(body, document),
                _ => (self, ActionView::Idle),
            },
        }
    }
}

/// The pipeline of one work item.
pub struct QueryTask {
    userid: i32,
    page_cap: usize,
    label_type: String,
    label_name: String,
    base_address: Option<String>,
    bearer_token: String,
    amount: usize,
    state: QueryTaskState,
}

impl View for QueryTask {
    type V = TaskView;

    closed spec fn view(&self) -> TaskView {
        TaskView {
            userid: self.userid,
            page_cap: self.page_cap as nat,
            label_type: self.label_type@,
            label_name: self.label_name@,
            cursor: match self.base_address {
                Some(address) => Some(address@),
                None => None,
            },
            bearer_token: self.bearer_token@,
            remaining: self.amount as nat,
            state: self.state@,
        }
    }
}

impl QueryTask {
    /// The pipeline of the label `label_type`, `label_name`, of which `amount`
    /// records are wanted, in pages of at most `page_cap`, with queries
    /// registered in the name of `userid`.
    pub fn new(
        userid: i32,
        page_cap: usize,
        label_type: String,
        label_name: String,
        amount: usize,
    ) -> (task: QueryTask)
        ensures
            task@ == TaskView::initial(
                userid,
                page_cap as nat,
                WorkItemView {
                    label_type: label_type@,
                    label_name: label_name@,
                    target_count: amount as nat,
                },
            ),
    {
        QueryTask {
            userid,
            page_cap,
            label_type,
            label_name,
            base_address: None,
            bearer_token: String::new(),
            amount,
            state: QueryTaskState::Start,
        }
    }

    /// The pipeline of a work item.
    pub fn for_item(userid: i32, page_cap: usize, item: &WorkItem) -> (task: QueryTask)
        ensures
            task@ == TaskView::initial(userid, page_cap as nat, item@),
    {
        QueryTask::new(
            userid,
            page_cap,
            item.label_type().to_owned(),
            item.label_name().to_owned(),
            item.target_count(),
        )
    }

    /// Where the pipeline stands.
    pub fn state(&self) -> (state: &QueryTaskState)
        ensures
            state@ == self@.state,
    {
        &self.state
    }

    /// How many records are still wanted.
    pub fn amount(&self) -> (amount: usize)
        ensures
            amount == self@.remaining,
    {
        self.amount
    }

    /// The greatest address of the last page handed out, if any.
    pub fn base_address(&self) -> (address: Option<&str>)
        ensures
            match address {
                Some(address) => self@.cursor == Some(address@),
                None => self@.cursor is None,
            },
    {
        match &self.base_address {
            Some(address) => Some(address.as_str()),
            None => None,
        }
    }

    /// The type of the label.
    pub fn label_type(&self) -> (label_type: &str)
        ensures
            label_type@ == self@.label_type,
    {
        self.label_type.as_str()
    }

    /// The name of the label.
    pub fn label_name(&self) -> (label_name: &str)
        ensures
            label_name@ == self@.label_name,
    {
        self.label_name.as_str()
    }

    /// Whether the pipeline has ended.
    pub fn is_terminal(&self) -> (terminal: bool)
        ensures
            terminal == self@.state.is_terminal(),
    {
        match self.state {
            QueryTaskState::Completed => true,
            QueryTaskState::Failed => true,
            _ => false,
        }
    }

    /// The pipeline in words, for a log.
    pub fn describe(&self) -> (description: String)
        ensures
            description@ == self@.description(),
    {
        let mut description = String::new();
        push_text(&mut description, "type: ");
        push_text(&mut description, self.label_type.as_str());
        push_text(&mut description, ", name: ");
        push_text(&mut description, self.label_name.as_str());
        push_text(&mut description, ", amount: ");
        push_decimal(&mut description, self.amount);
        description
    }

    /// The query of the next page.
    pub fn query(&self) -> (query: String)
        ensures
            query@ == self@.query(),
    {
        let limit = if self.page_cap <= self.amount {
            self.page_cap
        } else {
            self.amount
        };
        let mut condition = String::new();
        push_text(&mut condition, "type = '");
        push_text(&mut condition, self.label_type.as_str());
        push_text(&mut condition, "' AND name = '");
        push_text(&mut condition, self.label_name.as_str());
        push_text(&mut condition, "' AND octet_length(address) > 0");
        match &self.base_address {
            Some(address) => {
                push_text(&mut condition, "AND address > '");
                push_text(&mut condition, address.as_str());
                push_text(&mut condition, "'");
            },
            None => {},
        }
        let mut query = String::new();
        push_text(
            &mut query,
            "SELECT address, name AS label_name, type AS label_type FROM labels.labels WHERE ",
        );
        push_text(&mut query, condition.as_str());
        push_text(&mut query, " ORDER BY address ASC LIMIT ");
        push_decimal(&mut query, limit);
        query
    }

    /// The call that asks about a job.
    fn poll(&self, job_id: &String) -> (action: Action)
        ensures
            action@ == self@.poll(job_id@),
    {
        Action::Call(
            RemoteCall::Query {
                bearer_token: self.bearer_token.clone(),
                envelope: Envelope::GetQueuePosition(GetQueuePosition::new(job_id.clone())),
            },
        )
    }

    fn fail(&mut self, failure: Failure) -> (action: Action)
        ensures
            (final(self)@, action@) == old(self)@.failed(failure@),
    {
        self.state = QueryTaskState::Failed;
        Action::Fail(failure)
    }

    fn resume(&mut self) -> (action: Action)
        ensures
            (final(self)@, action@) == old(self)@.resumed(),
    {
        if self.amount > 0 {
            self.state = QueryTaskState::AcquiringSession;
            Action::Call(RemoteCall::Session)
        } else {
            self.state = QueryTaskState::Completed;
            Action::Complete
        }
    }

    fn on_session(&mut self, body: String, document: Option<Json>) -> (action: Action)
        ensures
            (final(self)@, action@) == old(self)@.session_answered(
                body@,
                document_view(document),
            ),
    {
        match decode_document::<SessionResponse>(&document) {
            Some(session) => {
                let query = self.query();
                self.bearer_token = session.token();
                self.state = QueryTaskState::SubmittingQuery;
                Action::Call(
                    RemoteCall::Query {
                        bearer_token: self.bearer_token.clone(),
                        envelope: Envelope::UpsertQuery(
                            UpsertQuery::new(self.userid, self.userid, query),
                        ),
                    },
                )
            },
            None => self.fail(Failure::Decode(body)),
        }
    }

    fn on_registered(&mut self, body: String, document: Option<Json>) -> (action: Action)
        ensures
            (final(self)@, action@) == old(self)@.query_registered(
                body@,
                document_view(document),
            ),
    {
        match decode_document::<UpsertQueryResponse>(&document) {
            Some(registered) => {
                self.state = QueryTaskState::ExecutingQuery;
                Action::Call(
                    RemoteCall::Query {
                        bearer_token: self.bearer_token.clone(),
                        envelope: Envelope::ExecuteQuery(ExecuteQuery::new(registered.query_id())),
                    },
                )
            },
            None => self.fail(Failure::Decode(body)),
        }
    }

    fn on_accepted(&mut self, body: String, document: Option<Json>) -> (action: Action)
        ensures
            (final(self)@, action@) == old(self)@.run_accepted(
                body@,
                document_view(document),
            ),
    {
        match decode_document::<ExecuteQueryResponse>(&document) {
            Some(accepted) => {
                let job_id = accepted.job_id();
                let action = self.poll(&job_id);
                self.state = QueryTaskState::Polling { job_id };
                action
            },
            None => self.fail(Failure::Decode(body)),
        }
    }

    fn on_reported(&mut self, job_id: String, body: String, document: Option<Json>) -> (action:
        Action)
        ensures
            (final(self)@, action@) == old(self)@.at(
                StateView::Polling { job_id: job_id@ },
            ).job_reported(job_id@, body@, document_view(document)),
    {
        match decode_document::<GetQueuePositionResponse>(&document) {
            Some(reported) => {
                if reported.is_executing() {
                    let action = self.poll(&job_id);
                    self.state = QueryTaskState::Polling { job_id };
                    action
                } else {
                    let action = Action::Call(
                        RemoteCall::Query {
                            bearer_token: self.bearer_token.clone(),
                            envelope: Envelope::FindResult(
                                FindResultDataByJobId::new(job_id.clone()),
                            ),
                        },
                    );
                    self.state = QueryTaskState::FetchingResult { job_id };
                    action
                }
            },
            None => self.fail(Failure::Decode(body)),
        }
    }

    fn evaluate(&mut self, page: Vec<AddressLabel>) -> (action: Action)
        ensures
            (final(self)@, action@) == old(self)@.evaluated(views_of(page@)),
    {
        match greatest_address(&page) {
            Some(greatest) => {
                self.amount = if page.len() <= self.amount {
                    self.amount - page.len()
                } else {
                    0
                };
                self.base_address = Some(greatest);
                self.state = QueryTaskState::Evaluating;
                Action::Emit(page)
            },
            None => {
                self.state = QueryTaskState::Completed;
                Action::Complete
            },
        }
    }

    fn on_fetched(&mut self, body: String, document: Option<Json>) -> (action: Action)
        ensures
            (final(self)@, action@) == old(self)@.rows_fetched(
                body@,
                document_view(document),
            ),
    {
        match decode_document::<FindResultDataResponse<AddressLabel>>(&document) {
            Some(fetched) => self.evaluate(fetched.data()),
            None => self.fail(Failure::Decode(body)),
        }
    }

    /// Takes an input whose answer has been read already: the pipeline becomes
    /// what [`TaskView::next`] says, and the result is what is to be done next.
    pub fn advance(&mut self, input: Input) -> (action: Action)
        ensures
            (final(self)@, action@) == old(self)@.next(input@),
    {
        let mut state = QueryTaskState::Failed;
        core::mem::swap(&mut self.state, &mut state);
        match input {
            Input::Resume => match state {
                QueryTaskState::Start => self.resume(),
                QueryTaskState::Evaluating => self.resume(),
                other => {
                    self.state = other;
                    Action::Idle
                },
            },
            Input::Failure(message) => match state {
                QueryTaskState::AcquiringSession => self.fail(Failure::Transport(message)),
                QueryTaskState::SubmittingQuery => self.fail(Failure::Transport(message)),
                QueryTaskState::ExecutingQuery => self.fail(Failure::Transport(message)),
                QueryTaskState::Polling { .. } => self.fail(Failure::Transport(message)),
                QueryTaskState::FetchingResult { .. } => self.fail(Failure::Transport(message)),
                other => {
                    self.state = other;
                    Action::Idle
                },
            },
            Input::Reply { body, document } => match state {
                QueryTaskState::AcquiringSession => self.on_session(body, document),
                QueryTaskState::SubmittingQuery => self.on_registered(body, document),
                QueryTaskState::ExecutingQuery => self.on_accepted(body, document),
                QueryTaskState::Polling { job_id } => self.on_reported(job_id, body, document),
                QueryTaskState::FetchingResult { .. } => self.on_fetched(body, document),
                other => {
                    self.state = other;
                    Action::Idle
                },
            },
        }
    }

    /// Takes an event: a reply is read as JSON with `serde_json`, and the
    /// pipeline advances on what was read.
    pub fn step(&mut self, event: Event) -> (action: Action)
        ensures
            (final(self)@, action@) == old(self)@.next(event@.read()),
    {
        self.advance(event.read())
    }
}

} // verus!
