//! The sink: it writes each page to storage as one transaction.
//!
//! A [`PageWrite`] is the state machine of one page. It does no I/O: its driver
//! opens the transaction, inserts the rows that it is told to insert, commits,
//! and reports each outcome back. An insert that fails is noted and skipped;
//! the transaction is committed all the same.

use vstd::prelude::*;
use crate::domain::model::address_label::{AddressLabel, AddressLabelView};
use crate::views::views_of;

verus! {

/// Where the write of a page stands.
#[derive(Debug, PartialEq, Eq, Clone, Copy)]
pub enum SinkState {
    /// Nothing has been asked yet.
    Start,
    /// The transaction is being opened.
    Opening,
    /// A row is being inserted.
    Inserting,
    /// The transaction is being committed.
    Committing,
    /// The transaction has been committed.
    Committed,
    /// The transaction could not be opened or committed.
    Failed,
}

/// One row as it is inserted.
#[derive(Debug, PartialEq, Eq)]
pub struct Row {
    pub address: String,
    pub label_type: String,
    pub label_name: String,
}

/// The mathematical value of a [`Row`].
pub ghost struct RowView {
    pub address: Seq<char>,
    pub label_type: Seq<char>,
    pub label_name: Seq<char>,
}

impl View for Row {
    type V = RowView;

    open spec fn view(&self) -> RowView {
        RowView {
            address: self.address@,
            label_type: self.label_type@,
            label_name: self.label_name@,
        }
    }
}

/// The row that stores a record: its address with `0` for every backslash,
/// and the type and the name of its label.
pub open spec fn row_of(record: AddressLabelView) -> RowView {
    RowView {
        address: record.stored_address(),
        label_type: record.label_type,
        label_name: record.label_name,
    }
}

/// An insert that failed: which record of the page, and what storage said.
#[derive(Debug, PartialEq, Eq)]
pub struct Rejection {
    pub index: usize,
    pub message: String,
}

/// The mathematical value of a [`Rejection`].
pub ghost struct RejectionView {
    pub index: nat,
    pub message: Seq<char>,
}

impl View for Rejection {
    type V = RejectionView;

    open spec fn view(&self) -> RejectionView {
        RejectionView { index: self.index as nat, message: self.message@ }
    }
}

/// What became of a page that was committed.
#[derive(Debug, PartialEq, Eq)]
pub struct Report {
    /// The number of records in the page.
    pub count: usize,
    /// The number of records that were stored.
    pub stored: usize,
    /// The inserts that failed, in the order of the page.
    pub rejections: Vec<Rejection>,
}

/// The mathematical value of a [`Report`].
pub ghost struct ReportView {
    pub count: nat,
    pub stored: nat,
    pub rejections: Seq<RejectionView>,
}

impl View for Report {
    type V = ReportView;

    open spec fn view(&self) -> ReportView {
        ReportView {
            count: self.count as nat,
            stored: self.stored as nat,
            rejections: views_of(self.rejections@),
        }
    }
}

/// Why a page could not be written.
#[derive(Debug, PartialEq, Eq)]
pub enum PersistenceError {
    /// The transaction could not be opened.
    Begin(String),
    /// The transaction could not be committed.
    Commit(String),
}

/// The mathematical value of a [`PersistenceError`].
pub ghost enum PersistenceErrorView {
    Begin(Seq<char>),
    Commit(Seq<char>),
}

impl View for PersistenceError {
    type V = PersistenceErrorView;

    open spec fn view(&self) -> PersistenceErrorView {
        match self {
            PersistenceError::Begin(message) => PersistenceErrorView::Begin(message@),
            PersistenceError::Commit(message) => PersistenceErrorView::Commit(message@),
        }
    }
}

/// What the driver reports to the write of a page.
#[derive(Debug, PartialEq, Eq)]
pub enum SinkEvent {
    /// Go on: the write may begin.
    Start,
    /// The transaction is open.
    Opened,
    /// The transaction could not be opened.
    OpenFailed(String),
    /// The row has been inserted.
    Inserted,
    /// The row could not be inserted.
    InsertFailed(String),
    /// The transaction has been committed.
    Committed,
    /// The transaction could not be committed.
    CommitFailed(String),
}

/// The mathematical value of a [`SinkEvent`].
pub ghost enum SinkEventView {
    Start,
    Opened,
    OpenFailed(Seq<char>),
    Inserted,
    InsertFailed(Seq<char>),
    Committed,
    CommitFailed(Seq<char>),
}

impl View for SinkEvent {
    type V = SinkEventView;

    open spec fn view(&self) -> SinkEventView {
        match self {
            SinkEvent::Start => SinkEventView::Start,
            SinkEvent::Opened => SinkEventView::Opened,
            SinkEvent::OpenFailed(message) => SinkEventView::OpenFailed(message@),
            SinkEvent::Inserted => SinkEventView::Inserted,
            SinkEvent::InsertFailed(message) => SinkEventView::InsertFailed(message@),
            SinkEvent::Committed => SinkEventView::Committed,
            SinkEvent::CommitFailed(message) => SinkEventView::CommitFailed(message@),
        }
    }
}

/// What the driver is to do next for a page.
#[derive(Debug, PartialEq, Eq)]
pub enum SinkAction {
    /// Open a transaction.
    Begin,
    /// Insert the row in the open transaction.
    Insert(Row),
    /// Commit the transaction.
    Commit,
    /// The page is written.
    Done(Report),
    /// The page could not be written.
    Abort(PersistenceError),
    /// The event does not fit the state: nothing has changed and nothing is to
    /// be done.
    Idle,
}

/// The mathematical value of a [`SinkAction`].
pub ghost enum SinkActionView {
    Begin,
    Insert(RowView),
    Commit,
    Done(ReportView),
    Abort(PersistenceErrorView),
    Idle,
}

impl View for SinkAction {
    type V = SinkActionView;

    open spec fn view(&self) -> SinkActionView {
        match self {
            SinkAction::Begin => SinkActionView::Begin,
            SinkAction::Insert(row) => SinkActionView::Insert(row@),
            SinkAction::Commit => SinkActionView::Commit,
            SinkAction::Done(report) => SinkActionView::Done(report@),
            SinkAction::Abort(error) => SinkActionView::Abort(error@),
            SinkAction::Idle => SinkActionView::Idle,
        }
    }
}

/// The mathematical value of a [`PageWrite`].
pub ghost struct WriteView {
    /// The records of the page.
    pub records: Seq<AddressLabelView>,
    /// The number of records whose insert has been decided.
    pub next: nat,
    /// The inserts that failed so far.
    pub rejections: Seq<RejectionView>,
    pub state: SinkState,
}

impl WriteView {
    /// The write of a page before anything has happened.
    pub open spec fn initial(records: Seq<AddressLabelView>) -> WriteView {
        WriteView { records, next: 0, rejections: Seq::empty(), state: SinkState::Start }
    }

    /// What holds of every write: no more inserts are decided than the page
    /// has records, no more have failed than are decided, and while a row is
    /// being inserted there is a record that it belongs to.
    pub open spec fn wf(self) -> bool {
        &&& self.next <= self.records.len()
        &&& self.rejections.len() <= self.next
        &&& self.state == SinkState::Inserting ==> self.next < self.records.len()
        &&& (self.state == SinkState::Start || self.state == SinkState::Opening) ==> self.next
            == 0
        &&& (self.state == SinkState::Committing || self.state == SinkState::Committed)
            ==> self.next == self.records.len()
    }

    /// The next record is inserted; once every record is decided, the
    /// transaction is committed.
    pub open spec fn proceed(self) -> (WriteView, SinkActionView) {
        if self.next < self.records.len() {
            (
                WriteView { state: SinkState::Inserting, ..self },
                SinkActionView::Insert(row_of(self.records[self.next as int])),
            )
        } else {
            (WriteView { state: SinkState::Committing, ..self }, SinkActionView::Commit)
        }
    }

    /// What the driver is told once the transaction is committed.
    pub open spec fn report(self) -> ReportView {
        ReportView {
            count: self.records.len(),
            stored: (self.next - self.rejections.len()) as nat,
            rejections: self.rejections,
        }
    }

    /// What the write becomes on an event, and what is to be done next.
    pub open spec fn next(self, event: SinkEventView) -> (WriteView, SinkActionView) {
        match (self.state, event) {
            (SinkState::Start, SinkEventView::Start) => (
                WriteView { state: SinkState::Opening, ..self },
                SinkActionView::Begin,
            ),
            (SinkState::Opening, SinkEventView::Opened) => self.proceed(),
            (SinkState::Opening, SinkEventView::OpenFailed(message)) => (
                WriteView { state: SinkState::Failed, ..self },
                SinkActionView::Abort(PersistenceErrorView::Begin(message)),
            ),
            (SinkState::Inserting, SinkEventView::Inserted) => (WriteView {
                next: self.next + 1,
                ..self
            }).proceed(),
            (SinkState::Inserting, SinkEventView::InsertFailed(message)) => (WriteView {
                next: self.next + 1,
                rejections: self.rejections.push(RejectionView { index: self.next, message }),
                ..self
            }).proceed(),
            (SinkState::Committing, SinkEventView::Committed) => (
                WriteView { state: SinkState::Committed, ..self },
                SinkActionView::Done(self.report()),
            ),
            (SinkState::Committing, SinkEventView::CommitFailed(message)) => (
                WriteView { state: SinkState::Failed, ..self },
                SinkActionView::Abort(PersistenceErrorView::Commit(message)),
            ),
            _ => (self, SinkActionView::Idle),
        }
    }
}

impl WriteView {
    /// The write after a sequence of events.
    pub open spec fn after(self, events: Seq<SinkEventView>) -> WriteView
        decreases events.len(),
    {
        if events.len() == 0 {
            self
        } else {
            self.after(events.drop_last()).next(events.last()).0
        }
    }

    /// What the write asks of its driver over a sequence of events: one action
    /// for each event.
    pub open spec fn actions(self, events: Seq<SinkEventView>) -> Seq<SinkActionView>
        decreases events.len(),
    {
        if events.len() == 0 {
            Seq::empty()
        } else {
            self.actions(events.drop_last()).push(
                self.after(events.drop_last()).next(events.last()).1,
            )
        }
    }
}

/// Every event leaves a write as it must be.
pub proof fn law_next_keeps_wf(write: WriteView, event: SinkEventView)
    requires
        write.wf(),
    ensures
        write.next(event).0.wf(),
        write.next(event).0.records == write.records,
{
}

/// Whether an event says what became of an insert.
pub open spec fn is_outcome(event: SinkEventView) -> bool {
    event is Inserted || event is InsertFailed
}

/// The inserts that failed among a sequence of outcomes, each with its place.
pub open spec fn rejections_of(outcomes: Seq<SinkEventView>) -> Seq<RejectionView>
    decreases outcomes.len(),
{
    if outcomes.len() == 0 {
        Seq::empty()
    } else {
        match outcomes.last() {
            SinkEventView::InsertFailed(message) => rejections_of(outcomes.drop_last()).push(
                RejectionView { index: (outcomes.len() - 1) as nat, message },
            ),
            _ => rejections_of(outcomes.drop_last()),
        }
    }
}

/// The events of a write whose transaction opens and is committed: the start,
/// the opening, what became of each insert, and the commit.
pub open spec fn committed_run(outcomes: Seq<SinkEventView>) -> Seq<SinkEventView> {
    seq![SinkEventView::Start, SinkEventView::Opened] + outcomes + seq![SinkEventView::Committed]
}

/// No more inserts fail than are tried.
pub proof fn lemma_rejections_len(outcomes: Seq<SinkEventView>)
    ensures
        rejections_of(outcomes).len() <= outcomes.len(),
    decreases outcomes.len(),
{
    if outcomes.len() > 0 {
        lemma_rejections_len(outcomes.drop_last());
    }
}

proof fn lemma_inserts(records: Seq<AddressLabelView>, outcomes: Seq<SinkEventView>, m: int)
    requires
        outcomes.len() == records.len(),
        forall|k: int| 0 <= k < outcomes.len() ==> is_outcome(#[trigger] outcomes[k]),
        0 <= m <= records.len(),
    ensures
        ({
            let events = seq![SinkEventView::Start, SinkEventView::Opened] + outcomes.take(m);
            let start = WriteView::initial(records);
            let actions = start.actions(events);
            &&& start.after(events) == (WriteView {
                records,
                next: m as nat,
                rejections: rejections_of(outcomes.take(m)),
                state: if m < records.len() {
                    SinkState::Inserting
                } else {
                    SinkState::Committing
                },
            })
            &&& actions.len() == m + 2
            &&& actions[0] == SinkActionView::Begin
            &&& forall|k: int|
                0 <= k < m ==> #[trigger] actions[k + 1] == SinkActionView::Insert(
                    row_of(records[k]),
                )
            &&& actions[m + 1] == if m < records.len() {
                SinkActionView::Insert(row_of(records[m]))
            } else {
                SinkActionView::Commit
            }
        }),
    decreases m,
{
    let opening = seq![SinkEventView::Start, SinkEventView::Opened];
    let events = opening + outcomes.take(m);
    let start = WriteView::initial(records);
    if m == 0 {
        let none = Seq::<SinkEventView>::empty();
        lemma_one_more(start, none, SinkEventView::Start);
        lemma_one_more(start, none.push(SinkEventView::Start), SinkEventView::Opened);
        assert(events =~= none.push(SinkEventView::Start).push(SinkEventView::Opened));
    } else {
        lemma_inserts(records, outcomes, m - 1);
        lemma_rejections_len(outcomes.take(m - 1));
        let before = opening + outcomes.take(m - 1);
        lemma_one_more(start, before, outcomes[m - 1]);
        assert(events =~= before.push(outcomes[m - 1]));
        assert(outcomes.take(m).drop_last() =~= outcomes.take(m - 1));
        let actions = start.actions(events);
        assert forall|k: int| 0 <= k < m implies #[trigger] actions[k + 1]
            == SinkActionView::Insert(row_of(records[k])) by {}
    }
}

/// A run that is one event longer: the write takes the event after the others,
/// and its action comes after theirs.
pub proof fn lemma_one_more(write: WriteView, events: Seq<SinkEventView>, event: SinkEventView)
    ensures
        write.after(events.push(event)) == write.after(events).next(event).0,
        write.actions(events.push(event)) == write.actions(events).push(
            write.after(events).next(event).1,
        ),
        write.actions(events).len() == events.len(),
    decreases events.len(),
{
    assert(events.push(event).drop_last() =~= events);
    if events.len() > 0 {
        lemma_one_more(write, events.drop_last(), events.last());
    }
}

/// Where the transaction opens and is committed, every record of the page is
/// tried once, in the order of the page, whatever became of the records before
/// it; then the transaction is committed, and the report names exactly the
/// inserts that failed.
pub proof fn law_every_record_is_tried(
    records: Seq<AddressLabelView>,
    outcomes: Seq<SinkEventView>,
)
    requires
        outcomes.len() == records.len(),
        forall|k: int| 0 <= k < outcomes.len() ==> is_outcome(#[trigger] outcomes[k]),
    ensures
        ({
            let actions = WriteView::initial(records).actions(committed_run(outcomes));
            &&& actions.len() == records.len() + 3
            &&& actions[0] == SinkActionView::Begin
            &&& forall|k: int|
                0 <= k < records.len() ==> #[trigger] actions[k + 1] == SinkActionView::Insert(
                    row_of(records[k]),
                )
            &&& actions[records.len() as int + 1] == SinkActionView::Commit
            &&& actions[records.len() as int + 2] == SinkActionView::Done(
                ReportView {
                    count: records.len(),
                    stored: (records.len() - rejections_of(outcomes).len()) as nat,
                    rejections: rejections_of(outcomes),
                },
            )
        }),
{
    let n = records.len() as int;
    lemma_inserts(records, outcomes, n);
    lemma_rejections_len(outcomes);
    let inserts = seq![SinkEventView::Start, SinkEventView::Opened] + outcomes.take(n);
    assert(outcomes.take(n) =~= outcomes);
    lemma_one_more(WriteView::initial(records), inserts, SinkEventView::Committed);
    assert(committed_run(outcomes) =~= inserts.push(SinkEventView::Committed));
    let actions = WriteView::initial(records).actions(committed_run(outcomes));
    assert forall|k: int| 0 <= k < records.len() implies #[trigger] actions[k + 1]
        == SinkActionView::Insert(row_of(records[k])) by {}
}

/// The write of one page.
pub struct PageWrite {
    records: Vec<AddressLabel>,
    next: usize,
    rejections: Vec<Rejection>,
    state: SinkState,
}

impl View for PageWrite {
    type V = WriteView;

    closed spec fn view(&self) -> WriteView {
        WriteView {
            records: views_of(self.records@),
            next: self.next as nat,
            rejections: views_of(self.rejections@),
            state: self.state,
        }
    }
}

impl PageWrite {
    #[verifier::type_invariant]
    spec fn valid(self) -> bool {
        self@.wf()
    }

    /// The write of a page, before anything has happened.
    pub fn new(page: Vec<AddressLabel>) -> (write: PageWrite)
        ensures
            write@ == WriteView::initial(views_of(page@)),
    {
        let rejections: Vec<Rejection> = Vec::new();
        assert(views_of(rejections@) =~= Seq::<RejectionView>::empty());
        PageWrite { records: page, next: 0, rejections, state: SinkState::Start }
    }

    /// Where the write stands.
    pub fn state(&self) -> (state: SinkState)
        ensures
            state == self@.state,
    {
        self.state
    }

    /// The number of records in the page.
    pub fn count(&self) -> (count: usize)
        ensures
            count == self@.records.len(),
    {
        self.records.len()
    }

    /// Takes an event: the write becomes what [`WriteView::next`] says, and the
    /// result is what is to be done next.
    pub fn advance(&mut self, event: SinkEvent) -> (action: SinkAction)
        ensures
            (final(self)@, action@) == old(self)@.next(event@),
    {
        let mut current = PageWrite::new(Vec::new());
        core::mem::swap(self, &mut current);
        proof {
            use_type_invariant(&current);
        }
        let PageWrite { records, next, rejections, state } = current;
        assert(views_of(records@).len() == records.len());
        let mut rejections = rejections;
        let (next, state, action) = match (state, event) {
            (SinkState::Start, SinkEvent::Start) => (next, SinkState::Opening, SinkAction::Begin),
            (SinkState::Opening, SinkEvent::Opened) => proceed(&records, next),
            (SinkState::Opening, SinkEvent::OpenFailed(message)) => (
                next,
                SinkState::Failed,
                SinkAction::Abort(PersistenceError::Begin(message)),
            ),
            (SinkState::Inserting, SinkEvent::Inserted) => proceed(&records, next + 1),
            (SinkState::Inserting, SinkEvent::InsertFailed(message)) => {
                let ghost before = views_of(rejections@);
                rejections.push(Rejection { index: next, message });
                assert(views_of(rejections@) =~= before.push(
                    RejectionView { index: next as nat, message: message@ },
                ));
                proceed(&records, next + 1)
            },
            (SinkState::Committing, SinkEvent::Committed) => (
                next,
                SinkState::Committed,
                SinkAction::Done(report(&records, next, &rejections)),
            ),
            (SinkState::Committing, SinkEvent::CommitFailed(message)) => (
                next,
                SinkState::Failed,
                SinkAction::Abort(PersistenceError::Commit(message)),
            ),
            (state, _) => (next, state, SinkAction::Idle),
        };
        *self = PageWrite { records, next, rejections, state };
        action
    }
}

/// The next record is inserted; once every record is decided, the transaction
/// is committed.
fn proceed(records: &Vec<AddressLabel>, next: usize) -> (step: (usize, SinkState, SinkAction))
    requires
        next <= records.len(),
    ensures
        step.0 == next,
        step.1 == if next < records.len() {
            SinkState::Inserting
        } else {
            SinkState::Committing
        },
        step.2@ == if next < records.len() {
            SinkActionView::Insert(row_of(records@[next as int]@))
        } else {
            SinkActionView::Commit
        },
{
    if next < records.len() {
        let record = &records[next];
        (
            next,
            SinkState::Inserting,
            SinkAction::Insert(
                Row {
                    address: record.address(),
                    label_type: record.label_type().to_owned(),
                    label_name: record.label_name().to_owned(),
                },
            ),
        )
    } else {
        (next, SinkState::Committing, SinkAction::Commit)
    }
}

/// What the driver is told once the transaction is committed.
fn report(records: &Vec<AddressLabel>, next: usize, rejections: &Vec<Rejection>) -> (report: Report)
    requires
        rejections.len() <= next,
    ensures
        report@ == (ReportView {
            count: records.len() as nat,
            stored: (next - rejections.len()) as nat,
            rejections: views_of(rejections@),
        }),
{
    let mut copies: Vec<Rejection> = Vec::new();
    let mut i: usize = 0;
    while i < rejections.len()
        invariant
            i <= rejections.len(),
            copies.len() == i,
            forall|k: int| 0 <= k < i ==> copies@[k]@ == rejections@[k]@,
        decreases rejections.len() - i,
    {
        copies.push(Rejection { index: rejections[i].index, message: rejections[i].message.clone() });
        i += 1;
    }
    assert(views_of(copies@) =~= views_of(rejections@));
    Report { count: records.len(), stored: next - rejections.len(), rejections: copies }
}

} // verus!
