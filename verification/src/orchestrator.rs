//! The orchestrator: it admits work items, runs a bounded number of pipelines
//! side by side and keeps that number up while items wait.
//!
//! Like a pipeline it does no I/O. Its driver offers it items, asks it to start
//! what can be started, makes the calls that it is told to make and delivers
//! their outcomes to the slot that asked for them.

use vstd::prelude::*;
use vstd::pervasive::VecAdditionalExecFns;
use crate::domain::model::work_item::{WorkItem, WorkItemView};
use crate::views::views_of;
use crate::query_task::{Action, ActionView, Event, Input, InputView, QueryTask, TaskView};

verus! {

/// What the driver is to do for the pipeline in one slot.
#[derive(Debug, PartialEq, Eq)]
pub struct Directive {
    /// The slot of the pipeline; outcomes of calls are delivered to it.
    pub slot: usize,
    /// The type of the label that the pipeline fetches.
    pub label_type: String,
    /// The name of the label that the pipeline fetches.
    pub label_name: String,
    /// What is to be done.
    pub action: Action,
}

/// The mathematical value of a [`Directive`].
pub ghost struct DirectiveView {
    pub slot: int,
    pub label_type: Seq<char>,
    pub label_name: Seq<char>,
    pub action: ActionView,
}

impl View for Directive {
    type V = DirectiveView;

    open spec fn view(&self) -> DirectiveView {
        DirectiveView {
            slot: self.slot as int,
            label_type: self.label_type@,
            label_name: self.label_name@,
            action: self.action@,
        }
    }
}

/// The number of slots that hold a pipeline.
pub open spec fn occupied(slots: Seq<Option<TaskView>>) -> nat
    decreases slots.len(),
{
    if slots.len() == 0 {
        0
    } else {
        occupied(slots.drop_last()) + if slots.last() is Some {
            1nat
        } else {
            0nat
        }
    }
}

/// The first slot that holds no pipeline; the number of slots where all do.
pub open spec fn first_free(slots: Seq<Option<TaskView>>) -> int
    decreases slots.len(),
{
    if slots.len() == 0 {
        0
    } else if slots[0] is None {
        0
    } else {
        1 + first_free(slots.drop_first())
    }
}

/// The mathematical value of an [`Orchestrator`].
pub ghost struct OrchestratorView {
    /// The user in whose name queries are registered.
    pub userid: i32,
    /// The most that one page may hold.
    pub page_cap: nat,
    /// The most pipelines that run at one time, and the most items that wait.
    pub concurrency_limit: nat,
    /// The items that wait, the oldest first.
    pub queue: Seq<WorkItemView>,
    /// The slots: each is free or holds a running pipeline.
    pub slots: Seq<Option<TaskView>>,
    /// Whether the producer has said that no more items come.
    pub closed: bool,
}

impl OrchestratorView {
    /// An orchestrator that holds nothing yet.
    pub open spec fn empty(userid: i32, page_cap: nat, concurrency_limit: nat) -> OrchestratorView {
        OrchestratorView {
            userid,
            page_cap,
            concurrency_limit,
            queue: Seq::empty(),
            slots: Seq::empty(),
            closed: false,
        }
    }

    /// The number of pipelines that run.
    pub open spec fn running(self) -> nat {
        occupied(self.slots)
    }

    /// What holds of every orchestrator: no more items wait than the limit
    /// allows, there are no more slots than the limit allows, and no slot
    /// holds a pipeline that has ended.
    pub open spec fn wf(self) -> bool {
        &&& self.queue.len() <= self.concurrency_limit
        &&& self.slots.len() <= self.concurrency_limit
        &&& forall|i: int|
            0 <= i < self.slots.len() ==> ((#[trigger] self.slots[i]) matches Some(task)
                ==> !task.state.is_terminal())
    }

    /// Whether an item that is offered is taken: the producer has not closed,
    /// and fewer items wait than the limit allows.
    pub open spec fn has_room(self) -> bool {
        !self.closed && self.queue.len() < self.concurrency_limit
    }

    /// Whether an item can be admitted: one waits, and fewer pipelines run
    /// than the limit allows.
    pub open spec fn can_start(self) -> bool {
        self.queue.len() > 0 && self.running() < self.concurrency_limit
    }

    /// Whether a slot holds a pipeline.
    pub open spec fn runs_at(self, slot: int) -> bool {
        0 <= slot < self.slots.len() && self.slots[slot] is Some
    }

    /// Whether all is done: the producer has closed, nothing waits and nothing
    /// runs.
    pub open spec fn finished(self) -> bool {
        self.closed && self.queue.len() == 0 && self.running() == 0
    }

    /// The slots with a pipeline put in one of them, or added as a new slot;
    /// a pipeline that has ended is not kept.
    pub open spec fn placed(self, slot: int, task: TaskView) -> Seq<Option<TaskView>> {
        if task.state.is_terminal() {
            if slot < self.slots.len() {
                self.slots.update(slot, None)
            } else {
                self.slots
            }
        } else if slot < self.slots.len() {
            self.slots.update(slot, Some(task))
        } else {
            self.slots.push(Some(task))
        }
    }

    /// The oldest waiting item is admitted: its pipeline takes the first free
    /// slot and is resumed.
    pub open spec fn started(self) -> (OrchestratorView, DirectiveView) {
        let item = self.queue[0];
        let slot = first_free(self.slots);
        let (task, action) = TaskView::initial(self.userid, self.page_cap, item).next(
            InputView::Resume,
        );
        (
            OrchestratorView {
                queue: self.queue.drop_first(),
                slots: self.placed(slot, task),
                ..self
            },
            DirectiveView { slot, label_type: item.label_type, label_name: item.label_name, action },
        )
    }

    /// The pipeline in a slot takes an input; where it ends, its slot is freed.
    pub open spec fn handled(self, slot: int, input: InputView) -> (
        OrchestratorView,
        DirectiveView,
    ) {
        let before = self.slots[slot].unwrap();
        let (task, action) = before.next(input);
        (
            OrchestratorView { slots: self.placed(slot, task), ..self },
            DirectiveView {
                slot,
                label_type: before.label_type,
                label_name: before.label_name,
                action,
            },
        )
    }
}

/// No more slots are occupied than there are slots.
pub proof fn lemma_occupied_bound(slots: Seq<Option<TaskView>>)
    ensures
        occupied(slots) <= slots.len(),
    decreases slots.len(),
{
    if slots.len() > 0 {
        lemma_occupied_bound(slots.drop_last());
    }
}

/// The first free slot is free, and every slot before it is occupied; where
/// no slot is free, all are occupied.
pub proof fn lemma_first_free(slots: Seq<Option<TaskView>>)
    ensures
        0 <= first_free(slots) <= slots.len(),
        first_free(slots) < slots.len() ==> slots[first_free(slots)] is None,
        forall|i: int| 0 <= i < first_free(slots) ==> (#[trigger] slots[i]) is Some,
        first_free(slots) == slots.len() ==> occupied(slots) == slots.len(),
        first_free(slots) < slots.len() ==> occupied(slots) < slots.len(),
    decreases slots.len(),
{
    if slots.len() > 0 {
        let rest = slots.drop_first();
        lemma_first_free(rest);
        lemma_occupied_front(slots);
        lemma_occupied_bound(rest);
        if slots[0] is Some {
            assert forall|i: int| 0 <= i < first_free(slots) implies (#[trigger] slots[i]) is Some by {
                if i > 0 {
                    assert(slots[i] == rest[i - 1]);
                }
            }
        }
    }
}

/// The number of occupied slots, counted from the front.
pub proof fn lemma_occupied_front(slots: Seq<Option<TaskView>>)
    requires
        slots.len() > 0,
    ensures
        occupied(slots) == occupied(slots.drop_first()) + (if slots[0] is Some {
            1nat
        } else {
            0nat
        }),
    decreases slots.len(),
{
    if slots.len() > 1 {
        lemma_occupied_front(slots.drop_last());
        assert(slots.drop_last().drop_first() =~= slots.drop_first().drop_last());
    } else {
        assert(slots.drop_first() =~= Seq::empty());
        assert(slots.drop_last() =~= Seq::empty());
    }
}

/// One thing that a driver does with an orchestrator.
pub ghost enum StepView {
    /// It offers an item.
    Offer(WorkItemView),
    /// It says that no more items come.
    Close,
    /// It asks for the oldest waiting item to be started.
    Start,
    /// It hands an input to the pipeline in a slot.
    Handle { slot: int, input: InputView },
}

impl OrchestratorView {
    /// The orchestrator after one step of its driver. A step that cannot be
    /// taken (an offer without room, a start with nothing to start, an input
    /// for an empty slot) changes nothing.
    pub open spec fn step(self, step: StepView) -> OrchestratorView {
        match step {
            StepView::Offer(item) => if self.has_room() {
                OrchestratorView { queue: self.queue.push(item), ..self }
            } else {
                self
            },
            StepView::Close => OrchestratorView { closed: true, ..self },
            StepView::Start => if self.can_start() {
                self.started().0
            } else {
                self
            },
            StepView::Handle { slot, input } => if self.runs_at(slot) {
                self.handled(slot, input).0
            } else {
                self
            },
        }
    }

    /// The orchestrator after a sequence of steps of its driver.
    pub open spec fn after(self, steps: Seq<StepView>) -> OrchestratorView
        decreases steps.len(),
    {
        if steps.len() == 0 {
            self
        } else {
            self.after(steps.drop_last()).step(steps.last())
        }
    }
}

/// An orchestrator that is as it must be runs no more pipelines than its limit
/// allows.
pub proof fn law_bounded(orchestrator: OrchestratorView)
    requires
        orchestrator.wf(),
    ensures
        orchestrator.running() <= orchestrator.concurrency_limit,
{
    lemma_occupied_bound(orchestrator.slots);
}

/// Every step of a driver keeps an orchestrator as it must be.
pub proof fn law_step_keeps_wf(orchestrator: OrchestratorView, step: StepView)
    requires
        orchestrator.wf(),
    ensures
        orchestrator.step(step).wf(),
        orchestrator.step(step).concurrency_limit == orchestrator.concurrency_limit,
{
    lemma_first_free(orchestrator.slots);
    lemma_occupied_bound(orchestrator.slots);
}

/// Whatever its driver does, in whatever order, an orchestrator never runs
/// more pipelines than its limit allows, and never lets more items wait.
pub proof fn law_never_above_limit(
    userid: i32,
    page_cap: nat,
    concurrency_limit: nat,
    steps: Seq<StepView>,
)
    ensures
        OrchestratorView::empty(userid, page_cap, concurrency_limit).after(steps).wf(),
        OrchestratorView::empty(userid, page_cap, concurrency_limit).after(
            steps,
        ).concurrency_limit == concurrency_limit,
        OrchestratorView::empty(userid, page_cap, concurrency_limit).after(steps).running()
            <= concurrency_limit,
        OrchestratorView::empty(userid, page_cap, concurrency_limit).after(steps).queue.len()
            <= concurrency_limit,
    decreases steps.len(),
{
    let start = OrchestratorView::empty(userid, page_cap, concurrency_limit);
    if steps.len() > 0 {
        law_never_above_limit(userid, page_cap, concurrency_limit, steps.drop_last());
        law_step_keeps_wf(start.after(steps.drop_last()), steps.last());
    }
    law_bounded(start.after(steps));
}

/// Once nothing more can be started, nothing waits or as many pipelines run as
/// the limit allows: a driver that starts what can be started keeps the slots
/// full while items wait.
pub proof fn law_saturated(orchestrator: OrchestratorView)
    requires
        orchestrator.wf(),
        !orchestrator.can_start(),
    ensures
        orchestrator.queue.len() == 0 || orchestrator.running()
            == orchestrator.concurrency_limit,
{
    law_bounded(orchestrator);
}

/// What happens to one pipeline touches no other: an input for the pipeline in
/// one slot, whatever comes of it, leaves every other slot and the waiting
/// items as they were.
pub proof fn law_others_unaffected(
    orchestrator: OrchestratorView,
    slot: int,
    input: InputView,
    other: int,
)
    requires
        orchestrator.runs_at(slot),
        0 <= other < orchestrator.slots.len(),
        other != slot,
    ensures
        orchestrator.handled(slot, input).0.slots.len() == orchestrator.slots.len(),
        orchestrator.handled(slot, input).0.slots[other] == orchestrator.slots[other],
        orchestrator.handled(slot, input).0.queue == orchestrator.queue,
{
}

/// The orchestrator.
pub struct Orchestrator {
    userid: i32,
    page_cap: usize,
    concurrency_limit: usize,
    queue: Vec<WorkItem>,
    slots: Vec<Option<QueryTask>>,
    closed: bool,
}

/// The values of the slots, one for one.
pub closed spec fn slots_view(slots: Seq<Option<QueryTask>>) -> Seq<Option<TaskView>> {
    Seq::new(
        slots.len(),
        |i: int|
            match slots[i] {
                Some(task) => Some(task@),
                None => None,
            },
    )
}

impl View for Orchestrator {
    type V = OrchestratorView;

    closed spec fn view(&self) -> OrchestratorView {
        OrchestratorView {
            userid: self.userid,
            page_cap: self.page_cap as nat,
            concurrency_limit: self.concurrency_limit as nat,
            queue: views_of(self.queue@),
            slots: slots_view(self.slots@),
            closed: self.closed,
        }
    }
}

/// The first slot that holds no pipeline; the number of slots where all do.
fn find_free(slots: &Vec<Option<QueryTask>>) -> (slot: usize)
    ensures
        slot == first_free(slots_view(slots@)),
{
    let ghost all = slots_view(slots@);
    let mut i: usize = 0;
    assert(all.skip(0) =~= all);
    while i < slots.len()
        invariant
            i <= slots.len(),
            all == slots_view(slots@),
            first_free(all) == i + first_free(all.skip(i as int)),
        decreases slots.len() - i,
    {
        if slots[i].is_none() {
            return i;
        }
        assert(all.skip(i as int).drop_first() =~= all.skip(i + 1));
        i += 1;
    }
    i
}

impl Orchestrator {
    #[verifier::type_invariant]
    spec fn valid(self) -> bool {
        self@.wf()
    }

    /// An orchestrator that holds nothing yet. It runs at most
    /// `concurrency_limit` pipelines at one time and lets as many items wait;
    /// its pipelines ask for pages of at most `page_cap` records, in the name
    /// of `userid`.
    pub fn new(userid: i32, page_cap: usize, concurrency_limit: usize) -> (orchestrator:
        Orchestrator)
        ensures
            orchestrator@ == OrchestratorView::empty(
                userid,
                page_cap as nat,
                concurrency_limit as nat,
            ),
    {
        let queue: Vec<WorkItem> = Vec::new();
        let slots: Vec<Option<QueryTask>> = Vec::new();
        assert(views_of(queue@) =~= Seq::empty());
        assert(slots_view(slots@) =~= Seq::empty());
        Orchestrator { userid, page_cap, concurrency_limit, queue, slots, closed: false }
    }

    /// The most pipelines that run at one time.
    pub fn concurrency_limit(&self) -> (limit: usize)
        ensures
            limit == self@.concurrency_limit,
    {
        self.concurrency_limit
    }

    /// The number of items that wait: never more than the limit allows.
    pub fn waiting(&self) -> (waiting: usize)
        ensures
            waiting == self@.queue.len(),
            waiting <= self@.concurrency_limit,
    {
        proof {
            use_type_invariant(self);
        }
        self.queue.len()
    }

    /// The number of pipelines that run: never more than the limit allows.
    pub fn running(&self) -> (running: usize)
        ensures
            running == self@.running(),
            running <= self@.concurrency_limit,
    {
        proof {
            use_type_invariant(self);
        }
        let ghost all = slots_view(self.slots@);
        let mut running: usize = 0;
        let mut i: usize = 0;
        while i < self.slots.len()
            invariant
                i <= self.slots.len(),
                all == slots_view(self.slots@),
                running == occupied(all.take(i as int)),
                running <= i,
            decreases self.slots.len() - i,
        {
            assert(all.take(i + 1).drop_last() =~= all.take(i as int));
            if self.slots[i].is_some() {
                running += 1;
            }
            i += 1;
        }
        assert(all.take(i as int) =~= all);
        running
    }

    /// Whether the producer has said that no more items come.
    pub fn is_closed(&self) -> (closed: bool)
        ensures
            closed == self@.closed,
    {
        self.closed
    }

    /// Whether an item that is offered now is taken.
    pub fn has_room(&self) -> (room: bool)
        ensures
            room == self@.has_room(),
    {
        !self.closed && self.queue.len() < self.concurrency_limit
    }

    /// Whether all is done: the producer has closed, nothing waits and nothing
    /// runs.
    pub fn is_finished(&self) -> (finished: bool)
        ensures
            finished == self@.finished(),
    {
        self.closed && self.queue.len() == 0 && self.running() == 0
    }

    /// Takes the orchestrator out of its place, and leaves an empty one there.
    fn take(&mut self) -> (taken: Orchestrator)
        ensures
            taken@ == old(self)@,
            taken@.wf(),
    {
        let mut taken = Orchestrator::new(self.userid, self.page_cap, self.concurrency_limit);
        core::mem::swap(self, &mut taken);
        proof {
            use_type_invariant(&taken);
        }
        taken
    }

    /// Offers an item. It is taken, and waits behind the items that wait
    /// already, where there is room; else it is handed back and nothing
    /// changes: the producer is to wait.
    pub fn offer(&mut self, item: WorkItem) -> (refused: Option<WorkItem>)
        ensures
            match refused {
                None => old(self)@.has_room(),
                Some(back) => !old(self)@.has_room() && back@ == item@,
            },
            final(self)@ == old(self)@.step(StepView::Offer(item@)),
    {
        if !self.has_room() {
            return Some(item);
        }
        let Orchestrator { userid, page_cap, concurrency_limit, queue, slots, closed } =
            self.take();
        let mut queue = queue;
        queue.push(item);
        assert(views_of(queue@) =~= old(self)@.queue.push(item@));
        *self = Orchestrator { userid, page_cap, concurrency_limit, queue, slots, closed };
        None
    }

    /// The producer says that no more items come: from now on none is taken.
    pub fn close(&mut self)
        ensures
            final(self)@ == old(self)@.step(StepView::Close),
    {
        proof {
            use_type_invariant(&*self);
        }
        self.closed = true;
    }

    /// Starts the pipeline of the oldest waiting item where fewer pipelines
    /// run than the limit allows: the pipeline is resumed, and takes the first
    /// free slot unless it has ended at once. Where nothing waits or the limit
    /// is reached, nothing changes.
    pub fn start_next(&mut self) -> (started: Option<Directive>)
        ensures
            match started {
                Some(directive) => old(self)@.can_start() && directive@ == old(
                    self,
                )@.started().1,
                None => !old(self)@.can_start(),
            },
            final(self)@ == old(self)@.step(StepView::Start),
    {
        proof {
            use_type_invariant(&*self);
            lemma_first_free(self@.slots);
        }
        let slot = find_free(&self.slots);
        if self.queue.len() == 0 || slot >= self.concurrency_limit {
            return None;
        }
        let Orchestrator { userid, page_cap, concurrency_limit, queue, slots, closed } =
            self.take();
        let mut queue = queue;
        let mut slots = slots;
        let item = queue.remove(0);
        assert(views_of(queue@) =~= old(self)@.queue.drop_first());
        let mut task = QueryTask::for_item(userid, page_cap, &item);
        let action = task.advance(Input::Resume);
        let label_type = item.label_type().to_owned();
        let label_name = item.label_name().to_owned();
        if !task.is_terminal() {
            if slot < slots.len() {
                slots.set(slot, Some(task));
            } else {
                slots.push(Some(task));
            }
        }
        assert(slots_view(slots@) =~= old(self)@.placed(slot as int, task@));
        *self = Orchestrator { userid, page_cap, concurrency_limit, queue, slots, closed };
        Some(Directive { slot, label_type, label_name, action })
    }

    /// Hands an input whose answer has been read already to the pipeline in a
    /// slot; where the pipeline ends, its slot is freed. Where the slot holds
    /// no pipeline, nothing changes.
    pub fn handle(&mut self, slot: usize, input: Input) -> (handled: Option<Directive>)
        ensures
            match handled {
                Some(directive) => old(self)@.runs_at(slot as int) && directive@ == old(
                    self,
                )@.handled(slot as int, input@).1,
                None => !old(self)@.runs_at(slot as int),
            },
            final(self)@ == old(self)@.step(StepView::Handle { slot: slot as int, input: input@ }),
    {
        if slot >= self.slots.len() {
            return None;
        }
        if self.slots[slot].is_none() {
            return None;
        }
        let Orchestrator { userid, page_cap, concurrency_limit, queue, slots, closed } =
            self.take();
        let mut slots = slots;
        let mut taken: Option<QueryTask> = None;
        slots.set_and_swap(slot, &mut taken);
        let mut task = taken.unwrap();
        let label_type = task.label_type().to_owned();
        let label_name = task.label_name().to_owned();
        let action = task.advance(input);
        if !task.is_terminal() {
            slots.set(slot, Some(task));
        }
        assert(slots_view(slots@) =~= old(self)@.placed(slot as int, task@));
        *self = Orchestrator { userid, page_cap, concurrency_limit, queue, slots, closed };
        Some(Directive { slot, label_type, label_name, action })
    }

    /// Delivers an event to the pipeline in a slot: a reply is read as JSON
    /// with `serde_json`, and the pipeline takes what was read.
    pub fn deliver(&mut self, slot: usize, event: Event) -> (handled: Option<Directive>)
        ensures
            match handled {
                Some(directive) => old(self)@.runs_at(slot as int) && directive@ == old(
                    self,
                )@.handled(slot as int, event@.read()).1,
                None => !old(self)@.runs_at(slot as int),
            },
            final(self)@ == old(self)@.step(
                StepView::Handle { slot: slot as int, input: event@.read() },
            ),
    {
        self.handle(slot, event.read())
    }
}

} // verus!
