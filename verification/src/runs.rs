//! Whole runs of a pipeline: what holds of every sequence of inputs.

use vstd::prelude::*;
use crate::domain::model::address_label::{
    greatest_stored_address,
    lemma_greatest_stored_address,
    AddressLabel,
    AddressLabelView,
};
use crate::domain::model::work_item::WorkItemView;
use crate::domain::query::find_results::FindResultDataResponse;
use crate::json::decoded_document;
use crate::query_task::{ActionView, InputView, RemoteCallView, StateView, TaskView};
use crate::text::{lemma_precedes_irreflexive, lemma_precedes_transitive, precedes};

verus! {

impl TaskView {
    /// The pipeline after a sequence of inputs.
    pub open spec fn after(self, inputs: Seq<InputView>) -> TaskView
        decreases inputs.len(),
    {
        if inputs.len() == 0 {
            self
        } else {
            self.after(inputs.drop_last()).next(inputs.last()).0
        }
    }

    /// What the pipeline asks of its driver over a sequence of inputs: one
    /// action for each input.
    pub open spec fn actions(self, inputs: Seq<InputView>) -> Seq<ActionView>
        decreases inputs.len(),
    {
        if inputs.len() == 0 {
            Seq::empty()
        } else {
            self.actions(inputs.drop_last()).push(
                self.after(inputs.drop_last()).next(inputs.last()).1,
            )
        }
    }

    /// The page that an input brings, where the pipeline is fetching and the
    /// input is a reply that decodes.
    pub open spec fn page_of(self, input: InputView) -> Option<Seq<AddressLabelView>> {
        match (self.state, input) {
            (StateView::FetchingResult { job_id }, InputView::Reply { body, document }) => {
                match decoded_document::<FindResultDataResponse<AddressLabel>>(document) {
                    Some(rows) => Some(rows.rows()),
                    None => None,
                }
            },
            _ => None,
        }
    }

    /// Whether an input brings no page that holds more rows than the query of
    /// the page asked for.
    pub open spec fn within_limit(self, input: InputView) -> bool {
        match self.page_of(input) {
            Some(page) => page.len() <= self.limit(),
            None => true,
        }
    }

    /// Whether an input brings no page but one that answers the query of the
    /// page: every address of it above the cursor, where one is set.
    pub open spec fn answers_query(self, input: InputView) -> bool {
        match self.page_of(input) {
            Some(page) => above(self.cursor, page),
            None => true,
        }
    }
}

/// The pages that a sequence of actions hands out, in order.
pub open spec fn pages(actions: Seq<ActionView>) -> Seq<Seq<AddressLabelView>>
    decreases actions.len(),
{
    if actions.len() == 0 {
        Seq::empty()
    } else {
        match actions.last() {
            ActionView::Emit(page) => pages(actions.drop_last()).push(page),
            _ => pages(actions.drop_last()),
        }
    }
}

/// The number of records in a sequence of pages.
pub open spec fn total(pages: Seq<Seq<AddressLabelView>>) -> nat
    decreases pages.len(),
{
    if pages.len() == 0 {
        0
    } else {
        total(pages.drop_last()) + pages.last().len()
    }
}

/// Whether every address of a page comes after the cursor, where one is set.
pub open spec fn above(cursor: Option<Seq<char>>, page: Seq<AddressLabelView>) -> bool {
    match cursor {
        Some(address) => forall|i: int|
            0 <= i < page.len() ==> precedes(address, #[trigger] page[i].stored_address()),
        None => true,
    }
}

/// A pipeline that has ended stays as it is, whatever comes: it asks for
/// nothing more and hands out nothing more.
pub proof fn law_ended_is_final(task: TaskView, input: InputView)
    requires
        task.state.is_terminal(),
    ensures
        task.next(input) == (task, ActionView::Idle),
{
}

/// A pipeline whose item wants no record completes on its first resume, with
/// no call to the service and no page. Whatever its inputs, it never asks for a
/// call and never hands out a page.
pub proof fn law_no_demand_no_call(
    userid: i32,
    page_cap: nat,
    item: WorkItemView,
    inputs: Seq<InputView>,
)
    requires
        item.target_count == 0,
    ensures
        TaskView::initial(userid, page_cap, item).next(InputView::Resume) == (
            TaskView::initial(userid, page_cap, item).at(StateView::Completed),
            ActionView::Complete,
        ),
        forall|k: int|
            0 <= k < inputs.len() ==> {
                let action = #[trigger] TaskView::initial(userid, page_cap, item).actions(inputs)[k];
                action is Complete || action is Idle
            },
        pages(TaskView::initial(userid, page_cap, item).actions(inputs)).len() == 0,
{
    lemma_no_demand(TaskView::initial(userid, page_cap, item), inputs);
}

proof fn lemma_no_demand(task: TaskView, inputs: Seq<InputView>)
    requires
        task.remaining == 0,
        task.state is Start,
    ensures
        task.after(inputs).remaining == 0,
        task.after(inputs).state is Start || task.after(inputs).state is Completed,
        task.actions(inputs).len() == inputs.len(),
        forall|k: int|
            0 <= k < inputs.len() ==> {
                let action = #[trigger] task.actions(inputs)[k];
                action is Complete || action is Idle
            },
        pages(task.actions(inputs)).len() == 0,
    decreases inputs.len(),
{
    if inputs.len() > 0 {
        lemma_no_demand(task, inputs.drop_last());
        assert(task.actions(inputs).drop_last() =~= task.actions(inputs.drop_last()));
    }
}

/// While no page holds more rows than its query asked for, the records handed
/// out and the records still wanted add up to what the item wanted. So a
/// pipeline that has completed has handed out exactly that many records,
/// unless it completed on an empty page.
pub proof fn law_quota(userid: i32, page_cap: nat, item: WorkItemView, inputs: Seq<InputView>)
    requires
        forall|k: int|
            0 <= k < inputs.len() ==> (#[trigger] TaskView::initial(userid, page_cap, item).after(
                inputs.take(k),
            )).within_limit(inputs[k]),
    ensures
        total(pages(TaskView::initial(userid, page_cap, item).actions(inputs)))
            + TaskView::initial(userid, page_cap, item).after(inputs).remaining
            == item.target_count,
        TaskView::initial(userid, page_cap, item).after(inputs).state is Completed ==> total(
            pages(TaskView::initial(userid, page_cap, item).actions(inputs)),
        ) == item.target_count || exists|k: int|
            0 <= k < inputs.len() && (#[trigger] TaskView::initial(userid, page_cap, item).after(
                inputs.take(k),
            )).page_of(inputs[k]) == Some(Seq::<AddressLabelView>::empty()),
    decreases inputs.len(),
{
    let start = TaskView::initial(userid, page_cap, item);
    if inputs.len() > 0 {
        let before = inputs.drop_last();
        assert forall|k: int| 0 <= k < before.len() implies (#[trigger] start.after(
            before.take(k),
        )).within_limit(before[k]) by {
            assert(before.take(k) =~= inputs.take(k));
        }
        law_quota(userid, page_cap, item, before);
        let task = start.after(before);
        assert(start.actions(inputs).drop_last() =~= start.actions(before));
        if task.next(inputs.last()).1 is Emit {
            assert(pages(start.actions(inputs)).drop_last() =~= pages(start.actions(before)));
        }
        if task.state is Completed && exists|k: int|
            0 <= k < before.len() && (#[trigger] start.after(before.take(k))).page_of(before[k])
                == Some(Seq::<AddressLabelView>::empty()) {
            let k = choose|k: int|
                0 <= k < before.len() && (#[trigger] start.after(before.take(k))).page_of(
                    before[k],
                ) == Some(Seq::<AddressLabelView>::empty());
            assert(before.take(k) =~= inputs.take(k));
        }
    }
}

/// Where every page answers its query, each page lies wholly above every page
/// that was handed out before it: the least address of a page comes after the
/// greatest address of the page before it, and no address appears in two
/// pages.
pub proof fn law_cursor_monotonic(
    userid: i32,
    page_cap: nat,
    item: WorkItemView,
    inputs: Seq<InputView>,
)
    requires
        forall|k: int|
            0 <= k < inputs.len() ==> (#[trigger] TaskView::initial(userid, page_cap, item).after(
                inputs.take(k),
            )).answers_query(inputs[k]),
    ensures
        forall|n: int, j: int|
            #![trigger pages(TaskView::initial(userid, page_cap, item).actions(inputs))[n][j]]
            {
                let handed = pages(TaskView::initial(userid, page_cap, item).actions(inputs));
                0 < n < handed.len() && 0 <= j < handed[n].len() ==> precedes(
                    greatest_stored_address(handed[n - 1]),
                    handed[n][j].stored_address(),
                )
            },
        forall|m: int, n: int, i: int, j: int|
            #![trigger
                pages(TaskView::initial(userid, page_cap, item).actions(inputs))[m][i],
                pages(TaskView::initial(userid, page_cap, item).actions(inputs))[n][j]
            ]
            {
                let handed = pages(TaskView::initial(userid, page_cap, item).actions(inputs));
                0 <= m < n < handed.len() && 0 <= i < handed[m].len() && 0 <= j < handed[n].len()
                    ==> precedes(handed[m][i].stored_address(), handed[n][j].stored_address())
                    && handed[m][i].stored_address() != handed[n][j].stored_address()
            },
{
    let start = TaskView::initial(userid, page_cap, item);
    lemma_cursor(start, inputs);
    let handed = pages(start.actions(inputs));
    assert forall|m: int, n: int, i: int, j: int|
        #![trigger handed[m][i], handed[n][j]]
        0 <= m < n < handed.len() && 0 <= i < handed[m].len() && 0 <= j
            < handed[n].len() implies handed[m][i].stored_address()
        != handed[n][j].stored_address() by {
        lemma_precedes_irreflexive(handed[m][i].stored_address());
    }
}

/// Every address of a page is the greatest of the page or comes before it: so
/// what comes after the greatest comes after them all.
proof fn lemma_above_greatest(page: Seq<AddressLabelView>, i: int, later: Seq<char>)
    requires
        0 <= i < page.len(),
        precedes(greatest_stored_address(page), later),
    ensures
        precedes(page[i].stored_address(), later),
{
    lemma_greatest_stored_address(page);
    if page[i].stored_address() != greatest_stored_address(page) {
        lemma_precedes_transitive(
            page[i].stored_address(),
            greatest_stored_address(page),
            later,
        );
    }
}

proof fn lemma_cursor(start: TaskView, inputs: Seq<InputView>)
    requires
        start.cursor is None,
        forall|k: int|
            0 <= k < inputs.len() ==> (#[trigger] start.after(inputs.take(k))).answers_query(
                inputs[k],
            ),
    ensures
        ({
            let handed = pages(start.actions(inputs));
            let task = start.after(inputs);
            &&& handed.len() == 0 ==> task.cursor is None
            &&& handed.len() > 0 ==> task.cursor == Some(greatest_stored_address(handed.last()))
            &&& forall|n: int| 0 <= n < handed.len() ==> (#[trigger] handed[n]).len() > 0
            &&& forall|n: int, j: int|
                #![trigger handed[n][j]]
                0 < n < handed.len() && 0 <= j < handed[n].len() ==> precedes(
                    greatest_stored_address(handed[n - 1]),
                    handed[n][j].stored_address(),
                )
            &&& forall|m: int, n: int, i: int, j: int|
                #![trigger handed[m][i], handed[n][j]]
                0 <= m < n < handed.len() && 0 <= i < handed[m].len() && 0 <= j < handed[n].len()
                    ==> precedes(handed[m][i].stored_address(), handed[n][j].stored_address())
        }),
    decreases inputs.len(),
{
    if inputs.len() > 0 {
        let before = inputs.drop_last();
        assert forall|k: int| 0 <= k < before.len() implies (#[trigger] start.after(
            before.take(k),
        )).answers_query(before[k]) by {
            assert(before.take(k) =~= inputs.take(k));
        }
        lemma_cursor(start, before);
        let task = start.after(before);
        assert(start.actions(inputs).drop_last() =~= start.actions(before));
        let earlier = pages(start.actions(before));
        let handed = pages(start.actions(inputs));
        match task.next(inputs.last()).1 {
            ActionView::Emit(page) => {
                assert forall|m: int, n: int, i: int, j: int|
                    #![trigger handed[m][i], handed[n][j]]
                    0 <= m < n < handed.len() && 0 <= i < handed[m].len() && 0 <= j
                        < handed[n].len() implies precedes(
                    handed[m][i].stored_address(),
                    handed[n][j].stored_address(),
                ) by {
                    if n == handed.len() - 1 {
                        let last = earlier.last();
                        if m == n - 1 {
                            lemma_above_greatest(last, i, page[j].stored_address());
                        } else {
                            lemma_above_greatest(last, 0, page[j].stored_address());
                            lemma_precedes_transitive(
                                earlier[m][i].stored_address(),
                                last[0].stored_address(),
                                page[j].stored_address(),
                            );
                        }
                    }
                }
            },
            _ => {},
        }
    }
}

/// Every step leaves a pipeline with at most one call on its way: a call is
/// asked for only as the pipeline begins to wait for its answer, a page is
/// handed out only as the pipeline pauses, and the pipeline ends only as it
/// says so. A pipeline that waits for an answer takes the answer, or the
/// failure of the call, exactly once: it never lets it pass.
pub proof fn law_one_call_at_a_time(task: TaskView, input: InputView)
    ensures
        task.next(input).1 is Call ==> task.next(input).0.state.awaits_reply(),
        task.next(input).1 is Emit ==> task.next(input).0.state is Evaluating,
        task.next(input).1 is Complete ==> task.next(input).0.state is Completed,
        task.next(input).1 is Fail ==> task.next(input).0.state is Failed,
        task.next(input).1 is Idle ==> task.next(input).0 == task,
        task.state.awaits_reply() && !(input is Resume) ==> !(task.next(input).1 is Idle),
        !task.state.awaits_reply() && !(input is Resume) ==> task.next(input).1 is Idle,
{
}

/// The token of a page cycle is that of the cycle's session answer: it changes
/// only as a session request is answered, and every call to the query
/// endpoint carries the token that the pipeline then holds.
pub proof fn law_token_of_the_cycle(task: TaskView, input: InputView)
    ensures
        task.next(input).0.bearer_token != task.bearer_token ==> task.state is AcquiringSession
            && task.next(input).0.state is SubmittingQuery,
        task.next(input).1 matches ActionView::Call(RemoteCallView::Query { bearer_token, .. })
            ==> bearer_token == task.next(input).0.bearer_token,
{
}

/// A pipeline waits for an answer only while records are wanted, so every
/// page that it hands out lowers the number of records that are wanted.
pub proof fn law_each_page_lowers_demand(
    userid: i32,
    page_cap: nat,
    item: WorkItemView,
    inputs: Seq<InputView>,
    input: InputView,
)
    ensures
        TaskView::initial(userid, page_cap, item).after(inputs).state.awaits_reply()
            ==> TaskView::initial(userid, page_cap, item).after(inputs).remaining > 0,
        TaskView::initial(userid, page_cap, item).after(inputs).next(input).0.remaining
            <= TaskView::initial(userid, page_cap, item).after(inputs).remaining,
        TaskView::initial(userid, page_cap, item).after(inputs).next(input).1 is Emit
            ==> TaskView::initial(userid, page_cap, item).after(inputs).next(input).0.remaining
            < TaskView::initial(userid, page_cap, item).after(inputs).remaining,
    decreases inputs.len(),
{
    if inputs.len() > 0 {
        law_each_page_lowers_demand(userid, page_cap, item, inputs.drop_last(), inputs.last());
    }
}

} // verus!
