//! The table of labels from which the work items are chosen.

use vstd::prelude::*;
use crate::domain::model::work_item::{WorkItem, WorkItemView};
use crate::domain::query::find_results::FindResultDataByResultId;
use crate::json::{FromJson, Json, JsonView};
use crate::views::views_of;
use crate::text::{contains, has_prefix, holds, starts_with};

verus! {

/// The stored result that holds the table of labels.
pub const LABEL_TABLE_RESULT_ID: &'static str = "887c3f39-89cb-4f1b-92fc-98c22dc02f2b";

/// One line of the table: a label, and how many addresses carry it.
#[derive(Debug, PartialEq, Eq)]
pub struct LabelData {
    label_name: String,
    label_type: String,
    amount: usize,
}

/// The mathematical value of a [`LabelData`].
pub ghost struct LabelDataView {
    pub label_name: Seq<char>,
    pub label_type: Seq<char>,
    pub amount: nat,
}

impl LabelDataView {
    /// Whether the label is fetched: more than one address carries it, its
    /// type does not begin with `ens`, and `contract` stands nowhere in its type.
    pub open spec fn wanted(self) -> bool {
        self.amount > 1 && !has_prefix(self.label_type, "ens"@) && !holds(
            self.label_type,
            "contract"@,
        )
    }

    /// The demand for every address that carries the label.
    pub open spec fn work_item(self) -> WorkItemView {
        WorkItemView {
            label_type: self.label_type,
            label_name: self.label_name,
            target_count: self.amount,
        }
    }
}

/// The work items of the lines that are fetched, in the order of the table.
pub open spec fn chosen(lines: Seq<LabelDataView>) -> Seq<WorkItemView>
    decreases lines.len(),
{
    if lines.len() == 0 {
        Seq::empty()
    } else if lines.last().wanted() {
        chosen(lines.drop_last()).push(lines.last().work_item())
    } else {
        chosen(lines.drop_last())
    }
}

impl View for LabelData {
    type V = LabelDataView;

    closed spec fn view(&self) -> LabelDataView {
        LabelDataView {
            label_name: self.label_name@,
            label_type: self.label_type@,
            amount: self.amount as nat,
        }
    }
}

impl FromJson for LabelData {
    /// An object with the strings `label_name` and `label_type` and the
    /// integer `amount`, which is not negative and fits the machine's word.
    open spec fn decoded(j: JsonView) -> Option<LabelDataView> {
        match (
            j.text_member("label_name"@),
            j.text_member("label_type"@),
            j.integer_member("amount"@),
        ) {
            (Some(label_name), Some(label_type), Some(amount)) => if 0 <= amount <= usize::MAX {
                Some(LabelDataView { label_name, label_type, amount: amount as nat })
            } else {
                None
            },
            _ => None,
        }
    }

    fn from_json(j: &Json) -> (found: Option<LabelData>) {
        let label_name = match j.get_str("label_name") {
            Some(s) => s.to_owned(),
            None => { return None; },
        };
        let label_type = match j.get_str("label_type") {
            Some(s) => s.to_owned(),
            None => { return None; },
        };
        let amount = match j.get_integer("amount") {
            Some(amount) => amount,
            None => { return None; },
        };
        if 0 <= amount && amount <= usize::MAX as i128 {
            Some(LabelData { label_name, label_type, amount: amount as usize })
        } else {
            None
        }
    }
}

impl LabelData {
    /// A line of the table from its parts.
    pub fn new(label_name: String, label_type: String, amount: usize) -> (line: LabelData)
        ensures
            line@ == (LabelDataView {
                label_name: label_name@,
                label_type: label_type@,
                amount: amount as nat,
            }),
    {
        LabelData { label_name, label_type, amount }
    }

    /// Whether the label is fetched.
    pub fn is_wanted(&self) -> (wanted: bool)
        ensures
            wanted == self@.wanted(),
    {
        self.amount > 1 && !starts_with(self.label_type.as_str(), "ens") && !contains(
            self.label_type.as_str(),
            "contract",
        )
    }

    /// The demand for every address that carries the label.
    pub fn into_work_item(self) -> (item: WorkItem)
        ensures
            item@ == self@.work_item(),
    {
        WorkItem::new(self.label_type, self.label_name, self.amount)
    }
}

/// The envelope that asks for the table of labels.
pub fn label_table_request() -> (envelope: FindResultDataByResultId)
    ensures
        envelope@ == crate::domain::query::find_results::find_result_by_result_envelope(
            LABEL_TABLE_RESULT_ID@,
        ),
{
    FindResultDataByResultId::new(LABEL_TABLE_RESULT_ID.to_owned())
}

/// The work items of the lines that are fetched, in the order of the table.
pub fn choose_work(lines: Vec<LabelData>) -> (items: Vec<WorkItem>)
    ensures
        views_of(items@) == chosen(views_of(lines@)),
{
    let ghost all = views_of(lines@);
    let mut items: Vec<WorkItem> = Vec::new();
    for line in it: lines
        invariant
            it.seq() == lines@,
            all == views_of(lines@),
            views_of(items@) == chosen(all.take(it.index() as int)),
    {
        assert(all.take(it.index() + 1).drop_last() =~= all.take(it.index() as int));
        if line.is_wanted() {
            items.push(line.into_work_item());
        }
    }
    assert(all.take(lines@.len() as int) =~= all);
    items
}

} // verus!
