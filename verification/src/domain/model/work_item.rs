//! One unit of demand.

use vstd::prelude::*;

verus! {

/// What to fetch and how many records of it are wanted.
#[derive(Debug, PartialEq, Eq)]
pub struct WorkItem {
    label_type: String,
    label_name: String,
    target_count: usize,
}

/// The mathematical value of a [`WorkItem`].
pub ghost struct WorkItemView {
    pub label_type: Seq<char>,
    pub label_name: Seq<char>,
    pub target_count: nat,
}

impl View for WorkItem {
    type V = WorkItemView;

    closed spec fn view(&self) -> WorkItemView {
        WorkItemView {
            label_type: self.label_type@,
            label_name: self.label_name@,
            target_count: self.target_count as nat,
        }
    }
}

impl WorkItem {
    /// The demand for `target_count` records of the label `label_type`,
    /// `label_name`.
    pub fn new(label_type: String, label_name: String, target_count: usize) -> (item: WorkItem)
        ensures
            item@ == (WorkItemView {
                label_type: label_type@,
                label_name: label_name@,
                target_count: target_count as nat,
            }),
    {
        WorkItem { label_type, label_name, target_count }
    }

    /// The type of the label.
    pub fn label_type(&self) -> (label_type: &str)
        ensures
            label_type@ == self@.label_type,
    {
        self.label_type.as_str()
    }

    /// The name of the label.
    pub fn label_name(&self) -> (label_name: &str)
        ensures
            label_name@ == self@.label_name,
    {
        self.label_name.as_str()
    }

    /// The number of records that are wanted.
    pub fn target_count(&self) -> (target_count: usize)
        ensures
            target_count == self@.target_count,
    {
        self.target_count
    }
}

} // verus!
