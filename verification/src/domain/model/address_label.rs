//! One labelled address.

use vstd::prelude::*;
use crate::json::{FromJson, Json, JsonView};
use crate::text::{comes_before, precedes, substitute, substituted};
use crate::views::views_of;

verus! {

/// A label of an address: the address, and the type and the name of the label.
#[derive(Debug, PartialEq, Eq)]
pub struct AddressLabel {
    address: String,
    label_type: String,
    label_name: String,
}

/// The mathematical value of an [`AddressLabel`]. `address` is the text as the
/// service wrote it.
pub ghost struct AddressLabelView {
    pub address: Seq<char>,
    pub label_type: Seq<char>,
    pub label_name: Seq<char>,
}

impl AddressLabelView {
    /// The address as it is stored and compared: with `0` for every backslash.
    pub open spec fn stored_address(self) -> Seq<char> {
        substituted(self.address, '\\', '0')
    }
}

impl View for AddressLabel {
    type V = AddressLabelView;

    closed spec fn view(&self) -> AddressLabelView {
        AddressLabelView {
            address: self.address@,
            label_type: self.label_type@,
            label_name: self.label_name@,
        }
    }
}

impl AddressLabel {
    /// A label from its three parts.
    pub fn new(address: String, label_type: String, label_name: String) -> (label: AddressLabel)
        ensures
            label@ == (AddressLabelView {
                address: address@,
                label_type: label_type@,
                label_name: label_name@,
            }),
    {
        AddressLabel { address, label_type, label_name }
    }

    /// The address, with `0` for every backslash.
    pub fn address(&self) -> (address: String)
        ensures
            address@ == self@.stored_address(),
    {
        substitute(self.address.as_str(), '\\', '0')
    }

    /// The type of the label.
    pub fn label_type(&self) -> (label_type: &str)
        ensures
            label_type@ == self@.label_type,
    {
        self.label_type.as_str()
    }

    /// The name of the label.
    pub fn label_name(&self) -> (label_name: &str)
        ensures
            label_name@ == self@.label_name,
    {
        self.label_name.as_str()
    }
}

/// The greatest of the stored addresses of a page that holds a record.
pub open spec fn greatest_stored_address(page: Seq<AddressLabelView>) -> Seq<char>
    decreases page.len(),
{
    if page.len() <= 1 {
        page[0].stored_address()
    } else {
        let before = greatest_stored_address(page.drop_last());
        let last = page.last().stored_address();
        if precedes(before, last) {
            last
        } else {
            before
        }
    }
}

/// The greatest stored address of a page is the stored address of one of its
/// records, and no record of the page has one that comes after it.
pub proof fn lemma_greatest_stored_address(page: Seq<AddressLabelView>)
    requires
        page.len() > 0,
    ensures
        exists|i: int|
            0 <= i < page.len() && (#[trigger] page[i]).stored_address() == greatest_stored_address(
                page,
            ),
        forall|i: int|
            0 <= i < page.len() ==> (#[trigger] page[i]).stored_address()
                == greatest_stored_address(page) || precedes(
                page[i].stored_address(),
                greatest_stored_address(page),
            ),
    decreases page.len(),
{
    if page.len() == 1 {
        assert(page[0].stored_address() == greatest_stored_address(page));
    } else {
        let front = page.drop_last();
        lemma_greatest_stored_address(front);
        let before = greatest_stored_address(front);
        let last = page.last().stored_address();
        if !precedes(before, last) {
            crate::text::lemma_precedes_total(before, last);
        }
        assert forall|i: int| 0 <= i < page.len() implies (#[trigger] page[i]).stored_address()
            == greatest_stored_address(page) || precedes(
            page[i].stored_address(),
            greatest_stored_address(page),
        ) by {
            if i < page.len() - 1 {
                assert(page[i] == front[i]);
                if precedes(before, last) && front[i].stored_address() != before {
                    crate::text::lemma_precedes_transitive(front[i].stored_address(), before, last);
                }
            }
        }
    }
}

/// The greatest of the stored addresses of a page; `None` for a page that
/// holds no record.
pub fn greatest_address(page: &Vec<AddressLabel>) -> (greatest: Option<String>)
    ensures
        match greatest {
            Some(address) => page.len() > 0 && address@ == greatest_stored_address(
                views_of(page@),
            ),
            None => page.len() == 0,
        },
{
    if page.len() == 0 {
        return None;
    }
    let ghost all = views_of(page@);
    let mut greatest = page[0].address();
    let mut i: usize = 1;
    while i < page.len()
        invariant
            1 <= i <= page.len(),
            all == views_of(page@),
            greatest@ == greatest_stored_address(all.take(i as int)),
        decreases page.len() - i,
    {
        let address = page[i].address();
        assert(all.take(i + 1).drop_last() =~= all.take(i as int));
        if comes_before(greatest.as_str(), address.as_str()) {
            greatest = address;
        }
        i += 1;
    }
    assert(all.take(i as int) =~= all);
    Some(greatest)
}

impl FromJson for AddressLabel {
    /// An object with the strings `address`, `label_type` and `label_name`.
    open spec fn decoded(j: JsonView) -> Option<AddressLabelView> {
        match (
            j.text_member("address"@),
            j.text_member("label_type"@),
            j.text_member("label_name"@),
        ) {
            (Some(address), Some(label_type), Some(label_name)) => Some(
                AddressLabelView { address, label_type, label_name },
            ),
            _ => None,
        }
    }

    fn from_json(j: &Json) -> (found: Option<AddressLabel>) {
        let address = match j.get_str("address") {
            Some(s) => s.to_owned(),
            None => { return None; },
        };
        let label_type = match j.get_str("label_type") {
            Some(s) => s.to_owned(),
            None => { return None; },
        };
        let label_name = match j.get_str("label_name") {
            Some(s) => s.to_owned(),
            None => { return None; },
        };
        Some(AddressLabel { address, label_type, label_name })
    }
}

} // verus!
