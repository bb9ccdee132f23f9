//! A JSON value as this library reads and writes it.

use vstd::prelude::*;
use crate::text::same_text;
use crate::views::views_of;

verus! {

/// A JSON value. A number written with a fraction or an exponent keeps only the
/// fact that it is no integer: nothing in this library reads such a number.
/// An object keeps its entries in order; a key is looked up from the front.
#[derive(Debug, PartialEq, Eq)]
pub enum Json {
    Null,
    Bool(bool),
    Integer(i128),
    Fraction,
    String(String),
    Array(Vec<Json>),
    Object(Vec<(String, Json)>),
}

/// The mathematical value of a [`Json`].
pub ghost enum JsonView {
    Null,
    Bool(bool),
    Integer(int),
    Fraction,
    String(Seq<char>),
    Array(Seq<JsonView>),
    Object(Seq<(Seq<char>, JsonView)>),
}

impl View for Json {
    type V = JsonView;

    open spec fn view(&self) -> JsonView
        decreases self,
    {
        match self {
            Json::Null => JsonView::Null,
            Json::Bool(b) => JsonView::Bool(*b),
            Json::Integer(i) => JsonView::Integer(*i as int),
            Json::Fraction => JsonView::Fraction,
            Json::String(s) => JsonView::String(s@),
            Json::Array(items) => JsonView::Array(
                Seq::new(
                    items@.len(),
                    |i: int|
                        if 0 <= i < items@.len() {
                            items@[i]@
                        } else {
                            JsonView::Null
                        },
                ),
            ),
            Json::Object(entries) => JsonView::Object(
                Seq::new(
                    entries@.len(),
                    |i: int|
                        if 0 <= i < entries@.len() {
                            (entries@[i].0@, entries@[i].1@)
                        } else {
                            (Seq::empty(), JsonView::Null)
                        },
                ),
            ),
        }
    }
}

/// The keys and values of a sequence of object entries, one for one.
pub open spec fn entries_view(entries: Seq<(String, Json)>) -> Seq<(Seq<char>, JsonView)> {
    Seq::new(entries.len(), |i: int| (entries[i].0@, entries[i].1@))
}

/// The value of the first entry under `key`, if there is one.
pub open spec fn lookup(entries: Seq<(Seq<char>, JsonView)>, key: Seq<char>) -> Option<JsonView>
    decreases entries.len(),
{
    if entries.len() == 0 {
        None
    } else if entries[0].0 == key {
        Some(entries[0].1)
    } else {
        lookup(entries.drop_first(), key)
    }
}

impl JsonView {
    /// The member of an object under `key`; `None` for anything but an object
    /// that has the key.
    pub open spec fn member(self, key: Seq<char>) -> Option<JsonView> {
        match self {
            JsonView::Object(entries) => lookup(entries, key),
            _ => None,
        }
    }

    /// The characters of a string; `None` for anything else.
    pub open spec fn text(self) -> Option<Seq<char>> {
        match self {
            JsonView::String(s) => Some(s),
            _ => None,
        }
    }

    /// The number that an integer holds; `None` for anything else.
    pub open spec fn integer(self) -> Option<int> {
        match self {
            JsonView::Integer(i) => Some(i),
            _ => None,
        }
    }

    /// The elements of an array; `None` for anything else.
    pub open spec fn items(self) -> Option<Seq<JsonView>> {
        match self {
            JsonView::Array(items) => Some(items),
            _ => None,
        }
    }

    /// Whether the value is an object.
    pub open spec fn is_object(self) -> bool {
        self is Object
    }

    /// The characters of the string under `key`; `None` where the value is no
    /// object, has no such key, or holds something else than a string there.
    pub open spec fn text_member(self, key: Seq<char>) -> Option<Seq<char>> {
        match self.member(key) {
            Some(j) => j.text(),
            None => None,
        }
    }

    /// The number of the integer under `key`; `None` where the value is no
    /// object, has no such key, or holds something else than an integer there.
    pub open spec fn integer_member(self, key: Seq<char>) -> Option<int> {
        match self.member(key) {
            Some(j) => j.integer(),
            None => None,
        }
    }
}

/// A type that can be read from a JSON value of one fixed shape.
pub trait FromJson: Sized + View {
    /// What a JSON value decodes to; `None` where it has not the shape.
    spec fn decoded(j: JsonView) -> Option<<Self as View>::V>;

    /// Decodes a JSON value.
    fn from_json(j: &Json) -> (found: Option<Self>)
        ensures
            match found {
                Some(x) => Self::decoded(j@) == Some(x@),
                None => Self::decoded(j@) is None,
            },
    ;
}

impl FromJson for Json {
    open spec fn decoded(j: JsonView) -> Option<JsonView> {
        Some(j)
    }

    fn from_json(j: &Json) -> (found: Option<Json>) {
        Some(j.clone())
    }
}

/// The value of a JSON value that may be absent.
pub open spec fn document_view(document: Option<Json>) -> Option<JsonView> {
    match document {
        Some(j) => Some(j@),
        None => None,
    }
}

/// What a JSON value that may be absent decodes to: `None` where it is absent
/// or has not the shape of `T`.
pub open spec fn decoded_document<T: FromJson>(document: Option<JsonView>) -> Option<T::V> {
    match document {
        Some(j) => T::decoded(j),
        None => None,
    }
}

/// Decodes a JSON value that may be absent.
pub fn decode_document<T: FromJson>(document: &Option<Json>) -> (found: Option<T>)
    ensures
        match found {
            Some(x) => decoded_document::<T>(document_view(*document)) == Some(x@),
            None => decoded_document::<T>(document_view(*document)) is None,
        },
{
    match document {
        Some(j) => T::from_json(j),
        None => None,
    }
}

/// An array is viewed element by element.
pub proof fn lemma_array_view(items: Vec<Json>)
    ensures
        Json::Array(items)@ == JsonView::Array(views_of(items@)),
{
    assert(Json::Array(items)@->Array_0 =~= views_of(items@));
}

/// An object is viewed entry by entry.
pub proof fn lemma_object_view(entries: Vec<(String, Json)>)
    ensures
        Json::Object(entries)@ == JsonView::Object(entries_view(entries@)),
{
    reveal_with_fuel(<Json as View>::view, 2);
    assert(Json::Object(entries)@->Object_0 =~= entries_view(entries@));
}

/// Looking a key up skips the entries in front that have another key.
pub proof fn lemma_lookup_skip(entries: Seq<(Seq<char>, JsonView)>, key: Seq<char>, n: int)
    requires
        0 <= n <= entries.len(),
        forall|k: int| 0 <= k < n ==> entries[k].0 != key,
    ensures
        lookup(entries, key) == lookup(entries.skip(n), key),
    decreases n,
{
    if n == 0 {
        assert(entries.skip(0) =~= entries);
    } else {
        lemma_lookup_skip(entries.drop_first(), key, n - 1);
        assert(entries.drop_first().skip(n - 1) =~= entries.skip(n));
    }
}

impl Json {
    /// The member of an object under `key`.
    pub fn get(&self, key: &str) -> (found: Option<&Json>)
        ensures
            match found {
                Some(j) => self@.member(key@) == Some(j@),
                None => self@.member(key@) is None,
            },
    {
        match self {
            Json::Object(entries) => {
                proof {
                    lemma_object_view(*entries);
                }
                let ghost all = entries_view(entries@);
                let mut i: usize = 0;
                while i < entries.len()
                    invariant
                        i <= entries.len(),
                        all == entries_view(entries@),
                        self@ == JsonView::Object(all),
                        forall|k: int| 0 <= k < i ==> all[k].0 != key@,
                    decreases entries.len() - i,
                {
                    if same_text(entries[i].0.as_str(), key) {
                        proof {
                            lemma_lookup_skip(all, key@, i as int);
                        }
                        return Some(&entries[i].1);
                    }
                    i += 1;
                }
                proof {
                    lemma_lookup_skip(all, key@, i as int);
                }
                None
            },
            _ => None,
        }
    }

    /// The characters of a string.
    pub fn as_str(&self) -> (found: Option<&str>)
        ensures
            match found {
                Some(s) => self@.text() == Some(s@),
                None => self@.text() is None,
            },
    {
        match self {
            Json::String(s) => Some(s.as_str()),
            _ => None,
        }
    }

    /// The number that an integer holds.
    pub fn as_integer(&self) -> (found: Option<i128>)
        ensures
            match found {
                Some(i) => self@.integer() == Some(i as int),
                None => self@.integer() is None,
            },
    {
        match self {
            Json::Integer(i) => Some(*i),
            _ => None,
        }
    }

    /// The elements of an array.
    pub fn as_array(&self) -> (found: Option<&Vec<Json>>)
        ensures
            match found {
                Some(items) => self@.items() == Some(views_of(items@)),
                None => self@.items() is None,
            },
    {
        match self {
            Json::Array(items) => {
                proof {
                    lemma_array_view(*items);
                }
                Some(items)
            },
            _ => None,
        }
    }

    /// The characters of the string under `key`.
    pub fn get_str(&self, key: &str) -> (found: Option<&str>)
        ensures
            match found {
                Some(s) => self@.text_member(key@) == Some(s@),
                None => self@.text_member(key@) is None,
            },
    {
        match self.get(key) {
            Some(j) => j.as_str(),
            None => None,
        }
    }

    /// The number of the integer under `key`.
    pub fn get_integer(&self, key: &str) -> (found: Option<i128>)
        ensures
            match found {
                Some(i) => self@.integer_member(key@) == Some(i as int),
                None => self@.integer_member(key@) is None,
            },
    {
        match self.get(key) {
            Some(j) => j.as_integer(),
            None => None,
        }
    }

    /// Whether the value is an object.
    pub fn is_object(&self) -> (object: bool)
        ensures
            object == self@.is_object(),
    {
        match self {
            Json::Object(_) => true,
            _ => false,
        }
    }

    /// Whether the value is `null`.
    pub fn is_null(&self) -> (null: bool)
        ensures
            null == (self@ is Null),
    {
        match self {
            Json::Null => true,
            _ => false,
        }
    }

    /// A string value that holds the characters of `s`.
    pub fn string(s: &str) -> (j: Json)
        ensures
            j@ == JsonView::String(s@),
    {
        Json::String(s.to_owned())
    }

    /// An array value that holds no element.
    pub fn empty_array() -> (j: Json)
        ensures
            j@ == JsonView::Array(Seq::empty()),
    {
        let items: Vec<Json> = Vec::new();
        proof {
            lemma_array_view(items);
            assert(views_of(items@) =~= Seq::empty());
        }
        Json::Array(items)
    }

    /// An array value that holds copies of the given elements, in their order.
    pub fn array(items: &Vec<Json>) -> (j: Json)
        ensures
            j@ == JsonView::Array(views_of(items@)),
    {
        let mut copies: Vec<Json> = Vec::new();
        let mut i: usize = 0;
        while i < items.len()
            invariant
                i <= items.len(),
                copies.len() == i,
                forall|k: int| 0 <= k < i ==> copies@[k]@ == items@[k]@,
            decreases items.len() - i,
        {
            copies.push(items[i].clone());
            i += 1;
        }
        proof {
            lemma_array_view(copies);
            assert(views_of(copies@) =~= views_of(items@));
        }
        Json::Array(copies)
    }

    /// An integer value.
    pub fn integer(i: i128) -> (j: Json)
        ensures
            j@ == JsonView::Integer(i as int),
    {
        Json::Integer(i)
    }

    /// An object value that holds no entry.
    pub fn empty_object() -> (j: Json)
        ensures
            j@ == JsonView::Object(Seq::empty()),
    {
        let entries: Vec<(String, Json)> = Vec::new();
        proof {
            lemma_object_view(entries);
            assert(entries_view(entries@) =~= Seq::empty());
        }
        Json::Object(entries)
    }

    /// An object value that holds the given entries, in their order.
    pub fn object(entries: Vec<(String, Json)>) -> (j: Json)
        ensures
            j@ == JsonView::Object(entries_view(entries@)),
    {
        proof {
            lemma_object_view(entries);
        }
        Json::Object(entries)
    }
}

/// Adds an entry at the end of the entries of an object under construction.
pub fn push_entry(entries: &mut Vec<(String, Json)>, key: &str, value: Json)
    ensures
        entries_view(final(entries)@) == entries_view(old(entries)@).push((key@, value@)),
{
    entries.push((key.to_owned(), value));
}

impl Clone for Json {
    fn clone(&self) -> (copy: Json)
        ensures
            copy@ == self@,
        decreases self,
    {
        match self {
            Json::Null => Json::Null,
            Json::Bool(b) => Json::Bool(*b),
            Json::Integer(i) => Json::Integer(*i),
            Json::Fraction => Json::Fraction,
            Json::String(s) => Json::String(s.clone()),
            Json::Array(items) => {
                let mut copies: Vec<Json> = Vec::new();
                let mut i: usize = 0;
                while i < items.len()
                    invariant
                        i <= items.len(),
                        copies.len() == i,
                        self == Json::Array(*items),
                        forall|k: int| 0 <= k < i ==> copies@[k]@ == items@[k]@,
                    decreases items.len() - i,
                {
                    assert(decreases_to!(*self => self->Array_0));
                    copies.push(items[i].clone());
                    i += 1;
                }
                proof {
                    lemma_array_view(*items);
                    lemma_array_view(copies);
                    assert(views_of(copies@) =~= views_of(items@));
                }
                Json::Array(copies)
            },
            Json::Object(entries) => {
                let mut copies: Vec<(String, Json)> = Vec::new();
                let mut i: usize = 0;
                while i < entries.len()
                    invariant
                        i <= entries.len(),
                        copies.len() == i,
                        self == Json::Object(*entries),
                        forall|k: int|
                            0 <= k < i ==> copies@[k].0@ == entries@[k].0@ && copies@[k].1@
                                == entries@[k].1@,
                    decreases entries.len() - i,
                {
                    assert(decreases_to!(*self => self->Object_0));
                    copies.push((entries[i].0.clone(), entries[i].1.clone()));
                    i += 1;
                }
                proof {
                    lemma_object_view(*entries);
                    lemma_object_view(copies);
                    assert(entries_view(copies@) =~= entries_view(entries@));
                }
                Json::Object(copies)
            },
        }
    }
}

} // verus!
