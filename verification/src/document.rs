//! A plain model of a JSON document.

use vstd::prelude::*;
use crate::named::{find, keys, lookup, names};

verus! {

/// A JSON value.
///
/// A number is held as its value where it is a non-negative integer below
/// 2^64 and as `None` otherwise: nothing in this crate reads any other number.
/// An object keeps its members in the order in which they were given; where a
/// name occurs twice, the first occurrence is the member of that name.
#[derive(Debug)]
pub enum Document {
    Null,
    Bool(bool),
    Number(Option<u64>),
    String(String),
    Array(Vec<Document>),
    Object(Vec<(String, Document)>),
}

/// What a [`Document`] holds.
pub ghost enum DocumentView {
    Null,
    Bool(bool),
    Number(Option<u64>),
    String(Seq<char>),
    Array(Seq<DocumentView>),
    Object(Seq<(Seq<char>, DocumentView)>),
}

/// What a sequence of documents holds, item by item.
pub open spec fn items_view(items: Seq<Document>) -> Seq<DocumentView>
    decreases items, 0int,
{
    Seq::new(items.len(), |i: int| if 0 <= i < items.len() { document_view(items[i]) } else { DocumentView::Null })
}

/// What the members of an object hold, in their order.
pub open spec fn members_view(members: Seq<(String, Document)>) -> Seq<(Seq<char>, DocumentView)>
    decreases members, 0int,
{
    Seq::new(
        members.len(),
        |i: int|
            if 0 <= i < members.len() {
                (members[i].0@, document_view(members[i].1))
            } else {
                (Seq::empty(), DocumentView::Null)
            },
    )
}

/// What a document holds.
pub open spec fn document_view(doc: Document) -> DocumentView
    decreases doc, 1int,
{
    match doc {
        Document::Null => DocumentView::Null,
        Document::Bool(flag) => DocumentView::Bool(flag),
        Document::Number(number) => DocumentView::Number(number),
        Document::String(text) => DocumentView::String(text@),
        Document::Array(items) => DocumentView::Array(items_view(items@)),
        Document::Object(members) => DocumentView::Object(members_view(members@)),
    }
}

impl View for Document {
    type V = DocumentView;

    open spec fn view(&self) -> DocumentView {
        document_view(*self)
    }
}

impl DocumentView {
    /// The member named `key` of an object; `None` for anything but an
    /// object, and for an object without such a member.
    pub open spec fn get(self, key: Seq<char>) -> Option<DocumentView> {
        match self {
            DocumentView::Object(members) => lookup(members, key),
            _ => None,
        }
    }
}

/// What a document that may be absent holds.
pub open spec fn optional_view(doc: Option<&Document>) -> Option<DocumentView> {
    match doc {
        Some(doc) => Some(doc@),
        None => None,
    }
}

impl Document {
    /// Looks up a member of an object by its name.
    pub fn get(&self, key: &str) -> (found: Option<&Document>)
        ensures
            self@.get(key@) == optional_view(found),
    {
        match self {
            Document::Object(members) => {
                assert(keys(members@) =~= names(members_view(members@)));
                match find(members, key) {
                    Some(i) => Some(&members[i].1),
                    None => None,
                }
            },
            _ => None,
        }
    }
}

} // verus!
