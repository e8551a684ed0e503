//! The page decoder: one decoded JSON page document — a bare array, or an
//! object wrapping the item list beside counters — is normalized into a
//! uniform `Page`.

use vstd::prelude::*;

use crate::text::str_eq;

verus! {

/// One decoded page of results: an ordered item list and the optional
/// counters that an object-shaped page may carry
#[derive(Clone, Debug, PartialEq, Eq)]
pub struct Page<T> {
    pub items: Vec<T>,
    pub total_count: Option<u64>,
    pub incomplete_results: Option<bool>,
}

/// A top-level field value of an object-shaped page document, reduced to
/// what decoding reads
#[derive(Clone, Debug, PartialEq, Eq)]
pub enum PageValue<T> {
    /// A non-negative integer
    Count(u64),
    /// A boolean
    Flag(bool),
    /// An array whose elements all decoded as items
    List(Vec<T>),
    /// A value of any other shape
    Other,
}

/// A decoded JSON page document: either a bare array of items, or an object
/// whose top-level fields stand in their original order
#[derive(Clone, Debug, PartialEq, Eq)]
pub enum PageDocument<T> {
    Array(Vec<T>),
    Object(Vec<(String, PageValue<T>)>),
}

/// Error returned when an object-shaped page document does not hold exactly
/// one array of items; carries the number of arrays found
#[derive(Clone, Copy, Debug, PartialEq, Eq, Structural)]
pub enum ParsePageError {
    ListQty(usize),
}

/// The mathematical view of a field value
pub enum PageValueView<T> {
    Count(u64),
    Flag(bool),
    List(Seq<T>),
    Other,
}

/// The mathematical view of a page document
pub enum PageDocumentView<T> {
    Array(Seq<T>),
    Object(Seq<(Seq<char>, PageValueView<T>)>),
}

/// The mathematical view of a decoded page
pub struct PageView<T> {
    pub items: Seq<T>,
    pub total_count: Option<u64>,
    pub incomplete_results: Option<bool>,
}

impl<T> View for PageValue<T> {
    type V = PageValueView<T>;

    open spec fn view(&self) -> PageValueView<T> {
        match self {
            PageValue::Count(n) => PageValueView::Count(*n),
            PageValue::Flag(b) => PageValueView::Flag(*b),
            PageValue::List(v) => PageValueView::List(v@),
            PageValue::Other => PageValueView::Other,
        }
    }
}

impl<T> View for PageDocument<T> {
    type V = PageDocumentView<T>;

    open spec fn view(&self) -> PageDocumentView<T> {
        match self {
            PageDocument::Array(items) => PageDocumentView::Array(items@),
            PageDocument::Object(fields) => PageDocumentView::Object(
                fields@.map_values(|p: (String, PageValue<T>)| (p.0@, p.1@)),
            ),
        }
    }
}

impl<T> View for Page<T> {
    type V = PageView<T>;

    open spec fn view(&self) -> PageView<T> {
        PageView {
            items: self.items@,
            total_count: self.total_count,
            incomplete_results: self.incomplete_results,
        }
    }
}

impl<T> PageValue<T> {
    /// The count this value holds, if it is one
    pub fn as_u64(&self) -> (r: Option<u64>)
        ensures
            r == (match self@ {
                PageValueView::Count(n) => Some(n),
                _ => None::<u64>,
            }),
    {
        if let PageValue::Count(value) = self {
            Some(*value)
        } else {
            None
        }
    }

    /// The boolean this value holds, if it is one
    pub fn as_bool(&self) -> (r: Option<bool>)
        ensures
            r == (match self@ {
                PageValueView::Flag(b) => Some(b),
                _ => None::<bool>,
            }),
    {
        if let PageValue::Flag(value) = self {
            Some(*value)
        } else {
            None
        }
    }

    /// The item list this value holds, if it is one
    pub fn into_list(self) -> (r: Option<Vec<T>>)
        ensures
            match self@ {
                PageValueView::List(v) => r matches Some(l) && l@ == v,
                _ => r is None,
            },
    {
        if let PageValue::List(lst) = self {
            Some(lst)
        } else {
            None
        }
    }
}

/// The value of the first field named `name`, if any
pub open spec fn field_lookup<T>(
    fields: Seq<(Seq<char>, PageValueView<T>)>,
    name: Seq<char>,
) -> Option<PageValueView<T>>
    decreases fields.len(),
{
    if fields.len() == 0 {
        None
    } else {
        let earlier = field_lookup(fields.drop_last(), name);
        if earlier is Some {
            earlier
        } else if fields.last().0 == name {
            Some(fields.last().1)
        } else {
            None
        }
    }
}

/// The count supplied by a field named `total_count`, when that field holds
/// a number
pub open spec fn spec_total_count<T>(fields: Seq<(Seq<char>, PageValueView<T>)>) -> Option<u64> {
    match field_lookup(fields, "total_count"@) {
        Some(PageValueView::Count(n)) => Some(n),
        _ => None,
    }
}

/// The flag supplied by a field named `incomplete_results`, when that field
/// holds a boolean
pub open spec fn spec_incomplete_results<T>(fields: Seq<(Seq<char>, PageValueView<T>)>) -> Option<
    bool,
> {
    match field_lookup(fields, "incomplete_results"@) {
        Some(PageValueView::Flag(b)) => Some(b),
        _ => None,
    }
}

/// The array-valued fields of an object, in field order
pub open spec fn list_fields<T>(fields: Seq<(Seq<char>, PageValueView<T>)>) -> Seq<Seq<T>>
    decreases fields.len(),
{
    if fields.len() == 0 {
        Seq::empty()
    } else {
        let rest = list_fields(fields.drop_last());
        match fields.last().1 {
            PageValueView::List(v) => rest.push(v),
            _ => rest,
        }
    }
}

/// Decoding one JSON page document.  A bare array is the item list itself,
/// with no counters.  An object must hold exactly one array-valued field,
/// which becomes the item list; a field named `total_count` holding a number
/// supplies `total_count`, a field named `incomplete_results` holding a
/// boolean supplies `incomplete_results`, and every other field is ignored.
/// An object with zero or several array-valued fields fails, naming the
/// count found.
pub open spec fn spec_decode_page<T>(doc: PageDocumentView<T>) -> Result<
    PageView<T>,
    ParsePageError,
> {
    match doc {
        PageDocumentView::Array(items) => Ok(
            PageView { items, total_count: None, incomplete_results: None },
        ),
        PageDocumentView::Object(fields) => {
            let lists = list_fields(fields);
            if lists.len() == 1 {
                Ok(
                    PageView {
                        items: lists[0],
                        total_count: spec_total_count(fields),
                        incomplete_results: spec_incomplete_results(fields),
                    },
                )
            } else {
                Err(ParsePageError::ListQty(lists.len() as usize))
            }
        },
    }
}

/// Decoding is a function of the document's content alone: two documents
/// with the same view decode to the same result, so decoding one page body
/// twice yields structurally equal pages.
pub proof fn lemma_decode_deterministic<T>(d1: PageDocumentView<T>, d2: PageDocumentView<T>)
    requires
        d1 == d2,
    ensures
        spec_decode_page(d1) == spec_decode_page(d2),
{
}

/// Normalize one decoded JSON page document into a `Page`
pub fn decode_page<T>(doc: PageDocument<T>) -> (r: Result<Page<T>, ParsePageError>)
    ensures
        match spec_decode_page(doc@) {
            Ok(pv) => r matches Ok(p) && p@ == pv,
            Err(e) => r == Err::<Page<T>, ParsePageError>(e),
        },
{
    match doc {
        PageDocument::Array(items) => Ok(
            Page { items, total_count: None, incomplete_results: None },
        ),
        PageDocument::Object(mut fields) => {
            let ghost all: Seq<(Seq<char>, PageValueView<T>)> = fields@.map_values(
                |p: (String, PageValue<T>)| (p.0@, p.1@),
            );
            let ghost mut done: int = 0;
            let mut total_count: Option<u64> = None;
            let mut total_seen: bool = false;
            let mut incomplete_results: Option<bool> = None;
            let mut incomplete_seen: bool = false;
            let mut lists: Vec<Vec<T>> = Vec::new();
            while fields.len() > 0
                invariant
                    0 <= done,
                    done + fields@.len() == all.len(),
                    forall|j: int|
                        0 <= j < fields@.len() ==> #[trigger] all[done + j] == (
                        fields@[j].0@,
                        fields@[j].1@,
                        ),
                    total_seen == (field_lookup(all.take(done), "total_count"@) is Some),
                    total_count == spec_total_count(all.take(done)),
                    incomplete_seen == (field_lookup(all.take(done), "incomplete_results"@)
                        is Some),
                    incomplete_results == spec_incomplete_results(all.take(done)),
                    lists@.len() == list_fields(all.take(done)).len(),
                    forall|j: int|
                        0 <= j < lists@.len() ==> #[trigger] lists@[j]@ == list_fields(
                            all.take(done),
                        )[j],
                decreases fields@.len(),
            {
                let ghost prev = fields@;
                let (name, value) = fields.remove(0);
                proof {
                    assert(all[done + 0] == (prev[0].0@, prev[0].1@));
                    assert(all[done + 0] == (name@, value@));
                    assert(all.take(done + 1).drop_last() =~= all.take(done));
                    assert(all.take(done + 1).last() == (name@, value@));
                }
                let is_total = str_eq(name.as_str(), "total_count");
                if is_total && !total_seen {
                    total_seen = true;
                    total_count =
                    match &value {
                        PageValue::Count(n) => Some(*n),
                        _ => None,
                    };
                }
                let is_incomplete = str_eq(name.as_str(), "incomplete_results");
                if is_incomplete && !incomplete_seen {
                    incomplete_seen = true;
                    incomplete_results =
                    match &value {
                        PageValue::Flag(b) => Some(*b),
                        _ => None,
                    };
                }
                match value {
                    PageValue::List(v) => lists.push(v),
                    _ => {},
                }
                proof {
                    assert forall|j: int|
                        0 <= j < fields@.len() implies #[trigger] all[(done + 1) + j] == (
                    fields@[j].0@,
                    fields@[j].1@,
                    ) by {
                        assert(all[done + (j + 1)] == (prev[j + 1].0@, prev[j + 1].1@));
                        assert(fields@[j] == prev[j + 1]);
                    }
                    done = done + 1;
                }
            }
            proof {
                assert(all.take(done) =~= all);
            }
            if lists.len() == 1 {
                let items = lists.remove(0);
                Ok(Page { items, total_count, incomplete_results })
            } else {
                Err(ParsePageError::ListQty(lists.len()))
            }
        },
    }
}

} // verus!
