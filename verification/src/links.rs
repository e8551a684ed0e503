//! Following pagination links: the `rel="next"` entry of a response's `Link`
//! header names the next page, and a fetched page is handed to the cursor
//! together with it.

use vstd::prelude::*;

use crate::cursor::PageCursor;

verus! {

/// The URL named by the `rel="next"` entry of a `Link` header value, when
/// the header parses as RFC 8288 web linking and has such an entry
pub uninterp spec fn next_link_of(header: Seq<char>) -> Option<Seq<char>>;

/// Relies on `parse_link_header::parse_with_rel`: parses a `Link` header
/// value and indexes its entries by their `rel` parameter.  The result
/// depends on the header text alone.
#[verifier::external_body]
fn next_link(header: &str) -> (r: Option<String>)
    ensures
        r is Some <==> next_link_of(header@) is Some,
        r matches Some(u) ==> next_link_of(header@) == Some(u@),
{
    parse_link_header::parse_with_rel(header).ok().and_then(
        |map| map.get("next").map(|link| link.uri.to_string()),
    )
}

/// Hand a fetched page to the cursor: its decoded items refill the buffer,
/// and the next-page URL is the `rel="next"` entry of the response's `Link`
/// header, when the header was present and has one
pub fn supply_fetched_page<T>(
    cursor: &mut PageCursor<T>,
    items: Vec<T>,
    link_header: Option<&str>,
)
    ensures
        final(cursor)@.buffer == items@,
        final(cursor)@.next_url == (match link_header {
            Some(h) => next_link_of(h@),
            None => None::<Seq<char>>,
        }),
{
    let next_url: Option<String> = match link_header {
        Some(h) => next_link(h),
        None => None,
    };
    cursor.supply_page(items, next_url);
}

} // verus!
