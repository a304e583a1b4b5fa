//! What the library has from the `url` crate: the parsing of a URL, the
//! change of its path and of its query, and its text.
//!
//! A `Url` is opaque to the verifier. The contracts of this file give a name
//! to what each operation of the crate yields and say nothing of what the
//! names are on given values: that is the crate's business.

use vstd::prelude::*;
use vstd::utf8::encode_utf8;

verus! {

/// `url::Url`, declared so that a URL can be held and handed on. Nothing
/// inside it is seen.
#[verifier::external_type_specification]
#[verifier::external_body]
pub struct ExUrl(url::Url);

/// What `Url::parse` makes of a text: the URL that the text denotes, or
/// nothing where the crate refuses the text.
pub uninterp spec fn url_parsed(text: Seq<char>) -> Option<url::Url>;

/// The serialization of a URL, which `Url::as_str` returns.
pub uninterp spec fn url_text(u: url::Url) -> Seq<char>;

/// Whether a URL is one whose path has no segments (as `mailto:` and `data:`
/// URLs are), so that `Url::path_segments_mut` refuses it.
pub uninterp spec fn url_cannot_be_a_base(u: url::Url) -> bool;

/// The URL that `PathSegmentsMut::push` leaves when it appends a segment to
/// the path of a URL that has segments.
pub uninterp spec fn url_with_segment(u: url::Url, segment: Seq<char>) -> url::Url;

/// The URL that `Url::set_query` leaves when it is given a query to write in
/// place of the one that the URL had, if it had any.
pub uninterp spec fn url_with_query(u: url::Url, query: Seq<char>) -> url::Url;

/// How many bytes the serialization of a URL takes.
pub open spec fn url_bytes(u: url::Url) -> nat {
    encode_utf8(url_text(u)).len()
}

/// The crate keeps the places of a URL's parts as 32-bit numbers and panics
/// where a change would make the serialization longer than those can say.
/// A part that is written into a URL takes at most three bytes there for
/// each of its own, and a separator or two go with it.
pub open spec fn url_has_room(u: url::Url, part: Seq<char>) -> bool {
    url_bytes(u) + 3 * encode_utf8(part).len() + 16 <= u32::MAX
}

/// `Url::parse`. Claimed: whether the text is taken, and the URL that is
/// made of it, depend on the text alone. The crate's account of a refusal
/// is dropped.
#[verifier::external_body]
pub(crate) fn parse_url(text: &str) -> (parsed: Option<url::Url>)
    ensures
        parsed == url_parsed(text@),
{
    url::Url::parse(text).ok()
}

/// `Url::path_segments_mut` and, on what it hands out, `PathSegmentsMut::push`.
/// Claimed: a URL that cannot be a base is refused and left as it was; any
/// other becomes the URL that the crate makes of it and the segment.
#[verifier::external_body]
pub(crate) fn push_segment(u: &mut url::Url, segment: &str) -> (pushed: bool)
    requires
        url_has_room(*old(u), segment@),
    ensures
        pushed == !url_cannot_be_a_base(*old(u)),
        pushed ==> *final(u) == url_with_segment(*old(u), segment@),
        !pushed ==> *final(u) == *old(u),
{
    match u.path_segments_mut() {
        Ok(mut path) => {
            path.push(segment);
            true
        },
        Err(()) => false,
    }
}

/// `Url::set_query`, with a query to write. Claimed: the URL becomes the one
/// that the crate makes of it and the query.
#[verifier::external_body]
pub(crate) fn set_query(u: &mut url::Url, query: &str)
    requires
        url_has_room(*old(u), query@),
    ensures
        *final(u) == url_with_query(*old(u), query@),
{
    u.set_query(Some(query))
}

/// `Url::as_str`. Claimed: it returns the serialization, which the crate
/// keeps in the URL.
#[verifier::external_body]
pub(crate) fn serialization(u: &url::Url) -> (text: &str)
    ensures
        text@ == url_text(*u),
{
    u.as_str()
}

} // verus!
