//! Byte-range delivery: which bytes of an object answer a request, with
//! which status and which headers.

use crate::error::{STATUS_OK, STATUS_PARTIAL_CONTENT};
use crate::text::{decimal, push_decimal};
use headers::Header;
use std::ops::Bound;
use vstd::prelude::*;

verus! {

/// One end of a requested byte range.
#[derive(Debug, Clone, Copy, PartialEq, Eq)]
pub enum RangeBound {
    /// The range reaches this position and holds it.
    Included(u64),
    /// The range reaches this position and leaves it out.
    Excluded(u64),
    /// The range is open at this end.
    Unbounded,
}

/// Seconds for which a client may keep delivered bytes: seven days.
pub const DELIVERY_MAX_AGE_SECS: u64 = 7 * 24 * 60 * 60;

/// The ranges that the `headers` crate lists for the `Range` header value
/// `value` on an object of `len` bytes, in the order of the header. There are
/// none where the value is no header value or no byte-range set.
pub uninterp spec fn listed_ranges(value: Seq<u8>, len: u64) -> Seq<(RangeBound, RangeBound)>;

/// Position of the first byte that a range with this start asks for.
pub open spec fn first_position(start: RangeBound) -> int {
    match start {
        RangeBound::Included(s) => s as int,
        RangeBound::Excluded(s) => s + 1,
        RangeBound::Unbounded => 0,
    }
}

/// Position of the last byte that a range with this end asks for, in an
/// object of `total` bytes. An open end reaches the last byte of the object.
pub open spec fn last_position(end: RangeBound, total: u64) -> int {
    match end {
        RangeBound::Included(e) => e as int,
        RangeBound::Excluded(e) => e - 1,
        RangeBound::Unbounded => total - 1,
    }
}

/// Whether the object can satisfy the range: it is not empty and lies wholly
/// inside the object.
pub open spec fn satisfiable(bounds: (RangeBound, RangeBound), total: u64) -> bool {
    0 <= first_position(bounds.0) <= last_position(bounds.1, total) < total
}

/// Whether the range is the whole object.
pub open spec fn covers_whole(bounds: (RangeBound, RangeBound), total: u64) -> bool {
    first_position(bounds.0) == 0 && last_position(bounds.1, total) == total - 1
}

/// Whether position `i` holds the first of `ranges` that the object can
/// satisfy.
pub open spec fn is_first_satisfiable(
    ranges: Seq<(RangeBound, RangeBound)>,
    total: u64,
    i: int,
) -> bool {
    &&& 0 <= i < ranges.len()
    &&& satisfiable(ranges[i], total)
    &&& forall|j: int| 0 <= j < i ==> !satisfiable(#[trigger] ranges[j], total)
}

/// The first of `ranges` that the object can satisfy: the one range of a
/// request that is honoured.
pub open spec fn first_satisfiable_of(ranges: Seq<(RangeBound, RangeBound)>, total: u64) -> Option<
    (RangeBound, RangeBound),
> {
    if exists|i: int| is_first_satisfiable(ranges, total, i) {
        Some(ranges[choose|i: int| is_first_satisfiable(ranges, total, i)])
    } else {
        None
    }
}

/// Whether the answer is partial content: a satisfiable range was requested
/// and it is not the whole object.
pub open spec fn is_partial(requested: Option<(RangeBound, RangeBound)>, total: u64) -> bool {
    match requested {
        Some(bounds) => satisfiable(bounds, total) && !covers_whole(bounds, total),
        None => false,
    }
}

/// The text `bytes {first}-{last}/{total}`.
pub open spec fn content_range_text(first: nat, last: nat, total: nat) -> Seq<char> {
    "bytes "@ + decimal(first) + "-"@ + decimal(last) + "/"@ + decimal(total)
}

/// The text `private, immutable, max-age={secs}`.
pub open spec fn cache_policy_text(secs: nat) -> Seq<char> {
    "private, immutable, max-age="@ + decimal(secs)
}

/// How a source's bytes are delivered: the status, the bytes of the body and
/// the headers that describe them.
#[derive(Debug, Clone, PartialEq, Eq)]
pub struct Delivery {
    /// 206 for partial content, 200 for the whole object.
    pub status: u16,
    /// Position of the first byte of the body.
    pub first_byte: u64,
    /// Number of bytes in the body.
    pub length: u64,
    /// Value of `Content-Type`.
    pub content_type: String,
    /// Value of `Accept-Ranges`.
    pub accept_ranges: String,
    /// Value of `Content-Range`; present on partial content only.
    pub content_range: Option<String>,
    /// Value of `Cache-Control`.
    pub cache_control: String,
}

impl Delivery {
    /// What `self` must be to answer a request for `requested` on an object
    /// of `total` bytes and type `mime_type`.
    pub open spec fn answers(
        self,
        mime_type: Seq<char>,
        requested: Option<(RangeBound, RangeBound)>,
        total: u64,
    ) -> bool {
        &&& self.content_type@ == mime_type
        &&& self.accept_ranges@ == "bytes"@
        &&& self.cache_control@ == cache_policy_text(DELIVERY_MAX_AGE_SECS as nat)
        &&& if is_partial(requested, total) {
            let bounds = requested.unwrap();
            let first = first_position(bounds.0);
            let last = last_position(bounds.1, total);
            &&& self.status == STATUS_PARTIAL_CONTENT
            &&& self.first_byte == first
            &&& self.length == last - first + 1
            &&& self.content_range is Some
            &&& self.content_range->0@ == content_range_text(
                first as nat,
                last as nat,
                total as nat,
            )
        } else {
            &&& self.status == STATUS_OK
            &&& self.first_byte == 0
            &&& self.length == total
            &&& self.content_range is None
        }
    }
}

/// A request without a range is answered with the whole object: status 200,
/// no `Content-Range`, and every byte in the body.
pub proof fn no_range_delivers_whole_object(plan: Delivery, mime_type: Seq<char>, total: u64)
    requires
        plan.answers(mime_type, requested_range(None, total), total),
    ensures
        plan.status == 200,
        plan.content_range is None,
        plan.first_byte == 0,
        plan.length == total,
{
}

/// A request for the bytes from `start` to `end`, which lie inside the object
/// and are not all of it, is answered with exactly those bytes: status 206,
/// `Content-Range: bytes {start}-{end}/{total}`, and `end - start + 1` bytes
/// in the body.
pub proof fn proper_range_delivers_partial_content(
    plan: Delivery,
    mime_type: Seq<char>,
    start: u64,
    end: u64,
    total: u64,
)
    requires
        start <= end < total,
        !(start == 0 && end == total - 1),
        plan.answers(
            mime_type,
            Some((RangeBound::Included(start), RangeBound::Included(end))),
            total,
        ),
    ensures
        plan.status == 206,
        plan.content_range is Some,
        plan.content_range->0@ == content_range_text(start as nat, end as nat, total as nat),
        plan.first_byte == start,
        plan.length == end - start + 1,
{
}

/// A request for a range that is the whole object is answered as one
/// without a range: status 200 and no `Content-Range`.
pub proof fn whole_object_range_is_not_partial(
    plan: Delivery,
    mime_type: Seq<char>,
    bounds: (RangeBound, RangeBound),
    total: u64,
)
    requires
        covers_whole(bounds, total),
        plan.answers(mime_type, Some(bounds), total),
    ensures
        plan.status == 200,
        plan.content_range is None,
        plan.first_byte == 0,
        plan.length == total,
{
}

/// The answer is partial content exactly where it carries a `Content-Range`,
/// and the body never reaches beyond the object.
pub proof fn partial_content_has_content_range(
    plan: Delivery,
    mime_type: Seq<char>,
    requested: Option<(RangeBound, RangeBound)>,
    total: u64,
)
    requires
        plan.answers(mime_type, requested, total),
    ensures
        plan.status == 206 <==> plan.content_range is Some,
        plan.status == 206 || plan.status == 200,
        plan.first_byte + plan.length <= total,
{
}

/// Renders the value of a `Content-Range` header for a range that starts at
/// an included position, on an object of `size` bytes.
pub fn format_content_range_header(bounds: (RangeBound, RangeBound), size: u64) -> (text: String)
    requires
        bounds.0 is Included,
        bounds.1 matches RangeBound::Excluded(e) ==> e >= 1,
        bounds.1 is Unbounded ==> size >= 1,
    ensures
        text@ == content_range_text(
            first_position(bounds.0) as nat,
            last_position(bounds.1, size) as nat,
            size as nat,
        ),
{
    let first: u64 = match bounds.0 {
        RangeBound::Included(s) => s,
        _ => 0,
    };
    let last: u64 = match bounds.1 {
        RangeBound::Included(e) => e,
        RangeBound::Excluded(e) => e - 1,
        RangeBound::Unbounded => size - 1,
    };
    let mut text = String::from_str("bytes ");
    push_decimal(&mut text, first);
    text.append("-");
    push_decimal(&mut text, last);
    text.append("/");
    push_decimal(&mut text, size);
    text
}

/// The inclusive positions that a satisfiable range asks for.
fn resolve(bounds: (RangeBound, RangeBound), total: u64) -> (r: Option<(u64, u64)>)
    ensures
        r is Some <==> satisfiable(bounds, total),
        r matches Some((first, last)) ==> first == first_position(bounds.0) && last
            == last_position(bounds.1, total),
{
    let first: u64 = match bounds.0 {
        RangeBound::Included(s) => s,
        RangeBound::Excluded(s) => {
            if s == u64::MAX {
                return None;
            }
            s + 1
        },
        RangeBound::Unbounded => 0,
    };
    let last: u64 = match bounds.1 {
        RangeBound::Included(e) => e,
        RangeBound::Excluded(e) => {
            if e == 0 {
                return None;
            }
            e - 1
        },
        RangeBound::Unbounded => {
            if total == 0 {
                return None;
            }
            total - 1
        },
    };
    if first <= last && last < total {
        Some((first, last))
    } else {
        None
    }
}

/// `headers::CacheControl`, with `private`, `immutable` and `max-age` set and
/// then encoded as a header value. The crate writes the directives that are
/// set in a fixed order, joined by a comma and a space: the contract claims
/// that text.
#[verifier::external_body]
fn private_immutable_policy(max_age_secs: u64) -> (text: String)
    ensures
        text@ == cache_policy_text(max_age_secs as nat),
{
    let policy = headers::CacheControl::new()
        .with_immutable()
        .with_private()
        .with_max_age(std::time::Duration::from_secs(max_age_secs));
    let mut values: Vec<http::HeaderValue> = Vec::new();
    policy.encode(&mut values);
    values.iter().filter_map(|v| v.to_str().ok()).collect()
}

/// `headers::Range::satisfiable_ranges` on the `Range` header value `value`,
/// decoded by `headers::Range::decode`, for an object of `len` bytes: every
/// range that the iterator yields, in its order, and none where the value is
/// no header value or no byte-range set. The contract claims only that the
/// result is a function of `value` and `len`.
#[verifier::external_body]
fn ranges_of(value: &[u8], len: u64) -> (ranges: Vec<(RangeBound, RangeBound)>)
    ensures
        ranges@ == listed_ranges(value@, len),
{
    let Ok(value) = http::HeaderValue::from_bytes(value) else {
        return Vec::new();
    };
    let Ok(range) = headers::Range::decode(&mut std::iter::once(&value)) else {
        return Vec::new();
    };
    let own = |bound: Bound<u64>| match bound {
        Bound::Included(position) => RangeBound::Included(position),
        Bound::Excluded(position) => RangeBound::Excluded(position),
        Bound::Unbounded => RangeBound::Unbounded,
    };
    range.satisfiable_ranges(len).map(|(start, end)| (own(start), own(end))).collect()
}

/// The first of `ranges` that an object of `total` bytes can satisfy.
pub fn first_satisfiable(ranges: &Vec<(RangeBound, RangeBound)>, total: u64) -> (r: Option<
    (RangeBound, RangeBound),
>)
    ensures
        r == first_satisfiable_of(ranges@, total),
{
    let mut i: usize = 0;
    while i < ranges.len()
        invariant
            i <= ranges.len(),
            forall|j: int| 0 <= j < i ==> !satisfiable(#[trigger] ranges@[j], total),
        decreases ranges.len() - i,
    {
        if resolve(ranges[i], total).is_some() {
            assert(is_first_satisfiable(ranges@, total, i as int));
            return Some(ranges[i]);
        }
        i += 1;
    }
    None
}

/// Plans the delivery of an object of `total` bytes and type `mime_type` for
/// a request that asks for `requested`, or for no range at all.
pub fn plan_delivery(
    mime_type: &str,
    requested: Option<(RangeBound, RangeBound)>,
    total: u64,
) -> (plan: Delivery)
    ensures
        plan.answers(mime_type@, requested, total),
{
    let resolved = match requested {
        Some(bounds) => resolve(bounds, total),
        None => None,
    };
    let content_type = mime_type.to_owned();
    let accept_ranges = String::from_str("bytes");
    let cache_control = private_immutable_policy(DELIVERY_MAX_AGE_SECS);
    match resolved {
        Some((first, last)) => {
            if first == 0 && last == total - 1 {
                Delivery {
                    status: STATUS_OK,
                    first_byte: 0,
                    length: total,
                    content_type,
                    accept_ranges,
                    content_range: None,
                    cache_control,
                }
            } else {
                let content_range = format_content_range_header(
                    (RangeBound::Included(first), RangeBound::Included(last)),
                    total,
                );
                Delivery {
                    status: STATUS_PARTIAL_CONTENT,
                    first_byte: first,
                    length: last - first + 1,
                    content_type,
                    accept_ranges,
                    content_range: Some(content_range),
                    cache_control,
                }
            }
        },
        None => Delivery {
            status: STATUS_OK,
            first_byte: 0,
            length: total,
            content_type,
            accept_ranges,
            content_range: None,
            cache_control,
        },
    }
}

/// The range that a request asks for: the first range of its `Range` header
/// that the object can satisfy, and nothing where it has no such header or
/// the header lists no such range.
pub open spec fn requested_range(range_header: Option<Seq<u8>>, total: u64) -> Option<
    (RangeBound, RangeBound),
> {
    match range_header {
        Some(value) => first_satisfiable_of(listed_ranges(value, total), total),
        None => None,
    }
}

/// Of the ranges that a request lists, the first that the object can satisfy
/// is served, whatever stands before or after it: with status 206,
/// `Content-Range: bytes {first}-{last}/{total}` and exactly its bytes, unless
/// it is the whole object. The other ranges add nothing to the answer.
pub proof fn first_satisfiable_range_is_served(
    plan: Delivery,
    mime_type: Seq<char>,
    value: Seq<u8>,
    i: int,
    total: u64,
)
    requires
        is_first_satisfiable(listed_ranges(value, total), total, i),
        !covers_whole(listed_ranges(value, total)[i], total),
        plan.answers(mime_type, requested_range(Some(value), total), total),
    ensures
        ({
            let bounds = listed_ranges(value, total)[i];
            let first = first_position(bounds.0);
            let last = last_position(bounds.1, total);
            &&& plan.status == 206
            &&& plan.first_byte == first
            &&& plan.length == last - first + 1
            &&& plan.content_range is Some
            &&& plan.content_range.unwrap()@ == content_range_text(
                first as nat,
                last as nat,
                total as nat,
            )
        }),
{
    let ranges = listed_ranges(value, total);
    let chosen = choose|k: int| is_first_satisfiable(ranges, total, k);
    assert(chosen == i);
}

/// A request whose `Range` header lists no range that the object can satisfy
/// is answered as one without the header.
pub proof fn unsatisfiable_header_delivers_whole_object(
    plan: Delivery,
    mime_type: Seq<char>,
    value: Seq<u8>,
    total: u64,
)
    requires
        forall|i: int|
            0 <= i < listed_ranges(value, total).len() ==> !satisfiable(
                #[trigger] listed_ranges(value, total)[i],
                total,
            ),
        plan.answers(mime_type, requested_range(Some(value), total), total),
    ensures
        plan.status == 200,
        plan.content_range is None,
        plan.first_byte == 0,
        plan.length == total,
{
}

/// Plans the delivery of an object of `total` bytes and type `mime_type` for
/// a request with the given `Range` header value, if it has one. Of several
/// ranges in the header the first that the object can satisfy is honoured,
/// and that one alone.
pub fn deliver(mime_type: &str, range_header: Option<&[u8]>, total: u64) -> (plan: Delivery)
    ensures
        plan.answers(
            mime_type@,
            requested_range(
                match range_header {
                    Some(value) => Some(value@),
                    None => None,
                },
                total,
            ),
            total,
        ),
{
    let requested = match range_header {
        Some(value) => {
            let ranges = ranges_of(value, total);
            first_satisfiable(&ranges, total)
        },
        None => None,
    };
    plan_delivery(mime_type, requested, total)
}

} // verus!
