//! Sources and how a client may fetch their bytes: delivery descriptors, and
//! the cache that keeps them for a time.

use crate::text::{decimal, push_decimal, push_signed_decimal, signed_decimal};
use std::collections::HashMap;
use vstd::prelude::*;

verus! {

/// One blob of bytes in a storage backend.
#[derive(Debug, Clone, PartialEq, Eq)]
pub struct Source {
    pub id: i64,
    /// Where the blob lies in its backend.
    pub path: String,
    pub mime_type: String,
    /// Name of the backend that holds the blob.
    pub storage_backend_name: String,
}

/// The mathematical value of a [`Source`].
pub struct SourceView {
    pub id: i64,
    pub path: Seq<char>,
    pub mime_type: Seq<char>,
    pub storage_backend_name: Seq<char>,
}

impl View for Source {
    type V = SourceView;

    open spec fn view(&self) -> SourceView {
        SourceView {
            id: self.id,
            path: self.path@,
            mime_type: self.mime_type@,
            storage_backend_name: self.storage_backend_name@,
        }
    }
}

/// A delivery descriptor: the request with which a client fetches the bytes
/// of a source, from the backend itself or from this server.
#[derive(Debug, Clone, PartialEq, Eq)]
pub struct GetSourceRequest {
    pub method: String,
    pub uri: String,
    /// Header names and values, in order.
    pub headers: Vec<(String, String)>,
}

/// The mathematical value of a [`GetSourceRequest`].
pub struct GetSourceRequestView {
    pub method: Seq<char>,
    pub uri: Seq<char>,
    pub headers: Seq<(Seq<char>, Seq<char>)>,
}

impl View for GetSourceRequest {
    type V = GetSourceRequestView;

    open spec fn view(&self) -> GetSourceRequestView {
        GetSourceRequestView {
            method: self.method@,
            uri: self.uri@,
            headers: self.headers.deep_view(),
        }
    }
}

impl DeepView for GetSourceRequest {
    type V = GetSourceRequestView;

    open spec fn deep_view(&self) -> GetSourceRequestView {
        self@
    }
}

/// Seconds for which a descriptor is served from the cache: three days.
pub const REQ_VALID_FOR_SECS: u64 = 3 * 24 * 60 * 60;

/// Seconds by which a pre-signed descriptor outlives its stay in the cache:
/// one hour.
pub const SAFETY_MARGIN_SECS: u64 = 60 * 60;

/// Seconds for which a pre-signed descriptor is asked to be valid.
pub const PRESIGN_VALID_FOR_SECS: u64 = REQ_VALID_FOR_SECS + SAFETY_MARGIN_SECS;

/// Nanoseconds in a second.
pub const NANOS_PER_SEC: u64 = 1_000_000_000;

/// Nanoseconds for which a descriptor is served from the cache.
pub const REQ_VALID_FOR_NANOS: u64 = REQ_VALID_FOR_SECS * NANOS_PER_SEC;

/// Whether a descriptor that entered the cache at `inserted_at` is still
/// served at `now`. Both are nanoseconds of one clock that never runs
/// backwards; a `now` before `inserted_at` counts as no time gone by.
pub open spec fn fresh(inserted_at: u64, now: u64) -> bool {
    now - inserted_at <= REQ_VALID_FOR_NANOS
}

/// The cache policy that a pre-signed descriptor makes the backend
/// advertise: `private, max-age={secs}, immutable`.
pub open spec fn presign_cache_control_text(secs: nat) -> Seq<char> {
    "private, max-age="@ + decimal(secs) + ", immutable"@
}

/// The descriptor that fetches a source from this server:
/// `GET /sources/{id}/data`, with no headers.
pub open spec fn fallback_descriptor(source_id: i64) -> GetSourceRequestView {
    GetSourceRequestView {
        method: "GET"@,
        uri: "/sources/"@ + signed_decimal(source_id as int) + "/data"@,
        headers: Seq::empty(),
    }
}

/// What the backend is asked when a descriptor is pre-signed.
#[derive(Debug, Clone, PartialEq, Eq)]
pub struct PresignParameters {
    /// Path of the blob in the backend.
    pub path: String,
    /// Seconds for which the descriptor is to be valid.
    pub expires_in_secs: u64,
    /// The content type that the backend is to advertise.
    pub content_type: String,
    /// The cache policy that the backend is to advertise.
    pub cache_control: String,
}

/// The mathematical value of a [`PresignParameters`].
pub struct PresignParametersView {
    pub path: Seq<char>,
    pub expires_in_secs: u64,
    pub content_type: Seq<char>,
    pub cache_control: Seq<char>,
}

impl View for PresignParameters {
    type V = PresignParametersView;

    open spec fn view(&self) -> PresignParametersView {
        PresignParametersView {
            path: self.path@,
            expires_in_secs: self.expires_in_secs,
            content_type: self.content_type@,
            cache_control: self.cache_control@,
        }
    }
}

/// What the backend is asked for `source`: a descriptor that outlives the
/// cache by the safety margin, and that advertises the source's mime type
/// and a private, immutable policy for as long as the cache serves it.
pub open spec fn presign_parameters_of(source: SourceView) -> PresignParametersView {
    PresignParametersView {
        path: source.path,
        expires_in_secs: PRESIGN_VALID_FOR_SECS,
        content_type: source.mime_type,
        cache_control: presign_cache_control_text(REQ_VALID_FOR_SECS as nat),
    }
}

/// What came of asking the backend for a pre-signed descriptor.
#[derive(Debug, Clone, PartialEq, Eq)]
pub enum PresignOutcome {
    /// The backend cannot pre-sign reads.
    Unsupported,
    /// The backend can, and failed to.
    Failed,
    /// The backend issued this descriptor.
    Presigned(GetSourceRequest),
}

/// The mathematical value of a [`PresignOutcome`].
pub enum PresignOutcomeView {
    Unsupported,
    Failed,
    Presigned(GetSourceRequestView),
}

impl View for PresignOutcome {
    type V = PresignOutcomeView;

    open spec fn view(&self) -> PresignOutcomeView {
        match self {
            PresignOutcome::Unsupported => PresignOutcomeView::Unsupported,
            PresignOutcome::Failed => PresignOutcomeView::Failed,
            PresignOutcome::Presigned(request) => PresignOutcomeView::Presigned(request@),
        }
    }
}

/// The descriptor that delivers the source `source_id` after the backend
/// answered with `outcome`: the pre-signed one where there is one, and else
/// the one that leads to this server.
pub open spec fn descriptor_after(
    source_id: i64,
    outcome: PresignOutcomeView,
) -> GetSourceRequestView {
    match outcome {
        PresignOutcomeView::Presigned(request) => request,
        _ => fallback_descriptor(source_id),
    }
}

/// A descriptor in the cache, with the time at which it entered.
#[derive(Debug, Clone, PartialEq, Eq)]
pub struct CachedRequest {
    pub inserted_at: u64,
    pub request: GetSourceRequest,
}

/// The mathematical value of a [`CachedRequest`].
pub struct CachedRequestView {
    pub inserted_at: u64,
    pub request: GetSourceRequestView,
}

impl View for CachedRequest {
    type V = CachedRequestView;

    open spec fn view(&self) -> CachedRequestView {
        CachedRequestView { inserted_at: self.inserted_at, request: self.request@ }
    }
}

/// The contents of a descriptor cache: for each source id at most one
/// descriptor, with the time at which it entered.
pub type CacheContents = Map<i64, CachedRequestView>;

/// The descriptor that the cache serves for `source_id` at `now`: the one it
/// holds, if it holds one that is still fresh.
pub open spec fn served(cache: CacheContents, source_id: i64, now: u64) -> Option<
    GetSourceRequestView,
> {
    if cache.contains_key(source_id) && fresh(cache[source_id].inserted_at, now) {
        Some(cache[source_id].request)
    } else {
        None
    }
}

/// The cache after the descriptor for `source_id` was resolved at `now`
/// with the backend's answer `outcome`: the new descriptor takes the place
/// of whatever the cache held for the source.
pub open spec fn resolved(
    cache: CacheContents,
    source_id: i64,
    now: u64,
    outcome: PresignOutcomeView,
) -> CacheContents {
    cache.insert(
        source_id,
        CachedRequestView { inserted_at: now, request: descriptor_after(source_id, outcome) },
    )
}

/// Whether the backend has to be asked before a descriptor for `source_id`
/// can be handed out at `now`.
pub open spec fn needs_backend(cache: CacheContents, source_id: i64, now: u64) -> bool {
    served(cache, source_id, now) is None
}

/// A descriptor that was resolved is served from the cache for as long as it
/// is fresh: asked for again within that time, the very same descriptor
/// comes back, and the backend is not asked.
pub proof fn descriptor_is_served_while_fresh(
    cache: CacheContents,
    source_id: i64,
    resolved_at: u64,
    outcome: PresignOutcomeView,
    now: u64,
)
    requires
        now - resolved_at <= REQ_VALID_FOR_NANOS,
    ensures
        served(resolved(cache, source_id, resolved_at, outcome), source_id, now) == Some(
            descriptor_after(source_id, outcome),
        ),
        !needs_backend(resolved(cache, source_id, resolved_at, outcome), source_id, now),
{
}

/// A descriptor is not served past its time in the cache: asked for after
/// that, the backend is asked afresh, once, and what it answers is served
/// from then on.
pub proof fn descriptor_is_resolved_afresh_after_expiry(
    cache: CacheContents,
    source_id: i64,
    resolved_at: u64,
    outcome: PresignOutcomeView,
    now: u64,
    fresh_outcome: PresignOutcomeView,
    later: u64,
)
    requires
        now - resolved_at > REQ_VALID_FOR_NANOS,
        later - now <= REQ_VALID_FOR_NANOS,
    ensures
        ({
            let stale = resolved(cache, source_id, resolved_at, outcome);
            let renewed = resolved(stale, source_id, now, fresh_outcome);
            &&& needs_backend(stale, source_id, now)
            &&& !needs_backend(renewed, source_id, later)
            &&& served(renewed, source_id, later) == Some(
                descriptor_after(source_id, fresh_outcome),
            )
        }),
{
}

/// Resolving the descriptor of one source leaves what the cache serves for
/// every other source as it was.
pub proof fn resolving_leaves_other_sources(
    cache: CacheContents,
    source_id: i64,
    resolved_at: u64,
    outcome: PresignOutcomeView,
    other: i64,
    now: u64,
)
    requires
        other != source_id,
    ensures
        served(resolved(cache, source_id, resolved_at, outcome), other, now) == served(
            cache,
            other,
            now,
        ),
{
}

/// A pre-signed descriptor that the cache still serves has at least the
/// safety margin of its own validity left.
pub proof fn served_descriptor_outlives_cache(inserted_at: u64, now: u64)
    requires
        fresh(inserted_at, now),
    ensures
        now + SAFETY_MARGIN_SECS * NANOS_PER_SEC <= inserted_at + PRESIGN_VALID_FOR_SECS
            * NANOS_PER_SEC,
        PRESIGN_VALID_FOR_SECS > REQ_VALID_FOR_SECS,
{
}

/// `rustc_hash::FxBuildHasher`, the hasher of the cache's map.
#[verifier::external_type_specification]
#[verifier::external_body]
pub struct ExFxBuildHasher(rustc_hash::FxBuildHasher);

/// The map of the cache: a hash map of std that hashes with `FxBuildHasher`.
type DescriptorMap = HashMap<i64, CachedRequest, rustc_hash::FxBuildHasher>;

/// `HashMap::get` on a map that hashes with `FxBuildHasher`: the value under
/// the key, if the map holds the key.
#[verifier::external_body]
fn fx_get<'a>(map: &'a DescriptorMap, key: i64) -> (value: Option<
    &'a CachedRequest,
>)
    ensures
        value == (if map@.contains_key(key) {
            Some(&map@[key])
        } else {
            None
        }),
{
    map.get(&key)
}

/// `HashMap::insert` on a map that hashes with `FxBuildHasher`: afterwards
/// the map holds the value under the key, and everything else as before.
#[verifier::external_body]
fn fx_insert(map: &mut DescriptorMap, key: i64, value: CachedRequest)
    ensures
        final(map)@ == old(map)@.insert(key, value),
{
    map.insert(key, value);
}

/// The cache of delivery descriptors, by source id.
pub struct DescriptorCache {
    entries: DescriptorMap,
}

impl View for DescriptorCache {
    type V = CacheContents;

    closed spec fn view(&self) -> CacheContents {
        self.entries@.map_values(|entry: CachedRequest| entry@)
    }
}

/// What the backend is asked when a descriptor for `source` is pre-signed.
pub fn presign_parameters(source: &Source) -> (parameters: PresignParameters)
    ensures
        parameters@ == presign_parameters_of(source@),
{
    let mut cache_control = String::from_str("private, max-age=");
    push_decimal(&mut cache_control, REQ_VALID_FOR_SECS);
    cache_control.append(", immutable");
    PresignParameters {
        path: source.path.clone(),
        expires_in_secs: PRESIGN_VALID_FOR_SECS,
        content_type: source.mime_type.clone(),
        cache_control,
    }
}

/// The descriptor that fetches the source `source_id` from this server.
pub fn fallback_request(source_id: i64) -> (request: GetSourceRequest)
    ensures
        request@ == fallback_descriptor(source_id),
{
    let mut uri = String::from_str("/sources/");
    push_signed_decimal(&mut uri, source_id);
    uri.append("/data");
    let request = GetSourceRequest { method: String::from_str("GET"), uri, headers: Vec::new() };
    assert(request.headers.deep_view() =~= Seq::empty());
    request
}

impl DescriptorCache {
    /// An empty cache.
    pub fn new() -> (cache: DescriptorCache)
        ensures
            cache@ == Map::<i64, CachedRequestView>::empty(),
    {
        let cache = DescriptorCache { entries: HashMap::default() };
        assert(cache@ =~= Map::<i64, CachedRequestView>::empty());
        cache
    }

    /// The descriptor that the cache serves for `source_id` at `now`. Where
    /// there is one, the backend need not be asked.
    pub fn lookup(&self, source_id: i64, now: u64) -> (request: Option<&GetSourceRequest>)
        ensures
            request.deep_view() == served(self@, source_id, now),
    {
        match fx_get(&self.entries, source_id) {
            Some(entry) => {
                if now <= entry.inserted_at || now - entry.inserted_at <= REQ_VALID_FOR_NANOS {
                    Some(&entry.request)
                } else {
                    None
                }
            },
            None => None,
        }
    }

    /// Takes in the backend's answer for `source_id`, at `now`: the
    /// descriptor that follows from it enters the cache, in place of what the
    /// cache held for the source, and is returned.
    pub fn resolve(&mut self, source_id: i64, now: u64, outcome: PresignOutcome) -> (request:
        &GetSourceRequest)
        ensures
            final(self)@ == resolved(old(self)@, source_id, now, outcome@),
            request@ == descriptor_after(source_id, outcome@),
    {
        let descriptor = match outcome {
            PresignOutcome::Presigned(request) => request,
            _ => fallback_request(source_id),
        };
        let ghost before = self.entries@;
        let entry = CachedRequest { inserted_at: now, request: descriptor };
        fx_insert(&mut self.entries, source_id, entry);
        assert(self@ =~= resolved(
            before.map_values(|entry: CachedRequest| entry@),
            source_id,
            now,
            outcome@,
        ));
        match fx_get(&self.entries, source_id) {
            Some(entry) => &entry.request,
            None => vstd::pervasive::unreached(),
        }
    }
}

} // verus!
