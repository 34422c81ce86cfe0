//! What the stream's response headers advertise, read through `icy_metadata`.

use vstd::prelude::*;
use http::HeaderMap;
use http::HeaderValue;
use icy_metadata::IcyHeaders;
use crate::prefetch::{PlanError, StreamPlan, spec_stream_plan, stream_plan};

verus! {

/// `http::HeaderMap`, the headers of an HTTP response. Opaque here: it is only
/// handed on to the parser.
#[verifier::external_type_specification]
#[verifier::external_body]
#[verifier::reject_recursive_types(T)]
pub struct ExHeaderMap<T>(HeaderMap<T>);

/// `http::HeaderValue`, the value type of the header map. Opaque here.
#[verifier::external_type_specification]
#[verifier::external_body]
pub struct ExHeaderValue(HeaderValue);

/// `icy_metadata::IcyHeaders`, the ICY fields found in a response's headers.
/// Opaque here: it is read through the two getters below.
#[verifier::external_type_specification]
#[verifier::external_body]
pub struct ExIcyHeaders(IcyHeaders);

/// What `IcyHeaders::bitrate` returns for `headers`: the advertised bitrate in
/// kilobits per second, where the headers name one.
pub uninterp spec fn icy_bitrate(headers: IcyHeaders) -> Option<u32>;

/// What `IcyHeaders::metadata_interval` returns for `headers`, as a plain
/// number: the audio bytes between two in-band metadata blocks.
pub uninterp spec fn icy_metadata_interval(headers: IcyHeaders) -> Option<usize>;

/// Calls `IcyHeaders::parse_from_headers`, which reads the ICY fields out of a
/// response's headers. Nothing is claimed of what it finds: it walks a hash map
/// on the way, so two runs on the same headers may pick different values
/// where the audio-info header names one field under two keys.
#[verifier::external_body]
fn parse_icy_headers(headers: &HeaderMap) -> (parsed: IcyHeaders)
{
    IcyHeaders::parse_from_headers(headers)
}

/// Calls `IcyHeaders::bitrate`. Claimed: the result is `icy_bitrate` of the
/// headers, that is, it depends on the parsed headers and on nothing else.
#[verifier::external_body]
fn advertised_bitrate(headers: &IcyHeaders) -> (bitrate: Option<u32>)
    ensures
        bitrate == icy_bitrate(*headers),
{
    headers.bitrate()
}

/// Calls `IcyHeaders::metadata_interval` and takes the number out of its
/// `NonZeroUsize`. Claimed: the result is `icy_metadata_interval` of the
/// headers, and an interval that is there is not zero.
#[verifier::external_body]
fn advertised_metadata_interval(headers: &IcyHeaders) -> (interval: Option<usize>)
    ensures
        interval == icy_metadata_interval(*headers),
        interval matches Some(n) ==> n > 0,
{
    headers.metadata_interval().map(std::num::NonZeroUsize::get)
}

/// Makes the stream plan from parsed ICY headers.
pub fn plan_from_icy_headers(headers: &IcyHeaders) -> (plan: Result<StreamPlan, PlanError>)
    ensures
        plan == spec_stream_plan(icy_bitrate(*headers), icy_metadata_interval(*headers)),
        plan matches Ok(p) ==> p.wf(),
{
    let bitrate = advertised_bitrate(headers);
    let interval = advertised_metadata_interval(headers);
    stream_plan(bitrate, interval)
}

/// Parses the ICY fields of a response's headers and makes the stream plan
/// from them. The parsed headers are handed back beside the plan.
pub fn plan_from_headers(headers: &HeaderMap) -> (outcome: (IcyHeaders, Result<StreamPlan, PlanError>))
    ensures
        outcome.1 == spec_stream_plan(icy_bitrate(outcome.0), icy_metadata_interval(outcome.0)),
        outcome.1 matches Ok(p) ==> p.wf(),
{
    let parsed = parse_icy_headers(headers);
    let plan = plan_from_icy_headers(&parsed);
    (parsed, plan)
}

} // verus!
