//! Properties of the engine's decision functions that relate several of
//! its parts, proved here once and for all inputs.
//!
//! Single-function properties live in the `ensures` of the function they
//! are about: `BidirectionalAdapter::on_trailer_result` states that a
//! length-declared adaptation completes only when the copied length equals
//! the declared one and that the reuse flag equals the trailer verdict;
//! both `on_quit_verdict` methods state that an idle error comes out
//! exactly when the supervisor said to quit.

use vstd::prelude::*;

use crate::adapter::spec_streaming_blame;
use crate::errors::AdaptationError;
use crate::errors::is_idle_quit_error;
use crate::waiter::spec_waiter_blame;

verus! {

/// An idle quit while streaming always blames a peer with one of the four
/// idle errors, and it blames the side that was stalled: the two
/// client-side errors come out exactly when the client transfer was still
/// running and idle, the two upstream-side errors exactly otherwise —
/// and the tick gate only lets a quit verdict through while every watched
/// transfer is idle.
pub proof fn lemma_streaming_blame_side(clt_stuck: bool, clt_no_cached: bool, ups_no_cached: bool)
    ensures
        is_idle_quit_error(spec_streaming_blame(clt_stuck, clt_no_cached, ups_no_cached)),
        (spec_streaming_blame(clt_stuck, clt_no_cached, ups_no_cached)
            == AdaptationError::HttpClientReadIdle || spec_streaming_blame(
            clt_stuck,
            clt_no_cached,
            ups_no_cached,
        ) == AdaptationError::IcapServerWriteIdle) <==> clt_stuck,
        (spec_streaming_blame(clt_stuck, clt_no_cached, ups_no_cached)
            == AdaptationError::IcapServerReadIdle || spec_streaming_blame(
            clt_stuck,
            clt_no_cached,
            ups_no_cached,
        ) == AdaptationError::HttpUpstreamWriteIdle) <==> !clt_stuck,
{
}

/// Blame while streaming tells "the peer sent nothing" from "the peer is
/// not draining" by whether our own outbound buffer holds data: read-idle
/// errors come with an empty buffer on the blamed side, write-idle errors
/// with a non-empty one.
pub proof fn lemma_streaming_blame_buffer(clt_stuck: bool, clt_no_cached: bool, ups_no_cached: bool)
    ensures
        spec_streaming_blame(clt_stuck, clt_no_cached, ups_no_cached)
            == AdaptationError::HttpClientReadIdle ==> clt_no_cached,
        spec_streaming_blame(clt_stuck, clt_no_cached, ups_no_cached)
            == AdaptationError::IcapServerWriteIdle ==> !clt_no_cached,
        spec_streaming_blame(clt_stuck, clt_no_cached, ups_no_cached)
            == AdaptationError::IcapServerReadIdle ==> ups_no_cached,
        spec_streaming_blame(clt_stuck, clt_no_cached, ups_no_cached)
            == AdaptationError::HttpUpstreamWriteIdle ==> !ups_no_cached,
{
}

/// While waiting for the early ICAP response only the client-to-ICAP
/// transfer is watched, so an idle quit blames that side alone, again told
/// apart by the outbound buffer.
pub proof fn lemma_waiter_blame(no_cached_data: bool)
    ensures
        is_idle_quit_error(spec_waiter_blame(no_cached_data)),
        spec_waiter_blame(no_cached_data) == AdaptationError::HttpClientReadIdle
            <==> no_cached_data,
        spec_waiter_blame(no_cached_data) == AdaptationError::IcapServerWriteIdle
            <==> !no_cached_data,
{
}

} // verus!
