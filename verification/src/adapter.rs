//! Decision core of the second adaptation phase: once the ICAP server
//! commits to an adapted request, stream it to the upstream origin while
//! the client body upload continues.
//!
//! The adapter is a state machine over one adaptation; the surrounding
//! application performs each action it emits (parse the adapted headers,
//! write the header upstream, run the two body transfers, read the
//! chunked trailer) and hands the outcome back to the matching method.
//! No state is re-entered.

use vstd::prelude::*;

use crate::errors::AdaptationError;
use crate::errors::BodyFault;
use crate::errors::StreamCopyError;
use crate::errors::is_idle_quit_error;
use crate::runstate::AdaptationRunState;
use crate::waiter::TickAction;
use crate::waiter::sat_add_u64;

verus! {

/// Cap on the trailer read after a length-delimited adapted body.
pub const TRAILER_MAX_SIZE: usize = 128;

/// Tunables of the upstream-side stream copier.
#[derive(Debug, Clone, Copy, PartialEq, Eq, Structural)]
pub struct StreamCopyConfig {
    /// Bytes buffered between the ICAP reader and the upstream writer.
    pub buffer_size: usize,
    /// Bytes copied before the copier yields to the scheduler.
    pub yield_size: usize,
}

/// Where one adaptation stands.
#[derive(Debug, Clone, Copy, PartialEq, Eq)]
pub enum AdapterPhase {
    /// Waiting for the adapted request headers from the ICAP reader.
    AwaitHeaders,
    /// Headers parsed with this declared content length; the final request
    /// header is on its way upstream.
    SendHeader { content_length: Option<u64> },
    /// Both body transfers are running.  `clt_done` records that the
    /// client-to-ICAP transfer already finished cleanly.
    Streaming { content_length: Option<u64>, clt_done: bool },
    /// The declared length was copied; the chunked trailer is being read.
    Trailer { expected: u64, copied: u64 },
    /// The adaptation succeeded.
    Complete,
    /// The adaptation ended in an error.
    Failed,
}

/// What the driver must do next.
#[derive(Debug, Clone, PartialEq, Eq)]
pub enum AdapterAction {
    /// Forward the final request header to the upstream origin.
    SendRequestHeader,
    /// Decode a chunked body of `expected` bytes from the ICAP reader into
    /// the upstream writer; chunk-size lines are bounded by `line_max`.
    StartLengthTransfer { expected: u64, line_max: usize },
    /// Copy the chunked body from the ICAP reader until its terminator
    /// into the upstream writer; chunk-size lines are bounded by `line_max`.
    StartEofTransfer { line_max: usize },
    /// The client transfer is done: await the upstream transfer alone.
    AwaitUpstreamTransfer,
    /// Read the chunked trailer from the ICAP reader, bounded to
    /// `max_size` bytes.
    ReadTrailer { max_size: usize },
    /// The adaptation succeeded: return the final request.
    Completed,
    /// The adaptation is over with this error.
    Fail(AdaptationError),
}

/// Blame on an idle quit while streaming.  A still-running, stalled client
/// transfer takes the blame first: an empty buffer toward ICAP means the
/// client sent nothing, a non-empty one means the ICAP server is not
/// draining.  Otherwise the upstream side is the stuck one: an empty
/// buffer toward upstream means the ICAP server sent nothing, a non-empty
/// one means the upstream is not draining.
pub open spec fn spec_streaming_blame(
    clt_stuck: bool,
    clt_no_cached: bool,
    ups_no_cached: bool,
) -> AdaptationError {
    if clt_stuck {
        if clt_no_cached {
            AdaptationError::HttpClientReadIdle
        } else {
            AdaptationError::IcapServerWriteIdle
        }
    } else {
        if ups_no_cached {
            AdaptationError::IcapServerReadIdle
        } else {
            AdaptationError::HttpUpstreamWriteIdle
        }
    }
}

/// State machine of the second phase.
pub struct BidirectionalAdapter {
    http_body_line_max_size: usize,
    http_req_add_no_via_header: bool,
    copy_config: StreamCopyConfig,
    http_header_size: usize,
    icap_read_finished: bool,
    idle_count: u64,
    phase: AdapterPhase,
}

impl BidirectionalAdapter {
    /// Where the adaptation stands.
    pub closed spec fn phase(&self) -> AdapterPhase {
        self.phase
    }

    /// Whether the ICAP reader was left at the end of the response, so the
    /// connection can be reused.
    pub closed spec fn finished(&self) -> bool {
        self.icap_read_finished
    }

    /// Ticks accumulated since a watched transfer last made progress.
    pub closed spec fn idle_ticks(&self) -> u64 {
        self.idle_count
    }

    /// Bound on one chunk-size line of the adapted body.
    pub closed spec fn line_max(&self) -> usize {
        self.http_body_line_max_size
    }

    /// Whether the adapted-request parser suppresses a synthesized `Via`
    /// header.
    pub closed spec fn no_via(&self) -> bool {
        self.http_req_add_no_via_header
    }

    /// Tunables of the upstream-side stream copier.
    pub closed spec fn copy_tunables(&self) -> StreamCopyConfig {
        self.copy_config
    }

    /// Cap on the adapted request header block.
    pub closed spec fn header_size(&self) -> usize {
        self.http_header_size
    }

    /// A declared length of zero never reaches the streaming phase, and
    /// the reuse flag stays clear until the end of the body is seen.
    pub open spec fn wf(&self) -> bool {
        &&& (self.phase() matches AdapterPhase::Streaming { content_length, .. } ==> content_length
            != Some(0u64))
        &&& (match self.phase() {
            AdapterPhase::AwaitHeaders => !self.finished(),
            AdapterPhase::SendHeader { .. } => !self.finished(),
            AdapterPhase::Streaming { .. } => !self.finished(),
            AdapterPhase::Trailer { .. } => !self.finished(),
            _ => true,
        })
    }

    pub fn new(
        http_body_line_max_size: usize,
        http_req_add_no_via_header: bool,
        copy_config: StreamCopyConfig,
        http_header_size: usize,
    ) -> (a: Self)
        ensures
            a.phase() == AdapterPhase::AwaitHeaders,
            !a.finished(),
            a.idle_ticks() == 0,
            a.line_max() == http_body_line_max_size,
            a.no_via() == http_req_add_no_via_header,
            a.copy_tunables() == copy_config,
            a.header_size() == http_header_size,
            a.wf(),
    {
        BidirectionalAdapter {
            http_body_line_max_size,
            http_req_add_no_via_header,
            copy_config,
            http_header_size,
            icap_read_finished: false,
            idle_count: 0,
            phase: AdapterPhase::AwaitHeaders,
        }
    }

    pub fn idle_count(&self) -> (r: u64)
        ensures
            r == self.idle_ticks(),
    {
        self.idle_count
    }

    pub fn icap_read_finished(&self) -> (r: bool)
        ensures
            r == self.finished(),
    {
        self.icap_read_finished
    }

    pub fn http_header_size(&self) -> (r: usize)
        ensures
            r == self.header_size(),
    {
        self.http_header_size
    }

    pub fn http_req_add_no_via_header(&self) -> (r: bool)
        ensures
            r == self.no_via(),
    {
        self.http_req_add_no_via_header
    }

    pub fn copy_config(&self) -> (r: StreamCopyConfig)
        ensures
            r == self.copy_tunables(),
    {
        self.copy_config
    }

    /// The adapted request headers were parsed, declaring this content
    /// length.  The driver must now derive the final request and forward
    /// its header upstream.
    pub fn on_adapted_headers(&mut self, content_length: Option<u64>) -> (a: AdapterAction)
        requires
            old(self).phase() == AdapterPhase::AwaitHeaders,
            old(self).wf(),
        ensures
            final(self).phase() == (AdapterPhase::SendHeader { content_length }),
            a == AdapterAction::SendRequestHeader,
            !final(self).finished(),
            final(self).wf(),
            final(self).line_max() == old(self).line_max(),
            final(self).copy_tunables() == old(self).copy_tunables(),
    {
        self.phase = AdapterPhase::SendHeader { content_length };
        AdapterAction::SendRequestHeader
    }

    /// Parsing the adapted request headers failed; the parser's own error
    /// ends the adaptation.
    pub fn on_header_parse_failed(&mut self)
        requires
            old(self).phase() == AdapterPhase::AwaitHeaders,
            old(self).wf(),
        ensures
            final(self).phase() == AdapterPhase::Failed,
            !final(self).finished(),
            final(self).wf(),
    {
        self.phase = AdapterPhase::Failed;
    }

    /// The upstream header write came back with `r`.  On success the
    /// header mark is set and the body dispatch follows the declared
    /// length: zero with a body frame present is malformed, a positive
    /// length starts a bounded decode, no length starts an EOF-framed
    /// copy.  On failure the run state is untouched.
    pub fn on_upstream_header_write(
        &mut self,
        r: Result<(), String>,
        state: &mut AdaptationRunState,
    ) -> (a: AdapterAction)
        requires
            old(self).phase() matches AdapterPhase::SendHeader { .. },
            old(self).wf(),
            old(state).wf(),
        ensures
            final(self).wf(),
            final(state).wf(),
            !final(self).finished(),
            final(self).line_max() == old(self).line_max(),
            r matches Err(e) ==> {
                &&& final(self).phase() == AdapterPhase::Failed
                &&& a == AdapterAction::Fail(AdaptationError::HttpUpstreamWriteFailed(e))
                &&& *final(state) == *old(state)
            },
            r is Ok ==> {
                &&& final(state).header_marked()
                &&& final(state).all_marked() == old(state).all_marked()
                &&& match old(self).phase() {
                    AdapterPhase::SendHeader { content_length } => {
                        if content_length == Some(0u64) {
                            &&& final(self).phase() == AdapterPhase::Failed
                            &&& a == AdapterAction::Fail(
                                AdaptationError::InvalidHttpBodyFromIcapServer(
                                    BodyFault::ZeroLengthWithBody,
                                ),
                            )
                        } else if content_length is Some {
                            &&& final(self).phase() == (AdapterPhase::Streaming {
                                content_length,
                                clt_done: false,
                            })
                            &&& a == (AdapterAction::StartLengthTransfer {
                                expected: content_length.unwrap(),
                                line_max: old(self).line_max(),
                            })
                        } else {
                            &&& final(self).phase() == (AdapterPhase::Streaming {
                                content_length: None,
                                clt_done: false,
                            })
                            &&& a == (AdapterAction::StartEofTransfer {
                                line_max: old(self).line_max(),
                            })
                        }
                    },
                    _ => false,
                }
            },
    {
        let content_length = match self.phase {
            AdapterPhase::SendHeader { content_length } => content_length,
            _ => None,
        };
        match r {
            Err(e) => {
                self.phase = AdapterPhase::Failed;
                AdapterAction::Fail(AdaptationError::HttpUpstreamWriteFailed(e))
            },
            Ok(()) => {
                state.mark_ups_send_header();
                match content_length {
                    Some(0) => {
                        self.phase = AdapterPhase::Failed;
                        AdapterAction::Fail(
                            AdaptationError::InvalidHttpBodyFromIcapServer(
                                BodyFault::ZeroLengthWithBody,
                            ),
                        )
                    },
                    Some(expected) => {
                        self.phase = AdapterPhase::Streaming {
                            content_length: Some(expected),
                            clt_done: false,
                        };
                        AdapterAction::StartLengthTransfer {
                            expected,
                            line_max: self.http_body_line_max_size,
                        }
                    },
                    None => {
                        self.phase = AdapterPhase::Streaming {
                            content_length: None,
                            clt_done: false,
                        };
                        AdapterAction::StartEofTransfer {
                            line_max: self.http_body_line_max_size,
                        }
                    },
                }
            },
        }
    }

    /// The client-to-ICAP body transfer finished with `r` while streaming.
    /// Success leaves the upstream transfer to finish alone; a read fault
    /// is the client's, a write fault the ICAP server's.
    pub fn on_client_transfer_end(&mut self, r: Result<u64, StreamCopyError>) -> (a: AdapterAction)
        requires
            old(self).phase() matches AdapterPhase::Streaming { .. },
            old(self).wf(),
        ensures
            final(self).wf(),
            final(self).finished() == old(self).finished(),
            r is Ok ==> {
                &&& final(self).phase() == (match old(self).phase() {
                    AdapterPhase::Streaming { content_length, .. } => AdapterPhase::Streaming {
                        content_length,
                        clt_done: true,
                    },
                    p => p,
                })
                &&& a == AdapterAction::AwaitUpstreamTransfer
            },
            r matches Err(StreamCopyError::ReadFailed(e)) ==> {
                &&& final(self).phase() == AdapterPhase::Failed
                &&& a == AdapterAction::Fail(AdaptationError::HttpClientReadFailed(e))
            },
            r matches Err(StreamCopyError::WriteFailed(e)) ==> {
                &&& final(self).phase() == AdapterPhase::Failed
                &&& a == AdapterAction::Fail(AdaptationError::IcapServerWriteFailed(e))
            },
    {
        match r {
            Ok(_) => {
                let content_length = match self.phase {
                    AdapterPhase::Streaming { content_length, .. } => content_length,
                    _ => None,
                };
                self.phase = AdapterPhase::Streaming { content_length, clt_done: true };
                AdapterAction::AwaitUpstreamTransfer
            },
            Err(StreamCopyError::ReadFailed(e)) => {
                self.phase = AdapterPhase::Failed;
                AdapterAction::Fail(AdaptationError::HttpClientReadFailed(e))
            },
            Err(StreamCopyError::WriteFailed(e)) => {
                self.phase = AdapterPhase::Failed;
                AdapterAction::Fail(AdaptationError::IcapServerWriteFailed(e))
            },
        }
    }

    /// The ICAP-to-upstream body transfer finished with `r`, having copied
    /// the given byte count on success; `reader_finished` reports whether
    /// an EOF-framed reader saw the chunked terminator.  On success the
    /// body mark is set; a declared length then sends the driver to the
    /// trailer, an EOF framing completes at once with the reuse flag taken
    /// from the reader.  A read fault is the ICAP server's, a write fault
    /// the upstream's; faults leave the run state untouched.
    pub fn on_upstream_transfer_end(
        &mut self,
        r: Result<u64, StreamCopyError>,
        reader_finished: bool,
        state: &mut AdaptationRunState,
    ) -> (a: AdapterAction)
        requires
            old(self).phase() matches AdapterPhase::Streaming { .. },
            old(self).wf(),
            old(state).wf(),
            old(state).header_marked(),
        ensures
            final(self).wf(),
            final(state).wf(),
            r matches Ok(copied) ==> {
                &&& final(state).all_marked()
                &&& final(state).header_marked()
                &&& match old(self).phase() {
                    AdapterPhase::Streaming { content_length: Some(expected), .. } => {
                        &&& final(self).phase() == (AdapterPhase::Trailer { expected, copied })
                        &&& a == (AdapterAction::ReadTrailer { max_size: TRAILER_MAX_SIZE })
                        &&& final(self).finished() == old(self).finished()
                    },
                    AdapterPhase::Streaming { content_length: None, .. } => {
                        &&& final(self).phase() == AdapterPhase::Complete
                        &&& a == AdapterAction::Completed
                        &&& final(self).finished() == reader_finished
                    },
                    _ => false,
                }
            },
            r matches Err(StreamCopyError::ReadFailed(e)) ==> {
                &&& final(self).phase() == AdapterPhase::Failed
                &&& a == AdapterAction::Fail(AdaptationError::IcapServerReadFailed(e))
                &&& *final(state) == *old(state)
                &&& final(self).finished() == old(self).finished()
            },
            r matches Err(StreamCopyError::WriteFailed(e)) ==> {
                &&& final(self).phase() == AdapterPhase::Failed
                &&& a == AdapterAction::Fail(AdaptationError::HttpUpstreamWriteFailed(e))
                &&& *final(state) == *old(state)
                &&& final(self).finished() == old(self).finished()
            },
    {
        match r {
            Ok(copied) => {
                state.mark_ups_send_all();
                let content_length = match self.phase {
                    AdapterPhase::Streaming { content_length, .. } => content_length,
                    _ => None,
                };
                match content_length {
                    Some(expected) => {
                        self.phase = AdapterPhase::Trailer { expected, copied };
                        AdapterAction::ReadTrailer { max_size: TRAILER_MAX_SIZE }
                    },
                    None => {
                        self.phase = AdapterPhase::Complete;
                        self.icap_read_finished = reader_finished;
                        AdapterAction::Completed
                    },
                }
            },
            Err(StreamCopyError::ReadFailed(e)) => {
                self.phase = AdapterPhase::Failed;
                AdapterAction::Fail(AdaptationError::IcapServerReadFailed(e))
            },
            Err(StreamCopyError::WriteFailed(e)) => {
                self.phase = AdapterPhase::Failed;
                AdapterAction::Fail(AdaptationError::HttpUpstreamWriteFailed(e))
            },
        }
    }

    /// The trailer read after a length-delimited body came back;
    /// `trailer_ok` means a valid trailer terminator was found within the
    /// bound, which makes the ICAP connection reusable.  The copied length
    /// is then held against the declared one: equality completes the
    /// adaptation, any mismatch is a framing error naming both numbers.
    pub fn on_trailer_result(&mut self, trailer_ok: bool) -> (a: AdapterAction)
        requires
            old(self).phase() matches AdapterPhase::Trailer { .. },
            old(self).wf(),
        ensures
            final(self).wf(),
            final(self).finished() == trailer_ok,
            match old(self).phase() {
                AdapterPhase::Trailer { expected, copied } => {
                    if copied == expected {
                        &&& final(self).phase() == AdapterPhase::Complete
                        &&& a == AdapterAction::Completed
                    } else {
                        &&& final(self).phase() == AdapterPhase::Failed
                        &&& a == AdapterAction::Fail(
                            AdaptationError::InvalidHttpBodyFromIcapServer(
                                BodyFault::LengthMismatch { expected, copied },
                            ),
                        )
                    }
                },
                _ => false,
            },
            a == AdapterAction::Completed ==> (old(self).phase() matches AdapterPhase::Trailer {
                expected,
                copied,
            } && copied == expected),
    {
        let (expected, copied) = match self.phase {
            AdapterPhase::Trailer { expected, copied } => (expected, copied),
            _ => (0, 0),
        };
        if trailer_ok {
            self.icap_read_finished = true;
        }
        if copied == expected {
            self.phase = AdapterPhase::Complete;
            AdapterAction::Completed
        } else {
            self.phase = AdapterPhase::Failed;
            AdapterAction::Fail(
                AdaptationError::InvalidHttpBodyFromIcapServer(
                    BodyFault::LengthMismatch { expected, copied },
                ),
            )
        }
    }

    /// The idle supervisor's timer fired, reporting `ticks` elapsed ticks
    /// and the idle flags of the two transfers.  Ticks accumulate only
    /// while every watched transfer is stalled — a client transfer that
    /// already finished is no longer watched; any progress starts a fresh
    /// account and reactivates both transfers.
    pub fn on_idle_tick(&mut self, ticks: u64, clt_idle: bool, ups_idle: bool) -> (a: TickAction)
        requires
            old(self).phase() matches AdapterPhase::Streaming { .. },
            old(self).wf(),
        ensures
            final(self).wf(),
            final(self).phase() == old(self).phase(),
            final(self).finished() == old(self).finished(),
            ({
                let clt_running = !(old(self).phase() matches AdapterPhase::Streaming {
                    clt_done: true,
                    ..
                });
                if (clt_idle || !clt_running) && ups_idle {
                    &&& final(self).idle_ticks() == sat_add_u64(old(self).idle_ticks(), ticks)
                    &&& a == TickAction::ConsultSupervisor(final(self).idle_ticks())
                } else {
                    &&& final(self).idle_ticks() == 0
                    &&& a == TickAction::ResetActive
                }
            }),
    {
        let clt_running = match self.phase {
            AdapterPhase::Streaming { clt_done, .. } => !clt_done,
            _ => true,
        };
        if (clt_idle || !clt_running) && ups_idle {
            if u64::MAX - self.idle_count < ticks {
                self.idle_count = u64::MAX;
            } else {
                self.idle_count = self.idle_count + ticks;
            }
            TickAction::ConsultSupervisor(self.idle_count)
        } else {
            self.idle_count = 0;
            TickAction::ResetActive
        }
    }

    /// The idle supervisor answered `quit` when consulted; the other
    /// arguments are the transfers' flags at that moment.  An error comes
    /// out exactly when the supervisor said to quit, and blame follows
    /// `spec_streaming_blame`: the client transfer takes it only while it
    /// is still running and stalled.
    pub fn on_quit_verdict(
        &mut self,
        quit: bool,
        clt_idle: bool,
        clt_no_cached: bool,
        ups_no_cached: bool,
    ) -> (e: Option<AdaptationError>)
        requires
            old(self).phase() matches AdapterPhase::Streaming { .. },
            old(self).wf(),
        ensures
            final(self).wf(),
            final(self).finished() == old(self).finished(),
            e.is_some() <==> quit,
            quit ==> {
                let clt_running = !(old(self).phase() matches AdapterPhase::Streaming {
                    clt_done: true,
                    ..
                });
                &&& e == Some(
                    spec_streaming_blame(clt_running && clt_idle, clt_no_cached, ups_no_cached),
                )
                &&& final(self).phase() == AdapterPhase::Failed
            },
            !quit ==> final(self).phase() == old(self).phase(),
            e matches Some(err) ==> is_idle_quit_error(err),
    {
        if quit {
            let clt_running = match self.phase {
                AdapterPhase::Streaming { clt_done, .. } => !clt_done,
                _ => true,
            };
            self.phase = AdapterPhase::Failed;
            if clt_running && clt_idle {
                if clt_no_cached {
                    Some(AdaptationError::HttpClientReadIdle)
                } else {
                    Some(AdaptationError::IcapServerWriteIdle)
                }
            } else {
                if ups_no_cached {
                    Some(AdaptationError::IcapServerReadIdle)
                } else {
                    Some(AdaptationError::HttpUpstreamWriteIdle)
                }
            }
        } else {
            None
        }
    }

    /// The idle supervisor's force-quit signal, checked on every tick.
    pub fn on_force_quit(&mut self, reason: Option<String>) -> (e: Option<AdaptationError>)
        requires
            old(self).phase() matches AdapterPhase::Streaming { .. },
            old(self).wf(),
        ensures
            final(self).wf(),
            final(self).finished() == old(self).finished(),
            reason matches Some(r) ==> {
                &&& e == Some(AdaptationError::IdleForceQuit(r))
                &&& final(self).phase() == AdapterPhase::Failed
            },
            reason is None ==> {
                &&& e is None
                &&& final(self).phase() == old(self).phase()
            },
    {
        match reason {
            Some(r) => {
                self.phase = AdapterPhase::Failed;
                Some(AdaptationError::IdleForceQuit(r))
            },
            None => None,
        }
    }
}

} // verus!
