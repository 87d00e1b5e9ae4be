//! Decision core of the first adaptation phase: drive the client body
//! toward the ICAP server while watching the ICAP reader for an early
//! response.
//!
//! The surrounding application multiplexes three events with biased
//! selection — body-transfer completion first, then reader readiness, then
//! the idle tick — so that a tick arriving in the same wakeup as a terminal
//! event cannot spuriously raise an idle error.  Each event is handed to
//! the matching method here, which classifies it and keeps the idle
//! account.

use vstd::prelude::*;

use crate::errors::AdaptationError;
use crate::errors::StreamCopyError;
use crate::errors::is_idle_quit_error;

verus! {

/// Terminal classification of the first phase.
#[derive(Debug, Clone, PartialEq, Eq)]
pub enum WaiterVerdict {
    /// A response is arriving: read and parse it from the ICAP reader.
    ReceiveResponse,
    /// The adaptation is over with this error.
    Fail(AdaptationError),
}

/// What the driver must do after an idle tick.
#[derive(Debug, Clone, PartialEq, Eq)]
pub enum TickAction {
    /// The watched transfers made no progress: ask the idle supervisor
    /// whether to quit, passing it this accumulated tick count.
    ConsultSupervisor(u64),
    /// Some transfer made progress: call `reset_active()` on the watched
    /// transfers and start a fresh idle account.
    ResetActive,
}

/// `a + b`, capped at the largest tick count.
pub open spec fn sat_add_u64(a: u64, b: u64) -> u64 {
    if a + b > u64::MAX {
        u64::MAX
    } else {
        (a + b) as u64
    }
}

/// How the completion of the client-to-ICAP body transfer is classified:
/// success means a response must follow; a read fault is the client's, a
/// write fault the ICAP server's.
pub open spec fn spec_transfer_end_verdict(r: Result<u64, StreamCopyError>) -> WaiterVerdict {
    match r {
        Ok(_) => WaiterVerdict::ReceiveResponse,
        Err(StreamCopyError::ReadFailed(e)) => WaiterVerdict::Fail(
            AdaptationError::HttpClientReadFailed(e),
        ),
        Err(StreamCopyError::WriteFailed(e)) => WaiterVerdict::Fail(
            AdaptationError::IcapServerWriteFailed(e),
        ),
    }
}

/// How a readiness probe on the ICAP reader is classified: buffered data
/// means a response, clean EOF means the server closed early, and an I/O
/// fault is the server's read error.
pub open spec fn spec_readable_verdict(r: Result<bool, String>) -> WaiterVerdict {
    match r {
        Ok(true) => WaiterVerdict::ReceiveResponse,
        Ok(false) => WaiterVerdict::Fail(AdaptationError::IcapServerConnectionClosed),
        Err(e) => WaiterVerdict::Fail(AdaptationError::IcapServerReadFailed(e)),
    }
}

/// Blame on an idle quit in this phase: an empty outbound buffer means the
/// client sent nothing, a non-empty one means the ICAP server is not
/// draining.
pub open spec fn spec_waiter_blame(no_cached_data: bool) -> AdaptationError {
    if no_cached_data {
        AdaptationError::HttpClientReadIdle
    } else {
        AdaptationError::IcapServerWriteIdle
    }
}

/// Decision state of the first phase: only the idle account.
pub struct BidirectionalResponseWaiter {
    idle_count: u64,
}

impl BidirectionalResponseWaiter {
    /// Ticks accumulated since the watched transfer last made progress.
    pub closed spec fn idle_ticks(&self) -> u64 {
        self.idle_count
    }

    pub fn new() -> (w: Self)
        ensures
            w.idle_ticks() == 0,
    {
        BidirectionalResponseWaiter { idle_count: 0 }
    }

    pub fn idle_count(&self) -> (r: u64)
        ensures
            r == self.idle_ticks(),
    {
        self.idle_count
    }

    /// The client-to-ICAP body transfer finished with `r`.
    pub fn on_transfer_done(&self, r: Result<u64, StreamCopyError>) -> (v: WaiterVerdict)
        ensures
            v == spec_transfer_end_verdict(r),
    {
        match r {
            Ok(_) => WaiterVerdict::ReceiveResponse,
            Err(StreamCopyError::ReadFailed(e)) => WaiterVerdict::Fail(
                AdaptationError::HttpClientReadFailed(e),
            ),
            Err(StreamCopyError::WriteFailed(e)) => WaiterVerdict::Fail(
                AdaptationError::IcapServerWriteFailed(e),
            ),
        }
    }

    /// The readiness probe on the ICAP reader returned `r`.
    pub fn on_icap_readable(&self, r: Result<bool, String>) -> (v: WaiterVerdict)
        ensures
            v == spec_readable_verdict(r),
    {
        match r {
            Ok(true) => WaiterVerdict::ReceiveResponse,
            Ok(false) => WaiterVerdict::Fail(AdaptationError::IcapServerConnectionClosed),
            Err(e) => WaiterVerdict::Fail(AdaptationError::IcapServerReadFailed(e)),
        }
    }

    /// The idle supervisor's timer fired, reporting `ticks` elapsed ticks,
    /// and the body transfer reported `transfer_is_idle`.  An idle transfer
    /// accumulates ticks and sends the driver to the supervisor; an active
    /// one starts a fresh account.
    pub fn on_idle_tick(&mut self, ticks: u64, transfer_is_idle: bool) -> (a: TickAction)
        ensures
            transfer_is_idle ==> {
                &&& final(self).idle_ticks() == sat_add_u64(old(self).idle_ticks(), ticks)
                &&& a == TickAction::ConsultSupervisor(final(self).idle_ticks())
            },
            !transfer_is_idle ==> {
                &&& final(self).idle_ticks() == 0
                &&& a == TickAction::ResetActive
            },
    {
        if transfer_is_idle {
            if u64::MAX - self.idle_count < ticks {
                self.idle_count = u64::MAX;
            } else {
                self.idle_count = self.idle_count + ticks;
            }
            TickAction::ConsultSupervisor(self.idle_count)
        } else {
            self.idle_count = 0;
            TickAction::ResetActive
        }
    }

    /// The idle supervisor answered `quit` when consulted, and the body
    /// transfer reported `no_cached_data` at that moment.  An error comes
    /// out exactly when the supervisor said to quit.
    pub fn on_quit_verdict(&self, quit: bool, no_cached_data: bool) -> (e: Option<AdaptationError>)
        ensures
            e.is_some() <==> quit,
            quit ==> e == Some(spec_waiter_blame(no_cached_data)),
            e matches Some(err) ==> is_idle_quit_error(err),
    {
        if quit {
            if no_cached_data {
                Some(AdaptationError::HttpClientReadIdle)
            } else {
                Some(AdaptationError::IcapServerWriteIdle)
            }
        } else {
            None
        }
    }

    /// The idle supervisor's force-quit signal, checked on every tick.
    pub fn on_force_quit(&self, reason: Option<String>) -> (e: Option<AdaptationError>)
        ensures
            reason matches Some(r) ==> e == Some(AdaptationError::IdleForceQuit(r)),
            reason is None ==> e is None,
    {
        match reason {
            Some(r) => Some(AdaptationError::IdleForceQuit(r)),
            None => None,
        }
    }
}

} // verus!
