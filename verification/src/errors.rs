//! Error taxonomy of one adaptation attempt.
//!
//! Every error names the peer that caused it and whether the fault was a
//! read, a write, an idle timeout or malformed framing.  Readers own read
//! errors and writers own write errors; the two are never merged.

use vstd::prelude::*;
use vstd::string::StringExecFns;

use crate::decimal::spec_decimal;
use crate::decimal::u64_to_decimal;

verus! {

/// Outcome of a failed stream copy, as the driver observed it: either the
/// source could not be read or the sink could not be written.  The payload
/// carries the underlying I/O error rendered as text.
#[derive(Debug, Clone, PartialEq, Eq)]
pub enum StreamCopyError {
    ReadFailed(String),
    WriteFailed(String),
}

/// Structured detail of a framing violation by the ICAP server.
#[derive(Debug, Clone, PartialEq, Eq)]
pub enum BodyFault {
    /// The adapted headers declared `Content-Length: 0` yet a body frame
    /// followed.
    ZeroLengthWithBody,
    /// The adapted headers declared `expected` body bytes but the chunked
    /// stream decoded to `copied` bytes.
    LengthMismatch { expected: u64, copied: u64 },
}

/// Terminal error of one adaptation.
#[derive(Debug, Clone, PartialEq, Eq)]
pub enum AdaptationError {
    /// Read from the client body stream failed.
    HttpClientReadFailed(String),
    /// Idle quit while waiting for client bytes with an empty outbound buffer.
    HttpClientReadIdle,
    /// Write to the ICAP server failed.
    IcapServerWriteFailed(String),
    /// Idle quit while the outbound buffer toward ICAP held data.
    IcapServerWriteIdle,
    /// Read from the ICAP server failed.
    IcapServerReadFailed(String),
    /// Idle quit while awaiting ICAP body bytes with an empty outbound buffer.
    IcapServerReadIdle,
    /// The ICAP reader reported clean EOF before a response.
    IcapServerConnectionClosed,
    /// Write to the upstream origin (header or body) failed.
    HttpUpstreamWriteFailed(String),
    /// Idle quit while the outbound buffer toward upstream held data.
    HttpUpstreamWriteIdle,
    /// The ICAP body violated its declared framing.
    InvalidHttpBodyFromIcapServer(BodyFault),
    /// The idle supervisor signalled an external force-quit.
    IdleForceQuit(String),
}

/// True of the four errors that an idle quit can produce.
pub open spec fn is_idle_quit_error(e: AdaptationError) -> bool {
    ||| e == AdaptationError::HttpClientReadIdle
    ||| e == AdaptationError::IcapServerWriteIdle
    ||| e == AdaptationError::IcapServerReadIdle
    ||| e == AdaptationError::HttpUpstreamWriteIdle
}

/// Message text for a zero-length declaration contradicted by a body frame.
pub open spec fn spec_zero_length_body_msg() -> Seq<char> {
    "Content-Length is 0 but the ICAP server response contains http-body"@
}

/// Message text for a declared length contradicted by the decoded length.
pub open spec fn spec_length_mismatch_msg(expected: nat, copied: nat) -> Seq<char> {
    "Content-Length is "@ + spec_decimal(expected) + " but decoded length is "@ + spec_decimal(
        copied,
    )
}

impl BodyFault {
    /// The message the fault renders to.
    pub open spec fn spec_message(&self) -> Seq<char> {
        match *self {
            BodyFault::ZeroLengthWithBody => spec_zero_length_body_msg(),
            BodyFault::LengthMismatch { expected, copied } => spec_length_mismatch_msg(
                expected as nat,
                copied as nat,
            ),
        }
    }

    /// Renders the fault as the diagnostic the caller logs.
    pub fn message(&self) -> (r: String)
        ensures
            r@ == self.spec_message(),
    {
        match *self {
            BodyFault::ZeroLengthWithBody => String::from_str(
                "Content-Length is 0 but the ICAP server response contains http-body",
            ),
            BodyFault::LengthMismatch { expected, copied } => {
                let mut s = String::from_str("Content-Length is ");
                s.append(u64_to_decimal(expected).as_str());
                s.append(" but decoded length is ");
                s.append(u64_to_decimal(copied).as_str());
                s
            },
        }
    }
}

} // verus!
