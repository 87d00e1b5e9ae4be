//! Progress record of one adaptation, shared with the caller.
//!
//! The caller creates it and the adapter borrows it mutably for the
//! duration of the call.  Its two marks are monotonic: once set, a mark is
//! never cleared, and the header mark always precedes the body mark.

use vstd::prelude::*;

verus! {

/// Mutable progress record of one adaptation.
pub struct AdaptationRunState {
    ups_send_header: bool,
    ups_send_all: bool,
}

impl AdaptationRunState {
    /// Whether the adapted request header has been forwarded upstream.
    pub closed spec fn header_marked(&self) -> bool {
        self.ups_send_header
    }

    /// Whether the whole adapted body has been forwarded upstream.
    pub closed spec fn all_marked(&self) -> bool {
        self.ups_send_all
    }

    /// The body mark is only ever set after the header mark.
    pub open spec fn wf(&self) -> bool {
        self.all_marked() ==> self.header_marked()
    }

    /// A fresh record, with neither mark set.
    pub fn new() -> (r: Self)
        ensures
            !r.header_marked(),
            !r.all_marked(),
            r.wf(),
    {
        AdaptationRunState { ups_send_header: false, ups_send_all: false }
    }

    pub fn ups_send_header(&self) -> (r: bool)
        ensures
            r == self.header_marked(),
    {
        self.ups_send_header
    }

    pub fn ups_send_all(&self) -> (r: bool)
        ensures
            r == self.all_marked(),
    {
        self.ups_send_all
    }

    /// Records that the adapted request header reached upstream.
    pub fn mark_ups_send_header(&mut self)
        ensures
            final(self).header_marked(),
            final(self).all_marked() == old(self).all_marked(),
    {
        self.ups_send_header = true;
    }

    /// Records that the whole adapted body reached upstream.  The header
    /// mark must already be set: the marks are strictly ordered.
    pub fn mark_ups_send_all(&mut self)
        requires
            old(self).header_marked(),
        ensures
            final(self).all_marked(),
            final(self).header_marked() == old(self).header_marked(),
            final(self).wf(),
    {
        self.ups_send_all = true;
    }
}

/// The marks are strictly ordered: a well-formed record never carries the
/// body mark without the header mark.
pub proof fn lemma_marks_ordered(s: AdaptationRunState)
    requires
        s.wf(),
    ensures
        s.all_marked() ==> s.header_marked(),
{
}

} // verus!
