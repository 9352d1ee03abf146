//! The timeline of what an adaptation has sent to the client.

use vstd::prelude::*;

verus! {

/// When the task began to send to the client, when it had sent the header,
/// and when it had sent everything. The times are readings of one clock
/// that does not go back, in a unit of the caller's choice. Each is set
/// once, and only after the one before it.
#[derive(Clone, Copy, Debug)]
pub struct RespmodAdaptationRunState {
    clt_send_start_at: Option<u64>,
    clt_send_header_at: Option<u64>,
    clt_send_all_at: Option<u64>,
}

/// The timeline as contracts see it.
pub struct RunTimeline {
    pub start: Option<u64>,
    pub header: Option<u64>,
    pub all: Option<u64>,
}

impl RunTimeline {
    /// Whether the marks were set in order: none is set without the one
    /// before it, and none is earlier than the one before it.
    pub open spec fn in_order(self) -> bool {
        &&& self.header is Some ==> self.start is Some && self.start->Some_0
            <= self.header->Some_0
        &&& self.all is Some ==> self.header is Some && self.header->Some_0 <= self.all->Some_0
    }

    /// `now`, or `floor` if the clock reads less than that.
    pub open spec fn not_before(now: u64, floor: u64) -> u64 {
        if now < floor {
            floor
        } else {
            now
        }
    }

    /// The timeline after the start of sending was marked at `now`.
    pub open spec fn mark_start(self, now: u64) -> RunTimeline {
        if self.start is None {
            RunTimeline { start: Some(now), ..self }
        } else {
            self
        }
    }

    /// The timeline after the end of the header was marked at `now`.
    pub open spec fn mark_header(self, now: u64) -> RunTimeline {
        if self.start is Some && self.header is None {
            RunTimeline { header: Some(Self::not_before(now, self.start->Some_0)), ..self }
        } else {
            self
        }
    }

    /// The timeline after the end of the body was marked at `now`.
    pub open spec fn mark_all(self, now: u64) -> RunTimeline {
        if self.header is Some && self.all is None {
            RunTimeline { all: Some(Self::not_before(now, self.header->Some_0)), ..self }
        } else {
            self
        }
    }
}

impl View for RespmodAdaptationRunState {
    type V = RunTimeline;

    closed spec fn view(&self) -> RunTimeline {
        RunTimeline {
            start: self.clt_send_start_at,
            header: self.clt_send_header_at,
            all: self.clt_send_all_at,
        }
    }
}

impl RespmodAdaptationRunState {
    #[verifier::type_invariant]
    spec fn marks_in_order(&self) -> bool {
        self@.in_order()
    }

    /// A timeline with no mark set.
    pub fn new() -> (r: Self)
        ensures
            r@ == (RunTimeline { start: None, header: None, all: None }),
    {
        RespmodAdaptationRunState {
            clt_send_start_at: None,
            clt_send_header_at: None,
            clt_send_all_at: None,
        }
    }

    /// Marks the start of sending to the client. Returns whether the mark
    /// was set: it is not if it was set before.
    pub fn mark_clt_send_start(&mut self, now: u64) -> (set: bool)
        ensures
            final(self)@ == old(self)@.mark_start(now),
            set == (old(self)@.start is None),
            final(self)@.in_order(),
    {
        proof {
            use_type_invariant(&*self);
        }
        match self.clt_send_start_at {
            None => {
                self.clt_send_start_at = Some(now);
                true
            },
            Some(_) => false,
        }
    }

    /// Marks that the header has gone to the client. Returns whether the
    /// mark was set: it is not if it was set before, or if the start of
    /// sending has not been marked. A clock reading below the start counts
    /// as the start.
    pub fn mark_clt_send_header(&mut self, now: u64) -> (set: bool)
        ensures
            final(self)@ == old(self)@.mark_header(now),
            set == (old(self)@.start is Some && old(self)@.header is None),
            final(self)@.in_order(),
    {
        proof {
            use_type_invariant(&*self);
        }
        match (self.clt_send_start_at, self.clt_send_header_at) {
            (Some(start), None) => {
                let at: u64 = if now < start {
                    start
                } else {
                    now
                };
                self.clt_send_header_at = Some(at);
                true
            },
            _ => false,
        }
    }

    /// Marks that the whole body has gone to the client. Returns whether
    /// the mark was set: it is not if it was set before, or if the header
    /// has not been marked. A clock reading below the header's counts as
    /// the header's.
    pub fn mark_clt_send_all(&mut self, now: u64) -> (set: bool)
        ensures
            final(self)@ == old(self)@.mark_all(now),
            set == (old(self)@.header is Some && old(self)@.all is None),
            final(self)@.in_order(),
    {
        proof {
            use_type_invariant(&*self);
        }
        match (self.clt_send_header_at, self.clt_send_all_at) {
            (Some(header), None) => {
                let at: u64 = if now < header {
                    header
                } else {
                    now
                };
                self.clt_send_all_at = Some(at);
                true
            },
            _ => false,
        }
    }

    /// When sending to the client began.
    pub fn clt_send_start_at(&self) -> (r: Option<u64>)
        ensures
            r == self@.start,
            self@.in_order(),
    {
        proof {
            use_type_invariant(self);
        }
        self.clt_send_start_at
    }

    /// When the header had gone to the client.
    pub fn clt_send_header_at(&self) -> (r: Option<u64>)
        ensures
            r == self@.header,
            self@.in_order(),
    {
        proof {
            use_type_invariant(self);
        }
        self.clt_send_header_at
    }

    /// When the whole body had gone to the client.
    pub fn clt_send_all_at(&self) -> (r: Option<u64>)
        ensures
            r == self@.all,
            self@.in_order(),
    {
        proof {
            use_type_invariant(self);
        }
        self.clt_send_all_at
    }
}

/// Every mark keeps the timeline in order and leaves a mark that is set as
/// it is: each time is set at most once, and start, header and end follow
/// one another.
pub proof fn lemma_marks_set_once_in_order(t: RunTimeline, now: u64)
    requires
        t.in_order(),
    ensures
        t.mark_start(now).in_order(),
        t.mark_header(now).in_order(),
        t.mark_all(now).in_order(),
        t.start is Some ==> t.mark_start(now) == t,
        t.header is Some ==> t.mark_header(now) == t,
        t.all is Some ==> t.mark_all(now) == t,
        t.start is Some ==> t.mark_header(now).start == t.start && t.mark_all(now).start
            == t.start,
        t.header is Some ==> t.mark_all(now).header == t.header,
{
}

} // verus!
