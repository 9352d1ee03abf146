//! The two stages of a bidirectional adaptation.
//!
//! In the first stage the response body goes from upstream to the
//! adaptation server while the task watches for the server's reply. In the
//! second the adapted body comes back and goes to the client, while the
//! rest of the body from upstream may still be on its way out. The task
//! that does the I/O reports what happened; the types here decide what
//! follows.

use vstd::prelude::*;

use crate::body::body_to_chunked::{H1BodyToChunkedTransfer, TransferModel};
use crate::body::reader::{HttpBodyDecodeReader, HttpBodyReader};
use crate::chunked::phase::{BodyPhase, ScanRules};
use crate::copy_config::StreamCopyConfig;
use crate::idle::{
    idle_blame, idle_blame_of, idle_count_after, idle_verdict_of, observe_tick, IdleCheck,
    IdleForceQuitReason, IdleVerdict, LegStatus,
};
use crate::io::{IoFailure, StreamCopyError};
use crate::respmod::error::{
    client_leg_error, idle_error, upstream_leg_error, H1RespmodAdaptationError,
    InvalidBodyDetail,
};
use crate::respmod::run_state::{RespmodAdaptationRunState, RunTimeline};
use crate::stream_copy::{CopyModel, StreamCopy};

verus! {

/// The most that is read of the trailer behind an adapted body.
pub const ADAPTED_TRAILER_MAX_SIZE: usize = 128;

/// What the task saw while the body went out and no reply had come.
#[derive(Clone, Copy, Debug)]
pub enum RecvIcapEvent {
    /// The whole body has gone to the adaptation server.
    UpstreamDone,
    /// The upstream leg failed.
    UpstreamFailed(StreamCopyError),
    /// The adaptation server has sent something (`true`), or has closed
    /// the connection (`false`).
    IcapReaderReady(bool),
    /// Waiting for the adaptation server failed.
    IcapReaderFailed(IoFailure),
    /// This many idle-check intervals have passed.
    IdleTick(usize),
}

impl RecvIcapEvent {
    /// The event to act on when several are at hand: the end of the
    /// upstream leg goes before the readiness of the adaptation server,
    /// and both go before a tick, so that a transfer that is nearly over
    /// is not taken for an idle one.
    pub open spec fn spec_by_precedence(
        upstream: Option<Result<(), StreamCopyError>>,
        icap_reader: Option<Result<bool, IoFailure>>,
        ticks: Option<usize>,
    ) -> Option<RecvIcapEvent> {
        match (upstream, icap_reader, ticks) {
            (Some(Ok(_)), _, _) => Some(RecvIcapEvent::UpstreamDone),
            (Some(Err(e)), _, _) => Some(RecvIcapEvent::UpstreamFailed(e)),
            (None, Some(Ok(b)), _) => Some(RecvIcapEvent::IcapReaderReady(b)),
            (None, Some(Err(e)), _) => Some(RecvIcapEvent::IcapReaderFailed(e)),
            (None, None, Some(n)) => Some(RecvIcapEvent::IdleTick(n)),
            (None, None, None) => None,
        }
    }

    /// The event to act on when several are at hand.
    #[verifier::when_used_as_spec(spec_by_precedence)]
    pub fn by_precedence(
        upstream: Option<Result<(), StreamCopyError>>,
        icap_reader: Option<Result<bool, IoFailure>>,
        ticks: Option<usize>,
    ) -> (r: Option<RecvIcapEvent>)
        ensures
            r == Self::spec_by_precedence(upstream, icap_reader, ticks),
    {
        match upstream {
            Some(Ok(_)) => {
                return Some(RecvIcapEvent::UpstreamDone);
            },
            Some(Err(e)) => {
                return Some(RecvIcapEvent::UpstreamFailed(e));
            },
            None => {},
        }
        match icap_reader {
            Some(Ok(b)) => {
                return Some(RecvIcapEvent::IcapReaderReady(b));
            },
            Some(Err(e)) => {
                return Some(RecvIcapEvent::IcapReaderFailed(e));
            },
            None => {},
        }
        match ticks {
            Some(n) => Some(RecvIcapEvent::IdleTick(n)),
            None => None,
        }
    }
}

/// What follows an event of the first stage.
#[derive(Clone, Copy, Debug, PartialEq, Eq, Structural)]
pub enum RecvIcapStep {
    /// Go on waiting.
    Continue,
    /// Read the reply of the adaptation server.
    RecvIcapResponse,
    /// Give up.
    Fail(H1RespmodAdaptationError),
}

/// What follows a tick, given its verdict.
pub open spec fn recv_icap_step_of(v: IdleVerdict) -> RecvIcapStep {
    match v {
        IdleVerdict::Continue => RecvIcapStep::Continue,
        IdleVerdict::Idle(b) => RecvIcapStep::Fail(idle_error(b)),
        IdleVerdict::ForceQuit(r) => RecvIcapStep::Fail(H1RespmodAdaptationError::IdleForceQuit(r)),
    }
}

/// What follows an event of the first stage that is not a tick. The end
/// of the upstream leg and the first bytes of an early reply both lead to
/// reading the reply.
pub open spec fn recv_icap_event_step(ev: RecvIcapEvent) -> RecvIcapStep {
    match ev {
        RecvIcapEvent::UpstreamDone => RecvIcapStep::RecvIcapResponse,
        RecvIcapEvent::UpstreamFailed(e) => RecvIcapStep::Fail(upstream_leg_error(e)),
        RecvIcapEvent::IcapReaderReady(true) => RecvIcapStep::RecvIcapResponse,
        RecvIcapEvent::IcapReaderReady(false) => RecvIcapStep::Fail(
            H1RespmodAdaptationError::IcapServerConnectionClosed,
        ),
        RecvIcapEvent::IcapReaderFailed(e) => RecvIcapStep::Fail(
            H1RespmodAdaptationError::IcapServerReadFailed(e),
        ),
        RecvIcapEvent::IdleTick(_) => RecvIcapStep::Continue,
    }
}

/// What the upstream leg shows at a tick.
pub open spec fn upstream_status(m: TransferModel) -> LegStatus {
    LegStatus { idle: !m.active, no_cached_data: m.no_cached_data() }
}

/// What the client leg shows at a tick.
pub open spec fn client_status(m: CopyModel) -> LegStatus {
    LegStatus { idle: !m.active, no_cached_data: m.w_off >= m.buf.len() }
}

/// The first stage: the body goes out, the reply is awaited.
pub struct BidirectionalRecvIcapResponse {
    idle_count: usize,
}

impl BidirectionalRecvIcapResponse {
    /// The number of intervals in a row that the upstream leg was idle.
    pub closed spec fn spec_idle_count(&self) -> usize {
        self.idle_count
    }

    /// A first stage that has seen no tick.
    pub fn new() -> (r: Self)
        ensures
            r.spec_idle_count() == 0,
    {
        BidirectionalRecvIcapResponse { idle_count: 0 }
    }

    /// The number of intervals in a row that the upstream leg was idle.
    #[verifier::when_used_as_spec(spec_idle_count)]
    pub fn idle_count(&self) -> (r: usize)
        ensures
            r == self.spec_idle_count(),
    {
        self.idle_count
    }

    /// Decides what follows an event. The events are to be reported in
    /// this order of precedence when several are at hand: the end of the
    /// upstream leg, the readiness of the adaptation server, a tick.
    ///
    /// At a tick an idle upstream leg adds to the idle count; a leg that
    /// was active resets the count and has its activity flag cleared. If
    /// the policy then demands a forced quit, the task quits for the reason
    /// given, whatever the leg is doing. Otherwise, if the leg was idle and
    /// the policy says quit, upstream is blamed if the leg holds nothing
    /// and the adaptation server if it holds unsent bytes.
    pub fn transfer_and_recv<I: IdleCheck>(
        &mut self,
        idle_checker: &I,
        body_transfer: &mut H1BodyToChunkedTransfer,
        event: RecvIcapEvent,
    ) -> (r: RecvIcapStep)
        requires
            old(body_transfer).wf(),
        ensures
            final(body_transfer).wf(),
            !(event is IdleTick) ==> {
                &&& r == recv_icap_event_step(event)
                &&& final(self).spec_idle_count() == old(self).spec_idle_count()
                &&& final(body_transfer)@ == old(body_transfer)@
            },
            event matches RecvIcapEvent::IdleTick(n) ==> {
                let up = upstream_status(old(body_transfer)@);
                let blame = idle_blame_of(up, LegStatus { idle: false, no_cached_data: true });
                &&& final(self).spec_idle_count() == idle_count_after(
                    old(self).spec_idle_count(),
                    n,
                    up.idle,
                )
                &&& final(body_transfer)@ == (if up.idle {
                    old(body_transfer)@
                } else {
                    old(body_transfer)@.reset()
                })
                &&& exists|quit: bool, force: Option<IdleForceQuitReason>|
                    r == recv_icap_step_of(#[trigger] idle_verdict_of(up.idle, blame, quit, force))
            },
    {
        match event {
            RecvIcapEvent::UpstreamDone => RecvIcapStep::RecvIcapResponse,
            RecvIcapEvent::UpstreamFailed(e) => RecvIcapStep::Fail(
                H1RespmodAdaptationError::from_upstream_leg(e),
            ),
            RecvIcapEvent::IcapReaderReady(true) => RecvIcapStep::RecvIcapResponse,
            RecvIcapEvent::IcapReaderReady(false) => RecvIcapStep::Fail(
                H1RespmodAdaptationError::IcapServerConnectionClosed,
            ),
            RecvIcapEvent::IcapReaderFailed(e) => RecvIcapStep::Fail(
                H1RespmodAdaptationError::IcapServerReadFailed(e),
            ),
            RecvIcapEvent::IdleTick(n) => {
                let up = LegStatus {
                    idle: body_transfer.is_idle(),
                    no_cached_data: body_transfer.no_cached_data(),
                };
                let blame = idle_blame(up, LegStatus { idle: false, no_cached_data: true });
                if !up.idle {
                    body_transfer.reset_active();
                }
                let v = observe_tick(idle_checker, &mut self.idle_count, n, up.idle, blame);
                let ghost (quit, force) = choose|quit: bool, force: Option<IdleForceQuitReason>|
                    v == #[trigger] idle_verdict_of(up.idle, blame, quit, force);
                let r = match v {
                    IdleVerdict::Continue => RecvIcapStep::Continue,
                    IdleVerdict::Idle(b) => RecvIcapStep::Fail(
                        H1RespmodAdaptationError::from_idle_blame(b),
                    ),
                    IdleVerdict::ForceQuit(reason) => RecvIcapStep::Fail(
                        H1RespmodAdaptationError::IdleForceQuit(reason),
                    ),
                };
                assert(r == recv_icap_step_of(idle_verdict_of(up.idle, blame, quit, force)));
                r
            },
        }
    }
}

/// What the reply of the adaptation server amounts to, as far as the
/// transfer is concerned. The parser of the reply is not part of this
/// crate.
#[derive(Clone, Copy, Debug, PartialEq, Eq, Structural)]
pub enum IcapResponseShape {
    /// A status alone: nothing was modified, and the response from
    /// upstream passes through as it is.
    StatusOnly,
    /// An adapted response with a body. The adapted header announces this
    /// body length, if it announces one; without one the body keeps the
    /// chunked framing that the adaptation server gave it.
    Adapted { content_length: Option<u64> },
}

impl IcapResponseShape {
    /// Whether the second stage has a body to hand to the client.
    pub open spec fn spec_has_adapted_body(self) -> bool {
        self is Adapted
    }

    /// Whether the reply breaks the protocol: it holds a body, and the
    /// adapted header announces one of no bytes.
    pub open spec fn spec_is_violation(self) -> bool {
        self == (IcapResponseShape::Adapted { content_length: Some(0u64) })
    }

    /// Whether the second stage has a body to hand to the client.
    #[verifier::when_used_as_spec(spec_has_adapted_body)]
    pub fn has_adapted_body(self) -> (r: bool)
        ensures
            r == self.spec_has_adapted_body(),
    {
        match self {
            IcapResponseShape::Adapted { .. } => true,
            IcapResponseShape::StatusOnly => false,
        }
    }

    /// Whether the reply breaks the protocol.
    #[verifier::when_used_as_spec(spec_is_violation)]
    pub fn is_violation(self) -> (r: bool)
        ensures
            r == self.spec_is_violation(),
    {
        match self {
            IcapResponseShape::Adapted { content_length: Some(0) } => true,
            _ => false,
        }
    }

    /// What the second stage is to be told once the adapted header is
    /// parsed; `None` for a reply without a body, which needs no second
    /// stage.
    pub fn header_parsed(self) -> (r: Option<RecvHttpEvent>)
        ensures
            r matches Some(ev) ==> self matches IcapResponseShape::Adapted { content_length }
                && ev matches RecvHttpEvent::HeaderParsed { content_length: c } && c
                == content_length,
            r is Some <==> self is Adapted,
    {
        match self {
            IcapResponseShape::Adapted { content_length } => Some(
                RecvHttpEvent::HeaderParsed { content_length },
            ),
            IcapResponseShape::StatusOnly => None,
        }
    }
}

/// How far the second stage has come.
#[derive(Clone, Copy, Debug, PartialEq, Eq, Structural)]
pub enum RecvHttpPhase {
    /// The adapted header is to be read and parsed.
    ParseHeader,
    /// The adapted header is on its way to the client.
    SendHeader,
    /// The adapted body is on its way to the client.
    TransferBody,
    /// The trailer behind the adapted body is to be read.
    ReadTrailer,
    /// The stage is over.
    Finished,
}

/// What the task reports to [`BidirectionalRecvHttpResponse::transfer`].
#[derive(Clone, Copy, Debug)]
pub enum RecvHttpEvent {
    /// Nothing has happened yet.
    Start,
    /// The adapted header has been parsed; this is the body length it
    /// announces, if it announces one.
    HeaderParsed { content_length: Option<u64> },
    /// The adapted header has gone to the client.
    HeaderSent,
    /// Sending the adapted header to the client failed.
    HeaderSendFailed(IoFailure),
    /// The body transfer ended well. The client leg has sent `copied`
    /// bytes, and `finished` tells whether it read the body to its end.
    BodyTransferred { copied: u64, finished: bool },
    /// The body transfer failed.
    BodyFailed(H1RespmodAdaptationError),
    /// The trailer was read to its end (`true`) or could not be.
    TrailerRead(bool),
}

/// What [`BidirectionalRecvHttpResponse::transfer`] asks the task to do.
#[derive(Clone, Copy, Debug, PartialEq, Eq, Structural)]
pub enum RecvHttpAction {
    /// Read and parse the adapted header, reading no more than this many
    /// bytes, and report `HeaderParsed`.
    ParseHeader { max_size: usize },
    /// Send the adapted header to the client and report `HeaderSent` or
    /// `HeaderSendFailed`.
    SendHeader,
    /// Run both legs until [`BidirectionalRecvHttpResponse::do_transfer`]
    /// says that the transfer is over, and report `BodyTransferred` or
    /// `BodyFailed`.
    TransferBody,
    /// Read the trailer, this many bytes at most, and report
    /// `TrailerRead`.
    ReadTrailer { max_bytes: usize },
    /// The adapted response has been transferred.
    AdaptedTransferred,
    /// The adaptation has failed.
    Fail(H1RespmodAdaptationError),
}

/// The second stage as contracts see it.
pub struct RecvHttpModel {
    pub http_body_line_max_size: usize,
    pub http_header_size: usize,
    pub phase: RecvHttpPhase,
    /// The body length that the adapted header announces.
    pub content_length: Option<u64>,
    /// The number of bytes that went to the client.
    pub copied: u64,
    /// Whether the reply of the adaptation server was read to its end, so
    /// that the connection can be used again.
    pub icap_read_finished: bool,
    /// Why the stage failed, if it did.
    pub failure: Option<H1RespmodAdaptationError>,
    /// The number of intervals in a row that both legs were idle.
    pub idle_count: usize,
    /// Whether the upstream leg is complete and only the client leg runs.
    pub draining: bool,
}

impl RecvHttpModel {
    /// A second stage that is about to begin.
    pub open spec fn init(http_body_line_max_size: usize, http_header_size: usize)
        -> RecvHttpModel {
        RecvHttpModel {
            http_body_line_max_size,
            http_header_size,
            phase: RecvHttpPhase::ParseHeader,
            content_length: None,
            copied: 0,
            icap_read_finished: false,
            failure: None,
            idle_count: 0,
            draining: false,
        }
    }

    /// The stage has failed.
    pub open spec fn fail(self, e: H1RespmodAdaptationError) -> (RecvHttpModel, RecvHttpAction) {
        (
            RecvHttpModel { phase: RecvHttpPhase::Finished, failure: Some(e), ..self },
            RecvHttpAction::Fail(e),
        )
    }

    /// What the stage is waiting for.
    pub open spec fn awaited(self) -> RecvHttpAction {
        match self.phase {
            RecvHttpPhase::ParseHeader => RecvHttpAction::ParseHeader {
                max_size: self.http_header_size,
            },
            RecvHttpPhase::SendHeader => RecvHttpAction::SendHeader,
            RecvHttpPhase::TransferBody => RecvHttpAction::TransferBody,
            RecvHttpPhase::ReadTrailer => RecvHttpAction::ReadTrailer {
                max_bytes: ADAPTED_TRAILER_MAX_SIZE,
            },
            RecvHttpPhase::Finished => match self.failure {
                Some(e) => RecvHttpAction::Fail(e),
                None => RecvHttpAction::AdaptedTransferred,
            },
        }
    }

    /// How the stage ends once the body and, where one is read, the
    /// trailer are through: an announced length must be the length that
    /// was copied.
    pub open spec fn conclude(self) -> (RecvHttpModel, RecvHttpAction) {
        match self.content_length {
            Some(expected) if expected != self.copied => self.fail(
                H1RespmodAdaptationError::InvalidHttpBodyFromIcapServer(
                    InvalidBodyDetail::LengthMismatch { expected, copied: self.copied },
                ),
            ),
            _ => (
                RecvHttpModel { phase: RecvHttpPhase::Finished, ..self },
                RecvHttpAction::AdaptedTransferred,
            ),
        }
    }

    /// One event: the stage after it and what it asks for. An event that
    /// the stage is not waiting for changes nothing.
    pub open spec fn step(self, ev: RecvHttpEvent) -> (RecvHttpModel, RecvHttpAction) {
        match (self.phase, ev) {
            (RecvHttpPhase::ParseHeader, RecvHttpEvent::HeaderParsed { content_length }) => (
                RecvHttpModel { phase: RecvHttpPhase::SendHeader, content_length, ..self },
                RecvHttpAction::SendHeader,
            ),
            (RecvHttpPhase::SendHeader, RecvHttpEvent::HeaderSent) => {
                if self.content_length == Some(0u64) {
                    self.fail(
                        H1RespmodAdaptationError::InvalidHttpBodyFromIcapServer(
                            InvalidBodyDetail::ZeroContentLength,
                        ),
                    )
                } else {
                    (
                        RecvHttpModel { phase: RecvHttpPhase::TransferBody, ..self },
                        RecvHttpAction::TransferBody,
                    )
                }
            },
            (RecvHttpPhase::SendHeader, RecvHttpEvent::HeaderSendFailed(e)) => self.fail(
                H1RespmodAdaptationError::HttpClientWriteFailed(e),
            ),
            (RecvHttpPhase::TransferBody, RecvHttpEvent::BodyTransferred { copied, finished }) => {
                if self.content_length is Some {
                    (
                        RecvHttpModel { phase: RecvHttpPhase::ReadTrailer, copied, ..self },
                        RecvHttpAction::ReadTrailer { max_bytes: ADAPTED_TRAILER_MAX_SIZE },
                    )
                } else {
                    RecvHttpModel { copied, icap_read_finished: finished, ..self }.conclude()
                }
            },
            (RecvHttpPhase::TransferBody, RecvHttpEvent::BodyFailed(e)) => self.fail(e),
            (RecvHttpPhase::ReadTrailer, RecvHttpEvent::TrailerRead(ok)) => RecvHttpModel {
                icap_read_finished: self.icap_read_finished || ok,
                ..self
            }.conclude(),
            _ => (self, self.awaited()),
        }
    }

    /// How an event moves the timeline of what was sent to the client:
    /// sending starts once the adapted header is parsed, the header is
    /// marked once it is sent, the body once it is transferred.
    pub open spec fn timeline_after(self, t: RunTimeline, ev: RecvHttpEvent, now: u64)
        -> RunTimeline {
        match (self.phase, ev) {
            (RecvHttpPhase::ParseHeader, RecvHttpEvent::HeaderParsed { .. }) => t.mark_start(now),
            (RecvHttpPhase::SendHeader, RecvHttpEvent::HeaderSent) => t.mark_header(now),
            (RecvHttpPhase::TransferBody, RecvHttpEvent::BodyTransferred { .. }) => t.mark_all(
                now,
            ),
            _ => t,
        }
    }
}

/// What the task saw while both legs were running.
#[derive(Clone, Copy, Debug)]
pub enum LegEvent {
    /// The upstream leg is complete.
    UpstreamDone,
    /// The upstream leg failed.
    UpstreamFailed(StreamCopyError),
    /// The client leg is complete.
    ClientDone,
    /// The client leg failed.
    ClientFailed(StreamCopyError),
    /// This many idle-check intervals have passed.
    IdleTick(usize),
}

/// What follows an event of the body transfer.
#[derive(Clone, Copy, Debug, PartialEq, Eq, Structural)]
pub enum DoTransferStep {
    /// Go on with both legs.
    Continue,
    /// Go on with the client leg alone; there are no more idle checks.
    DrainClient,
    /// The transfer is over.
    Done,
    /// Give up.
    Fail(H1RespmodAdaptationError),
}

/// What follows a tick, given its verdict.
pub open spec fn do_transfer_step_of(v: IdleVerdict) -> DoTransferStep {
    match v {
        IdleVerdict::Continue => DoTransferStep::Continue,
        IdleVerdict::Idle(b) => DoTransferStep::Fail(idle_error(b)),
        IdleVerdict::ForceQuit(r) => DoTransferStep::Fail(
            H1RespmodAdaptationError::IdleForceQuit(r),
        ),
    }
}

/// The verdict of a tick on both legs, given what the policy answered.
pub open spec fn both_legs_verdict(
    up: LegStatus,
    clt: LegStatus,
    quit: bool,
    force: Option<IdleForceQuitReason>,
) -> IdleVerdict {
    idle_verdict_of(up.idle && clt.idle, idle_blame_of(up, clt), quit, force)
}

/// What follows an event of the body transfer that is not a tick.
pub open spec fn leg_event_step(ev: LegEvent) -> DoTransferStep {
    match ev {
        LegEvent::UpstreamDone => DoTransferStep::DrainClient,
        LegEvent::UpstreamFailed(e) => DoTransferStep::Fail(upstream_leg_error(e)),
        LegEvent::ClientDone => DoTransferStep::Done,
        LegEvent::ClientFailed(e) => DoTransferStep::Fail(client_leg_error(e)),
        LegEvent::IdleTick(_) => DoTransferStep::Continue,
    }
}

/// The second stage: the adapted response goes to the client.
pub struct BidirectionalRecvHttpResponse {
    http_body_line_max_size: usize,
    copy_config: StreamCopyConfig,
    http_header_size: usize,
    phase: RecvHttpPhase,
    content_length: Option<u64>,
    copied: u64,
    icap_read_finished: bool,
    failure: Option<H1RespmodAdaptationError>,
    idle_count: usize,
    draining: bool,
}

impl View for BidirectionalRecvHttpResponse {
    type V = RecvHttpModel;

    closed spec fn view(&self) -> RecvHttpModel {
        RecvHttpModel {
            http_body_line_max_size: self.http_body_line_max_size,
            http_header_size: self.http_header_size,
            phase: self.phase,
            content_length: self.content_length,
            copied: self.copied,
            icap_read_finished: self.icap_read_finished,
            failure: self.failure,
            idle_count: self.idle_count,
            draining: self.draining,
        }
    }
}

impl BidirectionalRecvHttpResponse {
    /// The sizes that the client leg copies with.
    pub closed spec fn spec_copy_config(&self) -> StreamCopyConfig {
        self.copy_config
    }

    /// A second stage that is about to begin.
    pub fn new(
        http_body_line_max_size: usize,
        copy_config: StreamCopyConfig,
        http_header_size: usize,
    ) -> (r: Self)
        ensures
            r@ == RecvHttpModel::init(http_body_line_max_size, http_header_size),
            r.spec_copy_config() == copy_config,
    {
        BidirectionalRecvHttpResponse {
            http_body_line_max_size,
            copy_config,
            http_header_size,
            phase: RecvHttpPhase::ParseHeader,
            content_length: None,
            copied: 0,
            icap_read_finished: false,
            failure: None,
            idle_count: 0,
            draining: false,
        }
    }

    /// Whether the reply of the adaptation server was read to its end, so
    /// that the connection can be used again.
    pub fn icap_read_finished(&self) -> (r: bool)
        ensures
            r == self@.icap_read_finished,
    {
        self.icap_read_finished
    }

    /// How far the stage has come.
    pub fn phase(&self) -> (r: RecvHttpPhase)
        ensures
            r == self@.phase,
    {
        self.phase
    }

    /// The client leg for the adapted body. The adaptation server sends
    /// the body chunked: where the adapted header announces a length the
    /// leg decodes it, otherwise it hands it on as it stands.
    pub fn client_body_transfer(&self) -> (r: StreamCopy)
        ensures
            r.wf(),
            r@ == CopyModel::init(
                BodyPhase::chunk_start(),
                ScanRules {
                    line_max: self@.http_body_line_max_size,
                    decode: self@.content_length is Some,
                },
                self.spec_copy_config().spec_buffer_size() as nat,
                self.spec_copy_config().spec_yield_size() as nat,
            ),
    {
        match self.content_length {
            Some(_) => StreamCopy::new_decoded(
                HttpBodyDecodeReader::new_chunked(self.http_body_line_max_size),
                self.copy_config,
            ),
            None => StreamCopy::new(
                HttpBodyReader::new_chunked(self.http_body_line_max_size),
                self.copy_config,
            ),
        }
    }

    fn conclude(&mut self) -> (r: RecvHttpAction)
        ensures
            (final(self)@, r) == old(self)@.conclude(),
            final(self).spec_copy_config() == old(self).spec_copy_config(),
    {
        self.phase = RecvHttpPhase::Finished;
        match self.content_length {
            Some(expected) => {
                if expected != self.copied {
                    let e = H1RespmodAdaptationError::InvalidHttpBodyFromIcapServer(
                        InvalidBodyDetail::LengthMismatch { expected, copied: self.copied },
                    );
                    self.failure = Some(e);
                    RecvHttpAction::Fail(e)
                } else {
                    RecvHttpAction::AdaptedTransferred
                }
            },
            None => RecvHttpAction::AdaptedTransferred,
        }
    }

    fn fail(&mut self, e: H1RespmodAdaptationError) -> (r: RecvHttpAction)
        ensures
            (final(self)@, r) == old(self)@.fail(e),
            final(self).spec_copy_config() == old(self).spec_copy_config(),
    {
        self.phase = RecvHttpPhase::Finished;
        self.failure = Some(e);
        RecvHttpAction::Fail(e)
    }

    fn awaited(&self) -> (r: RecvHttpAction)
        ensures
            r == self@.awaited(),
    {
        match self.phase {
            RecvHttpPhase::ParseHeader => RecvHttpAction::ParseHeader {
                max_size: self.http_header_size,
            },
            RecvHttpPhase::SendHeader => RecvHttpAction::SendHeader,
            RecvHttpPhase::TransferBody => RecvHttpAction::TransferBody,
            RecvHttpPhase::ReadTrailer => RecvHttpAction::ReadTrailer {
                max_bytes: ADAPTED_TRAILER_MAX_SIZE,
            },
            RecvHttpPhase::Finished => match self.failure {
                Some(e) => RecvHttpAction::Fail(e),
                None => RecvHttpAction::AdaptedTransferred,
            },
        }
    }

    /// Takes what the task reports, at clock reading `now`, marks the
    /// timeline and says what to do next. The adapted header is parsed and
    /// sent first. A header that announces a body of no bytes is a
    /// violation, since the reply holds a body. Otherwise the body is
    /// transferred; where a length is announced the trailer is read after
    /// it, and a length other than the announced one is a violation.
    pub fn transfer(
        &mut self,
        state: &mut RespmodAdaptationRunState,
        now: u64,
        event: RecvHttpEvent,
    ) -> (r: RecvHttpAction)
        ensures
            (final(self)@, r) == old(self)@.step(event),
            final(state)@ == old(self)@.timeline_after(old(state)@, event, now),
            final(state)@.in_order(),
            final(self).spec_copy_config() == old(self).spec_copy_config(),
    {
        let _ = state.clt_send_start_at();
        match self.phase {
            RecvHttpPhase::ParseHeader => {
                if let RecvHttpEvent::HeaderParsed { content_length } = event {
                    self.content_length = content_length;
                    self.phase = RecvHttpPhase::SendHeader;
                    state.mark_clt_send_start(now);
                    return RecvHttpAction::SendHeader;
                }
            },
            RecvHttpPhase::SendHeader => match event {
                RecvHttpEvent::HeaderSent => {
                    state.mark_clt_send_header(now);
                    match self.content_length {
                        Some(0) => {
                            return self.fail(
                                H1RespmodAdaptationError::InvalidHttpBodyFromIcapServer(
                                    InvalidBodyDetail::ZeroContentLength,
                                ),
                            );
                        },
                        _ => {
                            self.phase = RecvHttpPhase::TransferBody;
                            return RecvHttpAction::TransferBody;
                        },
                    }
                },
                RecvHttpEvent::HeaderSendFailed(e) => {
                    return self.fail(H1RespmodAdaptationError::HttpClientWriteFailed(e));
                },
                _ => {},
            },
            RecvHttpPhase::TransferBody => match event {
                RecvHttpEvent::BodyTransferred { copied, finished } => {
                    state.mark_clt_send_all(now);
                    self.copied = copied;
                    if self.content_length.is_some() {
                        self.phase = RecvHttpPhase::ReadTrailer;
                        return RecvHttpAction::ReadTrailer {
                            max_bytes: ADAPTED_TRAILER_MAX_SIZE,
                        };
                    } else {
                        self.icap_read_finished = finished;
                        return self.conclude();
                    }
                },
                RecvHttpEvent::BodyFailed(e) => {
                    return self.fail(e);
                },
                _ => {},
            },
            RecvHttpPhase::ReadTrailer => {
                if let RecvHttpEvent::TrailerRead(ok) = event {
                    if ok {
                        self.icap_read_finished = true;
                    }
                    return self.conclude();
                }
            },
            RecvHttpPhase::Finished => {},
        }
        self.awaited()
    }

    /// Decides what follows an event while the body is transferred.
    ///
    /// Once the upstream leg is complete the client leg runs alone and is
    /// no longer checked for idleness. At a tick, both legs idle add to
    /// the idle count; progress on either leg resets the count and clears
    /// the activity flags of both. If the policy then demands a forced
    /// quit, the task quits for the reason given, whatever the legs are
    /// doing. Otherwise, if both legs were idle and the policy says quit,
    /// the blame goes by [`idle_blame_of`].
    pub fn do_transfer<I: IdleCheck>(
        &mut self,
        idle_checker: &I,
        ups_body_transfer: &mut H1BodyToChunkedTransfer,
        clt_body_transfer: &mut StreamCopy,
        event: LegEvent,
    ) -> (r: DoTransferStep)
        requires
            old(ups_body_transfer).wf(),
            old(clt_body_transfer).wf(),
        ensures
            final(ups_body_transfer).wf(),
            final(clt_body_transfer).wf(),
            final(self).spec_copy_config() == old(self).spec_copy_config(),
            !(event is IdleTick) ==> {
                &&& r == leg_event_step(event)
                &&& final(self)@ == (RecvHttpModel {
                    draining: old(self)@.draining || event is UpstreamDone,
                    ..old(self)@
                })
                &&& final(ups_body_transfer)@ == old(ups_body_transfer)@
                &&& final(clt_body_transfer)@ == old(clt_body_transfer)@
            },
            event is IdleTick && old(self)@.draining ==> {
                &&& r == DoTransferStep::DrainClient
                &&& final(self)@ == old(self)@
                &&& final(ups_body_transfer)@ == old(ups_body_transfer)@
                &&& final(clt_body_transfer)@ == old(clt_body_transfer)@
            },
            event is IdleTick && !old(self)@.draining ==> {
                let n = event->IdleTick_0;
                let up = upstream_status(old(ups_body_transfer)@);
                let clt = client_status(old(clt_body_transfer)@);
                let all_idle = up.idle && clt.idle;
                &&& final(self)@ == (RecvHttpModel {
                    idle_count: idle_count_after(old(self)@.idle_count, n, all_idle),
                    ..old(self)@
                })
                &&& final(ups_body_transfer)@ == (if all_idle {
                    old(ups_body_transfer)@
                } else {
                    old(ups_body_transfer)@.reset()
                })
                &&& final(clt_body_transfer)@ == (if all_idle {
                    old(clt_body_transfer)@
                } else {
                    CopyModel { active: false, ..old(clt_body_transfer)@ }
                })
                &&& exists|quit: bool, force: Option<IdleForceQuitReason>|
                    r == do_transfer_step_of(#[trigger] both_legs_verdict(up, clt, quit, force))
            },
    {
        match event {
            LegEvent::UpstreamDone => {
                self.draining = true;
                DoTransferStep::DrainClient
            },
            LegEvent::UpstreamFailed(e) => DoTransferStep::Fail(
                H1RespmodAdaptationError::from_upstream_leg(e),
            ),
            LegEvent::ClientDone => DoTransferStep::Done,
            LegEvent::ClientFailed(e) => DoTransferStep::Fail(
                H1RespmodAdaptationError::from_client_leg(e),
            ),
            LegEvent::IdleTick(n) => {
                if self.draining {
                    return DoTransferStep::DrainClient;
                }
                self.tick_both(idle_checker, ups_body_transfer, clt_body_transfer, n)
            },
        }
    }

    fn tick_both<I: IdleCheck>(
        &mut self,
        idle_checker: &I,
        ups_body_transfer: &mut H1BodyToChunkedTransfer,
        clt_body_transfer: &mut StreamCopy,
        n: usize,
    ) -> (r: DoTransferStep)
        requires
            old(ups_body_transfer).wf(),
            old(clt_body_transfer).wf(),
        ensures
            final(ups_body_transfer).wf(),
            final(clt_body_transfer).wf(),
            final(self).spec_copy_config() == old(self).spec_copy_config(),
            final(self)@ == (RecvHttpModel {
                idle_count: idle_count_after(
                    old(self)@.idle_count,
                    n,
                    upstream_status(old(ups_body_transfer)@).idle && client_status(
                        old(clt_body_transfer)@,
                    ).idle,
                ),
                ..old(self)@
            }),
            final(ups_body_transfer)@ == (if upstream_status(old(ups_body_transfer)@).idle
                && client_status(old(clt_body_transfer)@).idle {
                old(ups_body_transfer)@
            } else {
                old(ups_body_transfer)@.reset()
            }),
            final(clt_body_transfer)@ == (if upstream_status(old(ups_body_transfer)@).idle
                && client_status(old(clt_body_transfer)@).idle {
                old(clt_body_transfer)@
            } else {
                CopyModel { active: false, ..old(clt_body_transfer)@ }
            }),
            exists|quit: bool, force: Option<IdleForceQuitReason>|
                r == do_transfer_step_of(
                    #[trigger] both_legs_verdict(
                        upstream_status(old(ups_body_transfer)@),
                        client_status(old(clt_body_transfer)@),
                        quit,
                        force,
                    ),
                ),
    {
        let up = LegStatus {
            idle: ups_body_transfer.is_idle(),
            no_cached_data: ups_body_transfer.no_cached_data(),
        };
        let clt = LegStatus {
            idle: clt_body_transfer.is_idle(),
            no_cached_data: clt_body_transfer.no_cached_data(),
        };
        assert(up == upstream_status(old(ups_body_transfer)@));
        assert(clt == client_status(old(clt_body_transfer)@));
        let all_idle = up.idle && clt.idle;
        let blame = idle_blame(up, clt);
        if !all_idle {
            ups_body_transfer.reset_active();
            clt_body_transfer.reset_active();
            proof {
                assert(clt_body_transfer@.pending() == old(clt_body_transfer)@.pending());
            }
        }
        let v = observe_tick(idle_checker, &mut self.idle_count, n, all_idle, blame);
        let ghost (quit, force) = choose|quit: bool, force: Option<IdleForceQuitReason>|
            v == #[trigger] idle_verdict_of(all_idle, blame, quit, force);
        let r = match v {
            IdleVerdict::Continue => DoTransferStep::Continue,
            IdleVerdict::Idle(b) => DoTransferStep::Fail(
                H1RespmodAdaptationError::from_idle_blame(b),
            ),
            IdleVerdict::ForceQuit(reason) => DoTransferStep::Fail(
                H1RespmodAdaptationError::IdleForceQuit(reason),
            ),
        };
        assert(r == do_transfer_step_of(both_legs_verdict(up, clt, quit, force)));
        r
    }
}

/// A forced quit fails the task at the tick that sees it, in either
/// stage, whatever the legs are doing and whatever the policy says of
/// idleness.
pub proof fn lemma_force_quit_fails_the_task(
    up: LegStatus,
    clt: LegStatus,
    quit: bool,
    reason: IdleForceQuitReason,
)
    ensures
        recv_icap_step_of(
            idle_verdict_of(
                up.idle,
                idle_blame_of(up, LegStatus { idle: false, no_cached_data: true }),
                quit,
                Some(reason),
            ),
        ) == RecvIcapStep::Fail(H1RespmodAdaptationError::IdleForceQuit(reason)),
        do_transfer_step_of(both_legs_verdict(up, clt, quit, Some(reason)))
            == DoTransferStep::Fail(H1RespmodAdaptationError::IdleForceQuit(reason)),
{
}

/// An echo ends well: once the body is transferred and the trailer read,
/// a second stage whose adapted header announced as many bytes as the
/// client leg has sent reports the adapted response as transferred.
pub proof fn lemma_matching_length_is_transferred(m: RecvHttpModel, ok: bool)
    requires
        m.phase is ReadTrailer,
        m.content_length == Some(m.copied),
    ensures
        m.step(RecvHttpEvent::TrailerRead(ok)).1 == RecvHttpAction::AdaptedTransferred,
        m.step(RecvHttpEvent::TrailerRead(ok)).0.phase is Finished,
        m.step(RecvHttpEvent::TrailerRead(ok)).0.icap_read_finished == (m.icap_read_finished
            || ok),
{
}

/// A body whose length differs from the one that the adapted header
/// announces is never reported as transferred, and a header that announces
/// no bytes never gets as far as a body.
pub proof fn lemma_content_length_is_checked(m: RecvHttpModel, ev: RecvHttpEvent)
    ensures
        m.step(ev).1 is AdaptedTransferred && !(m.phase is Finished) ==> (
        m.content_length matches Some(expected) ==> expected == m.step(ev).0.copied),
        m.phase is SendHeader && m.content_length == Some(0u64) && ev is HeaderSent ==> m.step(
            ev,
        ).1 == RecvHttpAction::Fail(
            H1RespmodAdaptationError::InvalidHttpBodyFromIcapServer(
                InvalidBodyDetail::ZeroContentLength,
            ),
        ),
        m.phase is ReadTrailer && m.content_length is Some && m.content_length->Some_0 != m.copied
            && ev is TrailerRead ==> m.step(ev).1 == RecvHttpAction::Fail(
            H1RespmodAdaptationError::InvalidHttpBodyFromIcapServer(
                InvalidBodyDetail::LengthMismatch {
                    expected: m.content_length->Some_0,
                    copied: m.copied,
                },
            ),
        ),
{
}

} // verus!
