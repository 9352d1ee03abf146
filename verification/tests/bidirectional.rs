use g3_transfer::body::body_to_chunked::H1BodyToChunkedTransfer;
use g3_transfer::copy_config::StreamCopyConfig;
use g3_transfer::idle::{IdleBlame, IdleCheck, IdleForceQuitReason, MaxIdleCount};
use g3_transfer::io::{IoFailure, IoOutcome, IoRequest, PollStep, StreamCopyError};
use g3_transfer::respmod::bidirectional::{
    BidirectionalRecvHttpResponse, BidirectionalRecvIcapResponse, DoTransferStep,
    IcapResponseShape, LegEvent,
    RecvHttpAction, RecvHttpEvent, RecvHttpPhase, RecvIcapEvent, RecvIcapStep,
    ADAPTED_TRAILER_MAX_SIZE,
};
use g3_transfer::respmod::error::{H1RespmodAdaptationError, InvalidBodyDetail};
use g3_transfer::respmod::run_state::RespmodAdaptationRunState;

struct Forced(IdleForceQuitReason);

impl IdleCheck for Forced {
    fn check_quit(&self, _idle_count: usize) -> bool {
        false
    }

    fn check_force_quit(&self) -> Option<IdleForceQuitReason> {
        Some(self.0)
    }
}

/// A policy that says quit at every count and demands a forced quit too.
struct QuitAndForced(IdleForceQuitReason);

impl IdleCheck for QuitAndForced {
    fn check_quit(&self, _idle_count: usize) -> bool {
        true
    }

    fn check_force_quit(&self) -> Option<IdleForceQuitReason> {
        Some(self.0)
    }
}

/// An upstream leg that has taken bytes from upstream which the
/// adaptation server does not accept.
fn stalled_upstream_leg() -> H1BodyToChunkedTransfer {
    let mut transfer = H1BodyToChunkedTransfer::new_read_until_end(StreamCopyConfig::default());
    assert_eq!(
        transfer.poll(IoOutcome::Begin),
        PollStep::Io(IoRequest::Fill)
    );
    assert_eq!(
        transfer.poll(IoOutcome::Filled(b"abc")),
        PollStep::Io(IoRequest::Write)
    );
    assert_eq!(transfer.poll(IoOutcome::NotReady), PollStep::Pending);
    assert!(!transfer.no_cached_data());
    transfer
}

/// An upstream leg that waits for upstream and holds nothing.
fn starved_upstream_leg() -> H1BodyToChunkedTransfer {
    let mut transfer = H1BodyToChunkedTransfer::new_read_until_end(StreamCopyConfig::default());
    assert_eq!(
        transfer.poll(IoOutcome::Begin),
        PollStep::Io(IoRequest::Fill)
    );
    assert_eq!(transfer.poll(IoOutcome::NotReady), PollStep::Pending);
    assert!(transfer.no_cached_data());
    transfer
}

#[test]
fn first_stage_maps_events() {
    let policy = MaxIdleCount { max_idle_count: 3 };
    let mut stage = BidirectionalRecvIcapResponse::new();
    let mut leg = starved_upstream_leg();
    assert_eq!(
        stage.transfer_and_recv(&policy, &mut leg, RecvIcapEvent::UpstreamDone),
        RecvIcapStep::RecvIcapResponse
    );
    assert_eq!(
        stage.transfer_and_recv(&policy, &mut leg, RecvIcapEvent::IcapReaderReady(true)),
        RecvIcapStep::RecvIcapResponse
    );
    assert_eq!(
        stage.transfer_and_recv(&policy, &mut leg, RecvIcapEvent::IcapReaderReady(false)),
        RecvIcapStep::Fail(H1RespmodAdaptationError::IcapServerConnectionClosed)
    );
    assert_eq!(
        stage.transfer_and_recv(
            &policy,
            &mut leg,
            RecvIcapEvent::IcapReaderFailed(IoFailure::Transport(104))
        ),
        RecvIcapStep::Fail(H1RespmodAdaptationError::IcapServerReadFailed(
            IoFailure::Transport(104)
        ))
    );
    assert_eq!(
        stage.transfer_and_recv(
            &policy,
            &mut leg,
            RecvIcapEvent::UpstreamFailed(StreamCopyError::ReadFailed(IoFailure::UnexpectedEof))
        ),
        RecvIcapStep::Fail(H1RespmodAdaptationError::HttpUpstreamReadFailed(
            IoFailure::UnexpectedEof
        ))
    );
    assert_eq!(
        stage.transfer_and_recv(
            &policy,
            &mut leg,
            RecvIcapEvent::UpstreamFailed(StreamCopyError::WriteFailed(IoFailure::WriteZero))
        ),
        RecvIcapStep::Fail(H1RespmodAdaptationError::IcapServerWriteFailed(
            IoFailure::WriteZero
        ))
    );
    assert_eq!(stage.idle_count(), 0);
}

#[test]
fn idle_upstream_leg_with_unsent_bytes_blames_the_adaptation_server() {
    let policy = MaxIdleCount { max_idle_count: 3 };
    let mut stage = BidirectionalRecvIcapResponse::new();
    let mut leg = stalled_upstream_leg();
    // the first tick sees the progress made before it
    assert!(!leg.is_idle());
    assert_eq!(
        stage.transfer_and_recv(&policy, &mut leg, RecvIcapEvent::IdleTick(1)),
        RecvIcapStep::Continue
    );
    assert_eq!(stage.idle_count(), 0);
    assert!(leg.is_idle());
    assert_eq!(
        stage.transfer_and_recv(&policy, &mut leg, RecvIcapEvent::IdleTick(1)),
        RecvIcapStep::Continue
    );
    assert_eq!(
        stage.transfer_and_recv(&policy, &mut leg, RecvIcapEvent::IdleTick(1)),
        RecvIcapStep::Continue
    );
    assert_eq!(stage.idle_count(), 2);
    assert_eq!(
        stage.transfer_and_recv(&policy, &mut leg, RecvIcapEvent::IdleTick(1)),
        RecvIcapStep::Fail(H1RespmodAdaptationError::IcapServerWriteIdle)
    );
    assert_eq!(stage.idle_count(), 3);
}

#[test]
fn idle_upstream_leg_that_holds_nothing_blames_upstream() {
    let policy = MaxIdleCount { max_idle_count: 2 };
    let mut stage = BidirectionalRecvIcapResponse::new();
    let mut leg = starved_upstream_leg();
    assert_eq!(
        stage.transfer_and_recv(&policy, &mut leg, RecvIcapEvent::IdleTick(1)),
        RecvIcapStep::Continue
    );
    assert_eq!(
        stage.transfer_and_recv(&policy, &mut leg, RecvIcapEvent::IdleTick(1)),
        RecvIcapStep::Fail(H1RespmodAdaptationError::HttpUpstreamReadIdle)
    );
}

#[test]
fn progress_resets_the_idle_count() {
    let policy = MaxIdleCount { max_idle_count: 2 };
    let mut stage = BidirectionalRecvIcapResponse::new();
    let mut leg = starved_upstream_leg();
    assert_eq!(
        stage.transfer_and_recv(&policy, &mut leg, RecvIcapEvent::IdleTick(1)),
        RecvIcapStep::Continue
    );
    assert_eq!(stage.idle_count(), 1);
    assert_eq!(leg.poll(IoOutcome::Begin), PollStep::Io(IoRequest::Fill));
    assert_eq!(
        leg.poll(IoOutcome::Filled(b"abc")),
        PollStep::Io(IoRequest::Write)
    );
    assert_eq!(leg.poll(IoOutcome::NotReady), PollStep::Pending);
    assert_eq!(
        stage.transfer_and_recv(&policy, &mut leg, RecvIcapEvent::IdleTick(1)),
        RecvIcapStep::Continue
    );
    assert_eq!(stage.idle_count(), 0);
    assert!(leg.is_idle());
}

#[test]
fn forced_quit_needs_no_idleness() {
    let policy = Forced(IdleForceQuitReason::UserBlocked);
    let mut stage = BidirectionalRecvIcapResponse::new();
    let mut leg = stalled_upstream_leg();
    assert_eq!(
        stage.transfer_and_recv(&policy, &mut leg, RecvIcapEvent::IdleTick(1)),
        RecvIcapStep::Fail(H1RespmodAdaptationError::IdleForceQuit(
            IdleForceQuitReason::UserBlocked
        ))
    );
}

fn second_stage() -> BidirectionalRecvHttpResponse {
    BidirectionalRecvHttpResponse::new(1024, StreamCopyConfig::default(), 8192)
}

#[test]
fn length_mismatch_is_a_violation() {
    let mut state = RespmodAdaptationRunState::new();
    let mut stage = second_stage();
    assert_eq!(
        stage.transfer(&mut state, 10, RecvHttpEvent::Start),
        RecvHttpAction::ParseHeader { max_size: 8192 }
    );
    assert_eq!(
        stage.transfer(
            &mut state,
            11,
            RecvHttpEvent::HeaderParsed {
                content_length: Some(100)
            }
        ),
        RecvHttpAction::SendHeader
    );
    assert_eq!(
        stage.transfer(&mut state, 12, RecvHttpEvent::HeaderSent),
        RecvHttpAction::TransferBody
    );
    assert_eq!(
        stage.transfer(
            &mut state,
            13,
            RecvHttpEvent::BodyTransferred {
                copied: 90,
                finished: true
            }
        ),
        RecvHttpAction::ReadTrailer {
            max_bytes: ADAPTED_TRAILER_MAX_SIZE
        }
    );
    assert_eq!(ADAPTED_TRAILER_MAX_SIZE, 128);
    assert!(!stage.icap_read_finished());
    let failure = RecvHttpAction::Fail(H1RespmodAdaptationError::InvalidHttpBodyFromIcapServer(
        InvalidBodyDetail::LengthMismatch {
            expected: 100,
            copied: 90,
        },
    ));
    assert_eq!(
        stage.transfer(&mut state, 14, RecvHttpEvent::TrailerRead(true)),
        failure
    );
    assert!(stage.icap_read_finished());
    assert_eq!(stage.phase(), RecvHttpPhase::Finished);
    assert_eq!(stage.transfer(&mut state, 15, RecvHttpEvent::Start), failure);
    assert_eq!(state.clt_send_start_at(), Some(11));
    assert_eq!(state.clt_send_header_at(), Some(12));
    assert_eq!(state.clt_send_all_at(), Some(13));
}

#[test]
fn matching_length_is_transferred() {
    let mut state = RespmodAdaptationRunState::new();
    let mut stage = second_stage();
    stage.transfer(
        &mut state,
        1,
        RecvHttpEvent::HeaderParsed {
            content_length: Some(9),
        },
    );
    stage.transfer(&mut state, 2, RecvHttpEvent::HeaderSent);
    stage.transfer(
        &mut state,
        3,
        RecvHttpEvent::BodyTransferred {
            copied: 9,
            finished: true,
        },
    );
    assert_eq!(
        stage.transfer(&mut state, 4, RecvHttpEvent::TrailerRead(false)),
        RecvHttpAction::AdaptedTransferred
    );
    assert!(!stage.icap_read_finished());
}

#[test]
fn zero_length_with_a_body_is_a_violation() {
    let mut state = RespmodAdaptationRunState::new();
    let mut stage = second_stage();
    stage.transfer(
        &mut state,
        1,
        RecvHttpEvent::HeaderParsed {
            content_length: Some(0),
        },
    );
    assert_eq!(
        stage.transfer(&mut state, 2, RecvHttpEvent::HeaderSent),
        RecvHttpAction::Fail(H1RespmodAdaptationError::InvalidHttpBodyFromIcapServer(
            InvalidBodyDetail::ZeroContentLength
        ))
    );
    assert_eq!(state.clt_send_header_at(), Some(2));
    assert_eq!(state.clt_send_all_at(), None);
}

#[test]
fn body_without_length_is_handed_on_chunked() {
    let mut state = RespmodAdaptationRunState::new();
    let mut stage = second_stage();
    stage.transfer(
        &mut state,
        1,
        RecvHttpEvent::HeaderParsed {
            content_length: None,
        },
    );
    assert_eq!(
        stage.transfer(&mut state, 2, RecvHttpEvent::HeaderSent),
        RecvHttpAction::TransferBody
    );
    let mut clt = stage.client_body_transfer();
    assert_eq!(clt.poll(IoOutcome::Begin), PollStep::Io(IoRequest::Fill));
    assert_eq!(
        clt.poll(IoOutcome::Filled(b"3\r\nabc\r\n0\r\n\r\nXX")),
        PollStep::Io(IoRequest::Write)
    );
    assert_eq!(clt.consumed(), 13);
    assert_eq!(clt.pending_write(), b"3\r\nabc\r\n0\r\n\r\n");
    assert_eq!(clt.poll(IoOutcome::Wrote(13)), PollStep::Done(13));
    assert_eq!(
        stage.transfer(
            &mut state,
            3,
            RecvHttpEvent::BodyTransferred {
                copied: clt.copied_size(),
                finished: clt.finished()
            }
        ),
        RecvHttpAction::AdaptedTransferred
    );
    assert!(stage.icap_read_finished());
}

#[test]
fn body_with_length_is_decoded() {
    let mut state = RespmodAdaptationRunState::new();
    let mut stage = second_stage();
    stage.transfer(
        &mut state,
        1,
        RecvHttpEvent::HeaderParsed {
            content_length: Some(3),
        },
    );
    let mut clt = stage.client_body_transfer();
    assert_eq!(clt.poll(IoOutcome::Begin), PollStep::Io(IoRequest::Fill));
    assert_eq!(
        clt.poll(IoOutcome::Filled(b"3\r\nabc\r\n0\r\n\r\nXX")),
        PollStep::Io(IoRequest::Write)
    );
    assert_eq!(clt.consumed(), 11);
    assert_eq!(clt.pending_write(), b"abc");
}

#[test]
fn failed_header_send_blames_the_client() {
    let mut state = RespmodAdaptationRunState::new();
    let mut stage = second_stage();
    stage.transfer(
        &mut state,
        1,
        RecvHttpEvent::HeaderParsed {
            content_length: None,
        },
    );
    assert_eq!(
        stage.transfer(
            &mut state,
            2,
            RecvHttpEvent::HeaderSendFailed(IoFailure::Transport(32))
        ),
        RecvHttpAction::Fail(H1RespmodAdaptationError::HttpClientWriteFailed(
            IoFailure::Transport(32)
        ))
    );
    assert_eq!(state.clt_send_start_at(), Some(1));
    assert_eq!(state.clt_send_header_at(), None);
}

#[test]
fn events_out_of_turn_change_nothing() {
    let mut state = RespmodAdaptationRunState::new();
    let mut stage = second_stage();
    assert_eq!(
        stage.transfer(&mut state, 1, RecvHttpEvent::HeaderSent),
        RecvHttpAction::ParseHeader { max_size: 8192 }
    );
    assert_eq!(
        stage.transfer(&mut state, 2, RecvHttpEvent::TrailerRead(true)),
        RecvHttpAction::ParseHeader { max_size: 8192 }
    );
    assert_eq!(stage.phase(), RecvHttpPhase::ParseHeader);
    assert_eq!(state.clt_send_start_at(), None);
    assert!(!stage.icap_read_finished());
}

#[test]
fn timeline_marks_are_set_once_and_in_order() {
    let mut state = RespmodAdaptationRunState::new();
    assert!(!state.mark_clt_send_header(5));
    assert!(!state.mark_clt_send_all(5));
    assert_eq!(state.clt_send_header_at(), None);
    assert_eq!(state.clt_send_all_at(), None);
    assert!(state.mark_clt_send_start(10));
    assert!(!state.mark_clt_send_start(20));
    assert_eq!(state.clt_send_start_at(), Some(10));
    assert!(!state.mark_clt_send_all(11));
    assert!(state.mark_clt_send_header(7));
    assert_eq!(state.clt_send_header_at(), Some(10));
    assert!(!state.mark_clt_send_header(30));
    assert!(state.mark_clt_send_all(40));
    assert!(!state.mark_clt_send_all(50));
    assert_eq!(state.clt_send_start_at(), Some(10));
    assert_eq!(state.clt_send_header_at(), Some(10));
    assert_eq!(state.clt_send_all_at(), Some(40));
}

#[test]
fn second_stage_maps_leg_events() {
    let policy = MaxIdleCount { max_idle_count: 3 };
    let mut stage = second_stage();
    let mut ups = starved_upstream_leg();
    let mut clt = stage.client_body_transfer();
    assert_eq!(
        stage.do_transfer(&policy, &mut ups, &mut clt, LegEvent::ClientDone),
        DoTransferStep::Done
    );
    assert_eq!(
        stage.do_transfer(
            &policy,
            &mut ups,
            &mut clt,
            LegEvent::ClientFailed(StreamCopyError::ReadFailed(IoFailure::UnexpectedEof))
        ),
        DoTransferStep::Fail(H1RespmodAdaptationError::IcapServerReadFailed(
            IoFailure::UnexpectedEof
        ))
    );
    assert_eq!(
        stage.do_transfer(
            &policy,
            &mut ups,
            &mut clt,
            LegEvent::ClientFailed(StreamCopyError::WriteFailed(IoFailure::WriteZero))
        ),
        DoTransferStep::Fail(H1RespmodAdaptationError::HttpClientWriteFailed(
            IoFailure::WriteZero
        ))
    );
    assert_eq!(
        stage.do_transfer(
            &policy,
            &mut ups,
            &mut clt,
            LegEvent::UpstreamFailed(StreamCopyError::ReadFailed(IoFailure::Transport(5)))
        ),
        DoTransferStep::Fail(H1RespmodAdaptationError::HttpUpstreamReadFailed(
            IoFailure::Transport(5)
        ))
    );
    assert_eq!(
        stage.do_transfer(
            &policy,
            &mut ups,
            &mut clt,
            LegEvent::UpstreamFailed(StreamCopyError::WriteFailed(IoFailure::Transport(5)))
        ),
        DoTransferStep::Fail(H1RespmodAdaptationError::IcapServerWriteFailed(
            IoFailure::Transport(5)
        ))
    );
    assert_eq!(
        stage.do_transfer(&policy, &mut ups, &mut clt, LegEvent::UpstreamDone),
        DoTransferStep::DrainClient
    );
    // the client leg alone is not checked for idleness
    for _ in 0..10 {
        assert_eq!(
            stage.do_transfer(&policy, &mut ups, &mut clt, LegEvent::IdleTick(1)),
            DoTransferStep::DrainClient
        );
    }
}

#[test]
fn both_legs_idle_blame_the_upstream_side() {
    let policy = MaxIdleCount { max_idle_count: 2 };
    let mut stage = second_stage();
    let mut ups = stalled_upstream_leg();
    let mut clt = stage.client_body_transfer();
    // the upstream leg made progress before the first tick
    assert_eq!(
        stage.do_transfer(&policy, &mut ups, &mut clt, LegEvent::IdleTick(1)),
        DoTransferStep::Continue
    );
    assert_eq!(
        stage.do_transfer(&policy, &mut ups, &mut clt, LegEvent::IdleTick(1)),
        DoTransferStep::Continue
    );
    assert_eq!(
        stage.do_transfer(&policy, &mut ups, &mut clt, LegEvent::IdleTick(1)),
        DoTransferStep::Fail(H1RespmodAdaptationError::IcapServerWriteIdle)
    );

    let mut stage = second_stage();
    let mut ups = starved_upstream_leg();
    assert_eq!(
        stage.do_transfer(&policy, &mut ups, &mut clt, LegEvent::IdleTick(2)),
        DoTransferStep::Fail(H1RespmodAdaptationError::HttpUpstreamReadIdle)
    );
}

#[test]
fn an_active_client_leg_keeps_the_task_alive() {
    let policy = MaxIdleCount { max_idle_count: 1 };
    let mut stage = second_stage();
    let mut ups = starved_upstream_leg();
    let mut clt = stage.client_body_transfer();
    assert_eq!(clt.poll(IoOutcome::Begin), PollStep::Io(IoRequest::Fill));
    assert_eq!(
        clt.poll(IoOutcome::Filled(b"3\r\nabc")),
        PollStep::Io(IoRequest::Write)
    );
    assert!(clt.is_active());
    assert_eq!(
        stage.do_transfer(&policy, &mut ups, &mut clt, LegEvent::IdleTick(1)),
        DoTransferStep::Continue
    );
    assert!(clt.is_idle());
    assert_eq!(
        stage.do_transfer(&policy, &mut ups, &mut clt, LegEvent::IdleTick(1)),
        DoTransferStep::Fail(H1RespmodAdaptationError::HttpUpstreamReadIdle)
    );
}

#[test]
fn errors_know_whether_they_blame_idleness() {
    assert!(H1RespmodAdaptationError::HttpUpstreamReadIdle.is_idle());
    assert!(H1RespmodAdaptationError::IcapServerWriteIdle.is_idle());
    assert!(H1RespmodAdaptationError::IcapServerReadIdle.is_idle());
    assert!(H1RespmodAdaptationError::HttpClientWriteIdle.is_idle());
    assert!(!H1RespmodAdaptationError::IcapServerConnectionClosed.is_idle());
    assert!(
        !H1RespmodAdaptationError::IdleForceQuit(IdleForceQuitReason::ServerQuit).is_idle()
    );
}

#[test]
fn reply_shapes() {
    let status_only = IcapResponseShape::StatusOnly;
    assert!(!status_only.has_adapted_body());
    assert!(!status_only.is_violation());
    assert!(status_only.header_parsed().is_none());

    let chunked = IcapResponseShape::Adapted {
        content_length: None,
    };
    assert!(chunked.has_adapted_body());
    assert!(!chunked.is_violation());
    assert!(matches!(
        chunked.header_parsed(),
        Some(RecvHttpEvent::HeaderParsed {
            content_length: None
        })
    ));

    let sized = IcapResponseShape::Adapted {
        content_length: Some(100),
    };
    assert!(!sized.is_violation());
    assert!(matches!(
        sized.header_parsed(),
        Some(RecvHttpEvent::HeaderParsed {
            content_length: Some(100)
        })
    ));

    let empty = IcapResponseShape::Adapted {
        content_length: Some(0),
    };
    assert!(empty.is_violation());
}

#[test]
fn events_at_hand_are_taken_by_precedence() {
    let done: Option<Result<(), StreamCopyError>> = Some(Ok(()));
    let failed: Option<Result<(), StreamCopyError>> =
        Some(Err(StreamCopyError::WriteFailed(IoFailure::WriteZero)));
    let ready: Option<Result<bool, IoFailure>> = Some(Ok(true));
    let broken: Option<Result<bool, IoFailure>> = Some(Err(IoFailure::Transport(9)));
    assert!(matches!(
        RecvIcapEvent::by_precedence(done, ready, Some(1)),
        Some(RecvIcapEvent::UpstreamDone)
    ));
    assert!(matches!(
        RecvIcapEvent::by_precedence(failed, ready, Some(1)),
        Some(RecvIcapEvent::UpstreamFailed(StreamCopyError::WriteFailed(
            IoFailure::WriteZero
        )))
    ));
    assert!(matches!(
        RecvIcapEvent::by_precedence(None, ready, Some(1)),
        Some(RecvIcapEvent::IcapReaderReady(true))
    ));
    assert!(matches!(
        RecvIcapEvent::by_precedence(None, broken, Some(1)),
        Some(RecvIcapEvent::IcapReaderFailed(IoFailure::Transport(9)))
    ));
    assert!(matches!(
        RecvIcapEvent::by_precedence(None, None, Some(3)),
        Some(RecvIcapEvent::IdleTick(3))
    ));
    assert!(RecvIcapEvent::by_precedence(None, None, None).is_none());
}

#[test]
fn errors_name_the_side_that_failed() {
    let read = StreamCopyError::ReadFailed(IoFailure::Transport(1));
    let write = StreamCopyError::WriteFailed(IoFailure::Transport(2));
    assert_eq!(
        H1RespmodAdaptationError::from_upstream_leg(read),
        H1RespmodAdaptationError::HttpUpstreamReadFailed(IoFailure::Transport(1))
    );
    assert_eq!(
        H1RespmodAdaptationError::from_upstream_leg(write),
        H1RespmodAdaptationError::IcapServerWriteFailed(IoFailure::Transport(2))
    );
    assert_eq!(
        H1RespmodAdaptationError::from_client_leg(read),
        H1RespmodAdaptationError::IcapServerReadFailed(IoFailure::Transport(1))
    );
    assert_eq!(
        H1RespmodAdaptationError::from_client_leg(write),
        H1RespmodAdaptationError::HttpClientWriteFailed(IoFailure::Transport(2))
    );
    assert_eq!(
        H1RespmodAdaptationError::from_idle_blame(IdleBlame::HttpUpstreamRead),
        H1RespmodAdaptationError::HttpUpstreamReadIdle
    );
    assert_eq!(
        H1RespmodAdaptationError::from_idle_blame(IdleBlame::IcapServerWrite),
        H1RespmodAdaptationError::IcapServerWriteIdle
    );
    assert_eq!(
        H1RespmodAdaptationError::from_idle_blame(IdleBlame::IcapServerRead),
        H1RespmodAdaptationError::IcapServerReadIdle
    );
    assert_eq!(
        H1RespmodAdaptationError::from_idle_blame(IdleBlame::HttpClientWrite),
        H1RespmodAdaptationError::HttpClientWriteIdle
    );
}

#[test]
fn forced_quit_goes_before_idleness_in_both_stages() {
    let policy = QuitAndForced(IdleForceQuitReason::ServerQuit);
    let forced = H1RespmodAdaptationError::IdleForceQuit(IdleForceQuitReason::ServerQuit);

    // an idle leg that holds nothing, and one that holds unsent bytes
    let mut stage = BidirectionalRecvIcapResponse::new();
    let mut leg = starved_upstream_leg();
    assert!(leg.is_idle());
    assert_eq!(
        stage.transfer_and_recv(&policy, &mut leg, RecvIcapEvent::IdleTick(1)),
        RecvIcapStep::Fail(forced)
    );
    assert_eq!(stage.idle_count(), 1);
    let mut stage = BidirectionalRecvIcapResponse::new();
    let mut leg = stalled_upstream_leg();
    leg.reset_active();
    assert_eq!(
        stage.transfer_and_recv(&policy, &mut leg, RecvIcapEvent::IdleTick(1)),
        RecvIcapStep::Fail(forced)
    );

    // both legs idle, and one leg active
    let mut stage = second_stage();
    let mut ups = starved_upstream_leg();
    let mut clt = stage.client_body_transfer();
    assert_eq!(
        stage.do_transfer(&policy, &mut ups, &mut clt, LegEvent::IdleTick(1)),
        DoTransferStep::Fail(forced)
    );
    let mut stage = second_stage();
    let mut ups = stalled_upstream_leg();
    assert!(!ups.is_idle());
    assert_eq!(
        stage.do_transfer(&policy, &mut ups, &mut clt, LegEvent::IdleTick(1)),
        DoTransferStep::Fail(forced)
    );
    assert!(ups.is_idle());
}
