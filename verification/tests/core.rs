use netbeat::broadcast::{deliver, render_status};
use netbeat::config::CoreConfig;
use netbeat::probe::{rate_centi_mbps, ProbeResult, ProbeState, TransportKind};
use netbeat::scheduler::TickAction;
use netbeat::session::{ConnectionSession, FrameAction, InboundFrame, SessionState};
use netbeat::timing::elapsed_ms;

#[test]
fn default_config_matches_reference() {
    let c = CoreConfig::default();
    assert_eq!(c.heartbeat_interval_ms, 1000);
    assert_eq!(c.timeout_threshold_ms, 2000);
    assert_eq!(c.probe_duration_ms, 1000);
    assert_eq!(c.probe_payload_len, 1024);
}

#[test]
fn elapsed_saturates_at_zero() {
    assert_eq!(elapsed_ms(10, 3), 7);
    assert_eq!(elapsed_ms(3, 10), 0);
    assert_eq!(elapsed_ms(5, 5), 0);
}

#[test]
fn rate_is_recorded_quotient() {
    // 1 MiB in one second is exactly 1.00 MB/s.
    assert_eq!(rate_centi_mbps(1048576, 1000), 100);
    // Half a MiB in one second is 0.50 MB/s.
    assert_eq!(rate_centi_mbps(524288, 1000), 50);
    // A tiny partial result rounds down to zero.
    assert_eq!(rate_centi_mbps(3072, 500), 0);
    // The largest recordable byte count still fits.
    assert_eq!(rate_centi_mbps(u64::MAX, 1), 1759218604441599999);
}

#[test]
fn rate_with_no_elapsed_time_is_zero() {
    assert_eq!(rate_centi_mbps(0, 0), 0);
    assert_eq!(rate_centi_mbps(123456, 0), 0);
}

#[test]
fn first_send_failure_reports_zero_rate() {
    let mut p = ProbeState::start(TransportKind::Datagram, 1024, 1000, 500);
    assert!(p.should_continue(500));
    p.record_send_failure();
    assert!(!p.should_continue(600));
    assert_eq!(p.measured_rate(1500), 0);
}

#[test]
fn probe_accumulates_successful_sends() {
    let mut p = ProbeState::start(TransportKind::Stream, 1024, 1000, 0);
    for _ in 0..1024 {
        assert!(p.should_continue(900));
        p.record_send_ok();
    }
    assert_eq!(p.bytes_sent, 1048576);
    // The duration elapsed: the loop stops without a failure.
    assert!(!p.should_continue(1000));
    assert_eq!(p.measured_rate(1000), 100);
}

#[test]
fn probe_keeps_partial_result_after_failure() {
    let mut p = ProbeState::start(TransportKind::Stream, 524288, 1000, 0);
    p.record_send_ok();
    p.record_send_failure();
    assert_eq!(p.bytes_sent, 524288);
    assert_eq!(p.measured_rate(1000), 50);
}

#[test]
fn tick_just_past_threshold_closes() {
    let t0: u64 = 1000;
    let mut s = ConnectionSession::new(1, t0);
    let a = s.on_scheduler_tick(t0 + 2000 + 1, 2000);
    assert_eq!(a, TickAction::CloseTimeout);
    assert_eq!(s.state, SessionState::Closing);
}

#[test]
fn tick_within_threshold_does_not_close() {
    let t0: u64 = 1000;
    let mut s = ConnectionSession::new(1, t0);
    let a = s.on_scheduler_tick(t0 + 2000 - 1, 2000);
    assert_eq!(a, TickAction::ProbeAndPing);
    assert_eq!(s.state, SessionState::Active);
    // Exactly at the threshold the timeout is not yet strict.
    let a = s.on_scheduler_tick(t0 + 2000, 2000);
    assert_eq!(a, TickAction::ProbeAndPing);
    assert_eq!(s.state, SessionState::Active);
}

#[test]
fn frequent_signals_keep_session_active() {
    let mut s = ConnectionSession::new(9, 0);
    let mut t: u64 = 0;
    // Signals every 1500 ms, ticks every 1000 ms, threshold 2000 ms.
    for round in 1..20u64 {
        t = round * 1500;
        let a = s.handle_frame(InboundFrame::Pong(Vec::new()), t);
        assert_eq!(a, FrameAction::NoAction);
        let tick = s.on_scheduler_tick(t + 1000, 2000);
        assert_eq!(tick, TickAction::ProbeAndPing);
        assert_eq!(s.state, SessionState::Active);
        assert_eq!(s.last_heartbeat, t);
    }
}

#[test]
fn heartbeat_reads_return_written_values() {
    let mut s = ConnectionSession::new(4, 10);
    assert_eq!(s.read_last_heartbeat(), 10);
    s.handle_frame(InboundFrame::Ping(vec![1, 2]), 25);
    assert_eq!(s.read_last_heartbeat(), 25);
    s.handle_frame(InboundFrame::Text(String::from("hi")), 40);
    assert_eq!(s.read_last_heartbeat(), 40);
}

#[test]
fn ping_is_answered_and_refreshes_liveness() {
    let mut s = ConnectionSession::new(2, 0);
    let a = s.handle_frame(InboundFrame::Ping(vec![7, 8, 9]), 5);
    assert_eq!(a, FrameAction::SendPong(vec![7, 8, 9]));
    assert_eq!(s.last_heartbeat, 5);
    assert_eq!(s.state, SessionState::Active);
}

#[test]
fn text_is_echoed_and_refreshes_liveness() {
    let mut s = ConnectionSession::new(2, 0);
    let a = s.handle_frame(InboundFrame::Text(String::from("hello")), 3);
    assert_eq!(a, FrameAction::EchoText(String::from("hello")));
    assert_eq!(s.last_heartbeat, 3);
}

#[test]
fn close_request_is_acknowledged_then_confirmed() {
    let mut s = ConnectionSession::new(2, 0);
    let a = s.handle_frame(InboundFrame::CloseRequest(Some(1000)), 4);
    assert_eq!(a, FrameAction::SendCloseAck(Some(1000)));
    assert_eq!(s.state, SessionState::Closing);
    // A probe result that finishes once closure began is discarded.
    let late = ProbeResult {
        stream_rate_centi_mbps: 100,
        datagram_rate_centi_mbps: 50,
        measured_at: 5,
    };
    assert!(deliver(&s, &late).is_none());
    s.on_close_confirmed();
    assert_eq!(s.state, SessionState::Closed);
}

#[test]
fn malformed_frame_closes_outright() {
    let mut s = ConnectionSession::new(2, 0);
    let a = s.handle_frame(InboundFrame::Malformed, 4);
    assert_eq!(a, FrameAction::NoAction);
    assert_eq!(s.state, SessionState::Closed);
}

#[test]
fn closed_session_ignores_frames_and_ticks() {
    let mut s = ConnectionSession::new(2, 0);
    s.handle_frame(InboundFrame::Malformed, 1);
    assert_eq!(s.state, SessionState::Closed);
    let a = s.handle_frame(InboundFrame::Ping(vec![1]), 8);
    assert_eq!(a, FrameAction::NoAction);
    assert_eq!(s.last_heartbeat, 0);
    let tick = s.on_scheduler_tick(5000, 2000);
    assert_eq!(tick, TickAction::Stop);
    assert_eq!(s.state, SessionState::Closed);
}

#[test]
fn status_message_has_two_decimal_places() {
    let r = ProbeResult {
        stream_rate_centi_mbps: 1234,
        datagram_rate_centi_mbps: 5,
        measured_at: 0,
    };
    let msg = render_status(&r);
    assert_eq!(msg, "TCP Speed: 12.34 MB/s\nUDP Speed: 0.05 MB/s");
    let r = ProbeResult {
        stream_rate_centi_mbps: 0,
        datagram_rate_centi_mbps: 100,
        measured_at: 0,
    };
    let msg = render_status(&r);
    assert_eq!(msg, "TCP Speed: 0.00 MB/s\nUDP Speed: 1.00 MB/s");
}

#[test]
fn alive_session_end_to_end_gets_status_broadcast() {
    // Session created, liveness signal at t = 0, tick at t = 1000: no
    // timeout, a probe cycle runs, the broadcaster delivers the status text.
    let mut s = ConnectionSession::new(11, 0);
    s.handle_frame(InboundFrame::Pong(Vec::new()), 0);
    let tick = s.on_scheduler_tick(1000, 2000);
    assert_eq!(tick, TickAction::ProbeAndPing);

    let mut stream = ProbeState::start(TransportKind::Stream, 1024, 1000, 1000);
    let mut datagram = ProbeState::start(TransportKind::Datagram, 1024, 1000, 1000);
    for _ in 0..1024 {
        stream.record_send_ok();
    }
    for _ in 0..512 {
        datagram.record_send_ok();
    }
    let result = ProbeResult::combine(&stream, &datagram, 2000);
    assert_eq!(result.stream_rate_centi_mbps, 100);
    assert_eq!(result.datagram_rate_centi_mbps, 50);
    assert_eq!(result.measured_at, 2000);

    let msg = deliver(&s, &result);
    let text = msg.expect("an active session gets the broadcast");
    assert_eq!(text, "TCP Speed: 1.00 MB/s\nUDP Speed: 0.50 MB/s");
    // The shape promised to the client: digits, a point, two digits, per line.
    for line in text.lines() {
        let rate = line
            .strip_prefix("TCP Speed: ")
            .or_else(|| line.strip_prefix("UDP Speed: "))
            .and_then(|r| r.strip_suffix(" MB/s"))
            .expect("each line carries one labelled rate");
        let (whole, frac) = rate.split_once('.').expect("a decimal point");
        assert!(!whole.is_empty() && whole.bytes().all(|b| b.is_ascii_digit()));
        assert_eq!(frac.len(), 2);
        assert!(frac.bytes().all(|b| b.is_ascii_digit()));
    }
}

#[test]
fn silent_session_end_to_end_times_out_and_gets_nothing() {
    // Session created, no liveness signal: once the threshold elapses the
    // session closes and no further broadcast is delivered.
    let mut s = ConnectionSession::new(12, 0);
    let tick = s.on_scheduler_tick(2001, 2000);
    assert_eq!(tick, TickAction::CloseTimeout);
    assert_eq!(s.state, SessionState::Closing);
    s.on_close_confirmed();
    assert_eq!(s.state, SessionState::Closed);

    let result = ProbeResult {
        stream_rate_centi_mbps: 100,
        datagram_rate_centi_mbps: 100,
        measured_at: 2500,
    };
    assert!(deliver(&s, &result).is_none());
    assert_eq!(s.on_scheduler_tick(3000, 2000), TickAction::Stop);
}
