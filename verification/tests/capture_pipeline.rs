use mtgo_capture::channel::PacketChannel;
use mtgo_capture::channel::SendOutcome;
use mtgo_capture::engine::CaptureEngine;
use mtgo_capture::engine::CaptureEvent;
use mtgo_capture::engine::LoopState;
use mtgo_capture::engine::StepOutcome;
use mtgo_capture::engine::StopReason;
use mtgo_capture::engine::CHANNEL_CAPACITY;
use mtgo_capture::packet::CaptureStats;
use mtgo_capture::packet::CapturedPacket;
use mtgo_capture::session::CaptureState;
use mtgo_capture::admin::DriverProbe;
use mtgo_capture::admin::PrivilegeProbe;

const T0: i64 = 1_700_000_000_000;

fn ok_probe() -> DriverProbe {
    DriverProbe {
        exe_dir_known: true,
        exe_dll64: true,
        exe_dll32: false,
        exe_sys64: true,
        exe_sys32: false,
        drivers_sys64: false,
        drivers_sys32: false,
    }
}

fn elevated() -> PrivilegeProbe {
    PrivilegeProbe {
        query_succeeded: true,
        token_elevated: true,
        failure_cause: String::new(),
    }
}

fn started_session() -> CaptureState {
    let mut st = CaptureState::new();
    let r = st.start_capture(&elevated(), &ok_probe(), Ok(()), T0);
    assert!(r.is_ok());
    st
}

fn feed(st: &mut CaptureState, data: Vec<u8>, ts: i64) -> StepOutcome {
    st.on_capture_event(CaptureEvent::Packet(data, ts))
}

#[test]
fn captured_packet_caches_its_length() {
    let p = CapturedPacket::new(vec![1, 2, 3, 4], T0);
    assert_eq!(p.length, 4);
    assert_eq!(p.data, vec![1, 2, 3, 4]);
    assert_eq!(p.timestamp, T0);
}

#[test]
fn stats_record_accumulates() {
    let mut stats = CaptureStats::new();
    stats.record(100, T0);
    stats.record(250, T0 + 5);
    assert_eq!(stats.packet_count, 2);
    assert_eq!(stats.bytes_captured, 350);
    assert_eq!(stats.last_packet_time, Some(T0 + 5));
}

#[test]
fn channel_is_fifo_and_bounded() {
    let mut c = PacketChannel::new(2);
    let a = CapturedPacket::new(vec![1], T0);
    let b = CapturedPacket::new(vec![2], T0 + 1);
    let x = CapturedPacket::new(vec![3], T0 + 2);
    assert!(matches!(c.try_send(a), SendOutcome::Sent));
    assert!(matches!(c.try_send(b), SendOutcome::Sent));
    match c.try_send(x) {
        SendOutcome::Full(returned) => assert_eq!(returned.data, vec![3]),
        _ => panic!("a full channel must hand the packet back"),
    }
    assert_eq!(c.len(), 2);
    let first = c.recv().unwrap();
    assert_eq!(first.data, vec![1]);
    let second = c.recv().unwrap();
    assert_eq!(second.data, vec![2]);
    assert!(c.recv().is_none());
}

#[test]
fn closed_channel_refuses_packets() {
    let mut c = PacketChannel::new(2);
    c.close();
    let p = CapturedPacket::new(vec![7], T0);
    match c.try_send(p) {
        SendOutcome::Closed(returned) => assert_eq!(returned.data, vec![7]),
        _ => panic!("a closed channel must report itself closed"),
    }
}

#[test]
fn consumer_observes_packets_in_capture_order() {
    let mut st = started_session();
    for i in 0..10u8 {
        let out = feed(&mut st, vec![i; 5], T0 + i as i64);
        assert!(matches!(out, StepOutcome::Forwarded(_)));
    }
    for i in 0..10u8 {
        let p = st.take_captured().expect("every forwarded packet is delivered");
        assert_eq!(p.data, vec![i; 5]);
        assert_eq!(p.timestamp, T0 + i as i64);
    }
    assert!(st.take_captured().is_none());
}

#[test]
fn counters_match_count_and_exact_byte_sum() {
    let mut st = started_session();
    let sizes: [usize; 5] = [1, 10, 100, 1000, 1500];
    for (i, n) in sizes.iter().enumerate() {
        feed(&mut st, vec![0xAB; *n], T0 + i as i64);
    }
    let status = st.get_capture_status();
    assert_eq!(status.packet_count, 5);
    let engine = st.engine.as_ref().unwrap();
    assert_eq!(engine.stats.bytes_captured, 2611);
    assert_eq!(engine.stats.packet_count, 5);
}

#[test]
fn start_while_running_fails_and_changes_nothing() {
    let mut st = started_session();
    feed(&mut st, vec![0; 8], T0 + 1);
    let before = st.get_capture_status();
    let r = st.start_capture(&elevated(), &ok_probe(), Ok(()), T0 + 2);
    assert_eq!(r.unwrap_err(), "Capture is already running");
    let after = st.get_capture_status();
    assert!(after.is_running);
    assert_eq!(after.packet_count, before.packet_count);
    assert_eq!(after.bytes_per_second, before.bytes_per_second);
    assert_eq!(after.last_packet_time, before.last_packet_time);
}

#[test]
fn stop_while_not_running_fails() {
    let mut st = CaptureState::new();
    let r = st.stop_capture();
    assert_eq!(r.unwrap_err(), "Capture is not running");
}

#[test]
fn stop_twice_fails_the_second_time() {
    let mut st = started_session();
    assert!(st.stop_capture().is_ok());
    let r = st.stop_capture();
    assert_eq!(r.unwrap_err(), "Capture is not running");
}

#[test]
fn send_beyond_capacity_blocks_without_loss() {
    let mut st = started_session();
    for i in 0..CHANNEL_CAPACITY {
        let out = feed(&mut st, vec![(i % 251) as u8; 4], T0 + i as i64);
        assert!(matches!(out, StepOutcome::Forwarded(_)));
    }
    let out = feed(&mut st, vec![0xFF; 4], T0 + CHANNEL_CAPACITY as i64);
    assert!(matches!(out, StepOutcome::WouldBlock));
    {
        let engine = st.engine.as_ref().unwrap();
        assert_eq!(engine.channel.queue.len(), CHANNEL_CAPACITY);
        assert!(engine.pending.is_some());
        assert!(matches!(engine.state, LoopState::Running));
    }
    let status = st.get_capture_status();
    assert_eq!(status.packet_count, (CHANNEL_CAPACITY + 1) as u64);
    let first = st.take_captured().unwrap();
    assert_eq!(first.data, vec![0; 4]);
    {
        let engine = st.engine.as_ref().unwrap();
        assert_eq!(engine.channel.queue.len(), CHANNEL_CAPACITY);
        assert!(engine.pending.is_none());
    }
    for i in 1..=CHANNEL_CAPACITY {
        let p = st.take_captured().unwrap();
        if i < CHANNEL_CAPACITY {
            assert_eq!(p.data, vec![(i % 251) as u8; 4]);
        } else {
            assert_eq!(p.data, vec![0xFF; 4]);
        }
    }
    assert!(st.take_captured().is_none());
}

#[test]
fn closed_consumer_stops_the_loop() {
    let mut st = started_session();
    st.engine.as_mut().unwrap().close_channel();
    let out = feed(&mut st, vec![1, 2, 3], T0 + 1);
    assert!(matches!(out, StepOutcome::Exited(StopReason::ChannelClosed)));
    assert!(matches!(
        st.engine.as_ref().unwrap().state,
        LoopState::Stopped(StopReason::ChannelClosed)
    ));
}

#[test]
fn read_error_stops_the_loop() {
    let mut st = started_session();
    let out = st.on_capture_event(CaptureEvent::ReadError(String::from("handle revoked")));
    assert!(matches!(out, StepOutcome::Exited(StopReason::Error)));
    assert!(matches!(
        st.engine.as_ref().unwrap().state,
        LoopState::Stopped(StopReason::Error)
    ));
}

#[test]
fn shutdown_request_stops_the_loop_gracefully() {
    let mut st = started_session();
    let out = st.on_capture_event(CaptureEvent::ShutdownRequested);
    assert!(matches!(out, StepOutcome::Exited(StopReason::Graceful)));
    assert!(matches!(
        st.engine.as_ref().unwrap().state,
        LoopState::Stopped(StopReason::Graceful)
    ));
}

#[test]
fn timeout_is_observed_and_ignored() {
    let mut st = started_session();
    let out = st.on_capture_event(CaptureEvent::Timeout);
    assert!(matches!(out, StepOutcome::Continued));
    assert_eq!(st.get_capture_status().packet_count, 0);
}

#[test]
fn throughput_rate_is_exact_over_the_window() {
    let mut engine = CaptureEngine::new(0);
    for _ in 0..599 {
        let out = engine.step(CaptureEvent::Packet(vec![0; 1500], 0));
        assert!(matches!(out, StepOutcome::Forwarded(None)));
    }
    let out = engine.step(CaptureEvent::Packet(vec![0; 1500], 1100));
    // 600 packets of 1500 bytes in 1.1 s: 900000 * 1000 / 1100 B/s, and the
    // 600th packet reports the volume comparison: far above 10 MiB/hour.
    assert!(matches!(out, StepOutcome::Forwarded(Some(true))));
    assert_eq!(engine.rate_bps, 818_181);
    assert_eq!(engine.bytes_at_last_check, 900_000);
    assert_eq!(engine.last_check_ms, 1100);
}

#[test]
fn quiet_traffic_reports_within_threshold() {
    let mut engine = CaptureEngine::new(0);
    for _ in 0..599 {
        engine.step(CaptureEvent::Packet(vec![0; 1], 0));
    }
    let out = engine.step(CaptureEvent::Packet(vec![0; 1], 1100));
    // 600 bytes in 1.1 s lies far under the 10 MiB/hour reference.
    assert!(matches!(out, StepOutcome::Forwarded(Some(false))));
    assert_eq!(engine.rate_bps, 545);
}

#[test]
fn status_renders_last_packet_time_as_rfc3339() {
    let mut st = started_session();
    feed(&mut st, vec![1, 2, 3], 1_700_000_000_000);
    let status = st.get_capture_status();
    assert_eq!(
        status.last_packet_time,
        Some(String::from("2023-11-14T22:13:20+00:00"))
    );
}

#[test]
fn fresh_session_reports_idle() {
    let st = CaptureState::default();
    let status = st.get_capture_status();
    assert!(!status.is_running);
    assert_eq!(status.packet_count, 0);
    assert_eq!(status.bytes_per_second, 0);
    assert_eq!(status.last_packet_time, None);
}

#[test]
fn start_reports_gate_failure_and_stays_idle() {
    let mut st = CaptureState::new();
    let probe = DriverProbe {
        exe_dir_known: false,
        exe_dll64: false,
        exe_dll32: false,
        exe_sys64: false,
        exe_sys32: false,
        drivers_sys64: false,
        drivers_sys32: false,
    };
    let r = st.start_capture(&elevated(), &probe, Ok(()), T0);
    assert_eq!(
        r.unwrap_err(),
        "WinDivert driver not found. Please download WinDivert 2.2.2-A from https://reqrypt.org/windivert.html and place WinDivert.dll and WinDivert64.sys in the application directory."
    );
    assert!(!st.get_capture_status().is_running);
}

#[test]
fn start_without_elevation_fails_and_stays_idle() {
    let mut st = CaptureState::new();
    let unelevated = PrivilegeProbe { token_elevated: false, ..elevated() };
    let r = st.start_capture(&unelevated, &ok_probe(), Ok(()), T0);
    assert_eq!(
        r.unwrap_err(),
        "Application requires Administrator privileges to capture network traffic. Please restart the application as Administrator."
    );
    assert!(!st.get_capture_status().is_running);
    assert!(st.engine.is_none());
}

#[test]
fn start_with_failed_privilege_query_fails_and_stays_idle() {
    let mut st = CaptureState::new();
    let failed = PrivilegeProbe {
        query_succeeded: false,
        token_elevated: false,
        failure_cause: String::from("token query failed"),
    };
    let r = st.start_capture(&failed, &ok_probe(), Ok(()), T0);
    assert_eq!(
        r.unwrap_err(),
        "Failed to detect administrator privileges: token query failed"
    );
    assert!(!st.get_capture_status().is_running);
}

#[test]
fn start_reports_open_failure_and_stays_idle() {
    let mut st = CaptureState::new();
    let r = st.start_capture(&elevated(), &ok_probe(), Err(String::from("driver not loaded")), T0);
    assert_eq!(
        r.unwrap_err(),
        "Failed to initialize WinDivert handle: driver not loaded"
    );
    assert!(!st.get_capture_status().is_running);
    assert!(st.engine.is_none());
}

#[test]
fn end_to_end_capture_run() {
    let mut st = CaptureState::new();
    let started = st.start_capture(&elevated(), &ok_probe(), Ok(()), T0).unwrap();
    assert!(started.is_running);
    assert_eq!(started.packet_count, 0);
    assert_eq!(started.bytes_per_second, 0);
    assert_eq!(started.last_packet_time, None);

    for i in 0..650i64 {
        let out = feed(&mut st, vec![0x5A; 100], T0 + 10 * i);
        assert!(matches!(out, StepOutcome::Forwarded(_)));
    }

    let status = st.get_capture_status();
    assert!(status.is_running);
    assert_eq!(status.packet_count, 650);
    assert!(status.bytes_per_second > 0);

    let stopped = st.stop_capture().unwrap();
    assert!(!stopped.is_running);
    assert_eq!(stopped.packet_count, 650);
    assert!(!st.get_capture_status().is_running);
}
