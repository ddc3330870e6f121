use callisto::itm::ItmProcessor;
use callisto::protocol::{ItmFrame, PortConfig, TraceEvent};
use callisto::session::{event_kind_name, ItmSession, SessionMessage, SessionStats};

fn frame(port: u8, payload: &[u8]) -> Vec<u8> {
    let mut v = vec![port, payload.len() as u8];
    v.extend_from_slice(payload);
    v
}

fn sample_stream() -> Vec<u8> {
    let mut s = Vec::new();
    s.extend(frame(0, b"boot ok\nhal"));
    s.push(0xFF);
    s.extend(frame(1, &[0x01, 1, 0, 0, 0, 2, 0, 0, 0]));
    s.extend(frame(2, &[0x2A, 0, 0, 0]));
    s.extend(frame(0, b"f\n"));
    s.extend(frame(3, &[1, 0, 0, 0, 5, 0, 0, 0, 0, 0, 0, 0]));
    s.extend(frame(6, b"not enabled"));
    s.extend(frame(0, b"tail"));
    s
}

fn event(timestamp: u64, port: u8, event: TraceEvent) -> SessionMessage {
    SessionMessage::Event { timestamp, port, event }
}

#[test]
fn processor_reassembles_split_frames() {
    let mut p = ItmProcessor::new();
    assert!(p.process_data(&[0, 3, b'a']).is_empty());
    let frames = p.process_data(&[b'b', b'c', 0x80, 5, 1, 7]);
    assert_eq!(
        frames,
        vec![
            ItmFrame { port: 0, data: b"abc".to_vec(), timestamp: Some(1000) },
            ItmFrame { port: 5, data: vec![7], timestamp: Some(2000) },
        ]
    );
    let frames = p.process_data(&[31, 0]);
    assert_eq!(frames, vec![ItmFrame { port: 31, data: vec![], timestamp: Some(3000) }]);
}

#[test]
fn processor_reset_drops_partial_frame_and_clock() {
    let mut p = ItmProcessor::new();
    assert!(p.process_data(&[1, 5, 0]).is_empty());
    assert!(p.process_data(&[2, 4]).is_empty());
    p.reset();
    let frames = p.process_data(&[3, 1, 0xAA]);
    assert_eq!(frames, vec![ItmFrame { port: 3, data: vec![0xAA], timestamp: Some(1000) }]);
}

#[test]
fn session_decodes_and_forwards_in_order() {
    let mut s = ItmSession::new();
    let started = s.start_tracing(0x0F, None, 100).unwrap();
    assert_eq!(started.len(), 2);
    assert_eq!(
        started[0],
        SessionMessage::Status {
            connected: true,
            target: Some("Mock Target".to_string()),
            chip: Some("STM32F4xx".to_string()),
            probe: Some("mock:0001".to_string()),
        }
    );
    match &started[1] {
        SessionMessage::Meta { ports_map, cpu_hz, dwt_available } => {
            assert_eq!(ports_map.len(), 4);
            assert_eq!(ports_map[&1], PortConfig::task_port(1, "RTOS Events"));
            assert_eq!(*cpu_hz, Some(168_000_000));
            assert!(*dwt_available);
        }
        other => panic!("unexpected {:?}", other),
    }
    let out = s.process_data(&sample_stream());
    assert_eq!(
        out,
        vec![
            event(1000, 0, TraceEvent::Text { message: "boot ok".to_string() }),
            event(2000, 1, TraceEvent::TaskSwitch { from_task: 1, to_task: 2 }),
            event(3000, 2, TraceEvent::Marker { id: 42, name: Some("Marker 42".to_string()) }),
            event(4000, 0, TraceEvent::Text { message: "half".to_string() }),
            event(5000, 3, TraceEvent::Counter { counter_id: 1, value: 5 }),
        ]
    );
    let stats = s.get_stats();
    assert_eq!(stats.events_processed, 5);
    assert_eq!(stats.dropped_events, 1);
    assert_eq!(stats.bytes_processed, sample_stream().len() as u64);
}

#[test]
fn session_output_is_chunk_invariant() {
    let stream = sample_stream();
    let mut whole = ItmSession::new();
    whole.start_tracing(0x0F, None, 0).unwrap();
    let expected = whole.process_data(&stream);
    for cut in 0..=stream.len() {
        let mut s = ItmSession::new();
        s.start_tracing(0x0F, None, 0).unwrap();
        let mut got = s.process_data(&stream[..cut]);
        got.extend(s.process_data(&stream[cut..]));
        assert_eq!(got, expected, "cut at {}", cut);
        assert_eq!(s.get_stats(), whole.get_stats());
    }
}

#[test]
fn restart_resets_statistics_and_decoders() {
    let mut s = ItmSession::new();
    s.start_tracing(0x01, None, 10).unwrap();
    s.process_data(&frame(0, b"one\npending"));
    assert_eq!(s.get_stats().events_processed, 1);
    s.start_tracing(0x01, Some(115_200), 20).unwrap();
    assert_eq!(
        s.get_stats(),
        SessionStats { events_processed: 0, bytes_processed: 0, dropped_events: 0, start_time: Some(20) }
    );
    let out = s.process_data(&frame(0, b"two\n"));
    assert_eq!(out, vec![event(1000, 0, TraceEvent::Text { message: "two".to_string() })]);
}

#[test]
fn stop_is_idempotent() {
    let disconnected =
        vec![SessionMessage::Status { connected: false, target: None, chip: None, probe: None }];
    let mut s = ItmSession::new();
    assert_eq!(s.stop_tracing(), disconnected);
    assert!(!s.is_active());
    s.start_tracing(0x0F, None, 0).unwrap();
    assert_eq!(s.stop_tracing(), disconnected);
    assert!(!s.is_active());
    assert_eq!(s.stop_tracing(), disconnected);
    assert!(!s.is_active());
    assert!(s.process_data(&frame(0, b"ignored\n")).is_empty());
}

#[test]
fn filter_changes_forwarding_only() {
    let mut s = ItmSession::new();
    s.start_tracing(0x0F, None, 0).unwrap();
    s.reconfigure_filter(Some(0b0100), None);
    let out = s.process_data(&sample_stream());
    assert_eq!(
        out,
        vec![event(3000, 2, TraceEvent::Marker { id: 42, name: Some("Marker 42".to_string()) })]
    );
    assert_eq!(s.get_stats().events_processed, 5);
}

#[test]
fn filter_by_event_type() {
    let mut s = ItmSession::new();
    s.start_tracing(0x0F, None, 0).unwrap();
    s.reconfigure_filter(None, Some(vec!["Counter".to_string(), "TaskSwitch".to_string()]));
    let out = s.process_data(&sample_stream());
    assert_eq!(
        out,
        vec![
            event(2000, 1, TraceEvent::TaskSwitch { from_task: 1, to_task: 2 }),
            event(5000, 3, TraceEvent::Counter { counter_id: 1, value: 5 }),
        ]
    );
    s.reconfigure_filter(None, None);
    let out = s.process_data(&frame(2, &[1, 0, 0, 0]));
    assert_eq!(out.len(), 1);
}

#[test]
fn kind_names() {
    assert_eq!(event_kind_name(&TraceEvent::IdleEnter), "IdleEnter");
    assert_eq!(event_kind_name(&TraceEvent::Raw { data: vec![] }), "Raw");
}

#[test]
fn restart_drops_pending_text() {
    let mut s = ItmSession::new();
    s.start_tracing(0x01, None, 1).unwrap();
    assert!(s.process_data(&frame(0, b"abc")).is_empty());
    s.start_tracing(0x01, None, 2).unwrap();
    assert!(s.process_data(&frame(0, b"\n")).is_empty());
    assert_eq!(s.get_stats().events_processed, 0);
    assert_eq!(s.get_stats().start_time, Some(2));
}
