use callisto::mock::MockDataGenerator;
use callisto::protocol::{ClientMessage, TraceEvent};
use callisto::session::{ItmSession, SessionMessage};

fn event(timestamp: u64, port: u8, event: TraceEvent) -> SessionMessage {
    SessionMessage::Event { timestamp, port, event }
}

#[test]
fn first_tick_sends_every_kind() {
    let mut g = MockDataGenerator::new();
    let t = g.tick(1234);
    assert!(t.stats_due);
    assert!(!t.extra_pause);
    assert_eq!(
        t.events,
        vec![
            event(1234, 1, TraceEvent::TaskSwitch { from_task: 1, to_task: 2 }),
            event(1234, 2, TraceEvent::Marker { id: 1, name: Some("Checkpoint 1".to_string()) }),
            event(1234, 0, TraceEvent::Text { message: "System initialized".to_string() }),
            event(1234, 1, TraceEvent::IsrEnter { isr_id: 10, name: Some("Timer1".to_string()) }),
            event(1734, 1, TraceEvent::IsrExit { isr_id: 10 }),
            event(1234, 3, TraceEvent::Counter { counter_id: 1, value: 234 }),
        ]
    );
}

#[test]
fn later_ticks_follow_their_periods() {
    let mut g = MockDataGenerator::new();
    let mut pauses = 0;
    for n in 0..30u64 {
        let t = g.tick(n);
        if t.extra_pause {
            pauses += 1;
        }
        match n {
            6 => assert!(t.extra_pause),
            10 => assert_eq!(
                t.events,
                vec![event(10, 1, TraceEvent::TaskSwitch { from_task: 3, to_task: 4 })]
            ),
            15 => assert_eq!(
                t.events,
                vec![event(15, 2, TraceEvent::Marker { id: 2, name: Some("Checkpoint 2".to_string()) })]
            ),
            20 => assert_eq!(t.events.len(), 2),
            25 => assert_eq!(
                t.events,
                vec![
                    event(25, 1, TraceEvent::IsrEnter { isr_id: 11, name: Some("Timer2".to_string()) }),
                    event(525, 1, TraceEvent::IsrExit { isr_id: 11 }),
                ]
            ),
            1..=9 => assert!(t.events.is_empty()),
            _ => {}
        }
    }
    assert_eq!(pauses, 4);
}

#[test]
fn commands_drive_the_session() {
    let mut s = ItmSession::new();
    let out = s
        .handle_command(
            ClientMessage::Connect {
                probe_selector: Some("VID:PID".to_string()),
                chip: Some("STM32F4xx".to_string()),
                token: None,
            },
            0,
        )
        .unwrap();
    assert_eq!(
        out,
        vec![SessionMessage::Status {
            connected: true,
            target: Some("Mock Target".to_string()),
            chip: Some("STM32F4xx".to_string()),
            probe: Some("VID:PID".to_string()),
        }]
    );
    let out = s.handle_command(ClientMessage::Start { allow_mask: 0x05, baud_rate: None }, 7).unwrap();
    assert_eq!(out.len(), 2);
    assert!(s.is_active());
    assert_eq!(s.get_stats().start_time, Some(7));
    let out = s
        .handle_command(ClientMessage::SetFilter { port_mask: Some(0), event_types: None }, 8)
        .unwrap();
    assert!(out.is_empty());
    assert!(s.process_data(&[2, 4, 1, 0, 0, 0]).is_empty());
    assert_eq!(s.get_stats().events_processed, 1);
    assert_eq!(s.handle_command(ClientMessage::Stop, 9).unwrap().len(), 1);
    assert_eq!(
        s.handle_command(ClientMessage::Stop, 10).unwrap(),
        vec![SessionMessage::Status { connected: false, target: None, chip: None, probe: None }]
    );
    assert!(!s.is_active());
}
