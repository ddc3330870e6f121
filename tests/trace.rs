use callisto::decoder::{CounterDecoder, ItmDecoder, MarkerDecoder, TaskIsrDecoder};
use callisto::global;
use callisto::ports;
use callisto::probe::ProbeManager;
use callisto::protocol::{default_config, standard_config, DecoderType, PortConfig, TraceEvent};
use callisto::trace::{simple_hash, Itm, StimulusWrite};

#[test]
fn test_simple_hash() {
    assert_eq!(simple_hash("test"), simple_hash("test"));
    assert_ne!(simple_hash("test"), simple_hash("different"));
}

#[test]
fn test_port_constants() {
    assert_eq!(ports::CONSOLE, 0);
    assert_eq!(ports::RTOS, 1);
    assert_eq!(ports::MARKERS, 2);
    assert_eq!(ports::COUNTERS, 3);
}

#[test]
fn simple_hash_values() {
    assert_eq!(simple_hash(""), 0);
    assert_eq!(simple_hash("ab"), 97 * 31 + 98);
    assert_eq!(simple_hash("test"), 3556498);
    assert_eq!(simple_hash("overflowing name"), {
        let mut h: u32 = 0;
        for b in "overflowing name".bytes() {
            h = h.wrapping_mul(31).wrapping_add(b as u32);
        }
        h
    });
}

#[test]
fn console_writes() {
    let itm = Itm::new();
    let b = |v: u8| StimulusWrite::Byte { port: 0, value: v };
    assert_eq!(itm.console().puts("hi"), vec![b(b'h'), b(b'i'), b(b'\n')]);
    assert_eq!(itm.console().print("hi"), vec![b(b'h'), b(b'i')]);
    assert_eq!(itm.console().putc(b'!'), vec![b(b'!')]);
}

#[test]
fn rtos_records() {
    let itm = Itm::new();
    let rec = |t: u8, a: u32, c: u32| {
        vec![
            StimulusWrite::Byte { port: 1, value: t },
            StimulusWrite::Word { port: 1, value: a },
            StimulusWrite::Word { port: 1, value: c },
        ]
    };
    assert_eq!(itm.rtos().task_switch(1, 2), rec(1, 1, 2));
    assert_eq!(itm.rtos().isr_enter(10), rec(2, 10, 0));
    assert_eq!(itm.rtos().isr_exit(10), rec(3, 10, 0));
    assert_eq!(itm.rtos().idle_enter(), rec(4, 0, 0));
    assert_eq!(itm.rtos().idle_exit(), rec(5, 0, 0));
    assert_eq!(itm.rtos().event(9, 7, 8), rec(9, 7, 8));
}

#[test]
fn markers_and_counters() {
    let itm = Itm::new();
    assert_eq!(itm.markers().marker(42), vec![StimulusWrite::Word { port: 2, value: 42 }]);
    assert_eq!(
        itm.markers().named_marker("test"),
        vec![StimulusWrite::Word { port: 2, value: simple_hash("test") }]
    );
    let w = |v: u32| StimulusWrite::Word { port: 3, value: v };
    assert_eq!(itm.counters().counter(1, 0x0000_0002_0000_0005), vec![w(1), w(5), w(2)]);
    assert_eq!(itm.counters().counter32(7, 12345), vec![w(7), w(12345), w(0)]);
}

#[test]
fn user_port_writes() {
    let p = Itm::new().user_port(9);
    assert_eq!(p.port(), 9);
    assert_eq!(p.write32(5), vec![StimulusWrite::Word { port: 9, value: 5 }]);
    assert_eq!(p.write8(6), vec![StimulusWrite::Byte { port: 9, value: 6 }]);
    assert_eq!(
        p.write_bytes(&[1, 2]),
        vec![StimulusWrite::Byte { port: 9, value: 1 }, StimulusWrite::Byte { port: 9, value: 2 }]
    );
}

#[test]
fn global_calls_need_a_handle() {
    let itm = Itm::new();
    assert!(global::puts(None, "x").is_empty());
    assert_eq!(global::puts(Some(&itm), "x").len(), 2);
    assert!(global::marker(None, 1).is_empty());
    assert_eq!(global::marker(Some(&itm), 1), vec![StimulusWrite::Word { port: 2, value: 1 }]);
    assert_eq!(global::task_switch(Some(&itm), 1, 2), itm.rtos().task_switch(1, 2));
    assert_eq!(global::isr_enter(Some(&itm), 3), itm.rtos().isr_enter(3));
    assert_eq!(global::isr_exit(Some(&itm), 3), itm.rtos().isr_exit(3));
    assert!(global::isr_exit(None, 3).is_empty());
}

#[test]
fn port_configs() {
    let c = PortConfig::counter_port(3, "Counters");
    assert_eq!(c.decoder, DecoderType::Counter);
    assert!(c.enabled);
    assert_eq!(PortConfig::marker_port(2, "M").decoder, DecoderType::Marker);
    assert_eq!(PortConfig::text_port(0, "T").name, "T");
    let all = default_config();
    assert_eq!(all.len(), 8);
    assert_eq!(all[&0].name, "Console");
    assert_eq!(all[&1].decoder, DecoderType::TaskIsr);
    assert_eq!(all[&7].name, "User 7");
    assert_eq!(standard_config(12).name, "User 12");
}

#[test]
fn probe_manager_sessions() {
    let mut m = ProbeManager::new();
    assert!(!m.is_connected());
    assert!(m.get_session_info().is_none());
    assert!(m.start_session(0x0F, None).is_ok());
    assert!(m.is_connected());
    assert_eq!(m.get_session_info().unwrap().chip.as_deref(), Some("STM32F4xx"));
    assert!(m.stop_session().is_ok());
    assert!(!m.is_connected());
    let probes = ProbeManager::list_probes();
    assert_eq!(probes.len(), 1);
    assert_eq!(probes[0].identifier, "mock:0001");
}

fn wire(writes: &[StimulusWrite]) -> Vec<u8> {
    let mut out = Vec::new();
    for w in writes {
        match *w {
            StimulusWrite::Byte { value, .. } => out.push(value),
            StimulusWrite::Word { value, .. } => out.extend_from_slice(&value.to_le_bytes()),
        }
    }
    out
}

#[test]
fn encoded_records_decode_to_their_events() {
    let itm = Itm::new();
    let mut tasks = TaskIsrDecoder::new();
    assert_eq!(
        tasks.decode(1, &wire(&itm.rtos().task_switch(7, 0xDEAD_BEEF)), 0),
        vec![TraceEvent::TaskSwitch { from_task: 7, to_task: 0xDEAD_BEEF }]
    );
    assert_eq!(
        tasks.decode(1, &wire(&itm.rtos().isr_enter(3)), 0),
        vec![TraceEvent::IsrEnter { isr_id: 3, name: Some("ISR 3".to_string()) }]
    );
    let mut counters = CounterDecoder::new();
    assert_eq!(
        counters.decode(3, &wire(&itm.counters().counter(9, u64::MAX - 1)), 0),
        vec![TraceEvent::Counter { counter_id: 9, value: u64::MAX - 1 }]
    );
    let mut markers = MarkerDecoder::new();
    assert_eq!(
        markers.decode(2, &wire(&itm.markers().marker(1_000_000)), 0),
        vec![TraceEvent::Marker { id: 1_000_000, name: Some("Marker 1000000".to_string()) }]
    );
}

#[test]
fn defaults() {
    let c = PortConfig::default();
    assert_eq!(c, PortConfig::text_port(0, "Default"));
    assert!(!ProbeManager::default().is_connected());
    let _ = Itm::default();
}
