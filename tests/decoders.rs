use callisto::decoder::{
    CounterDecoder, ItmDecoder, MarkerDecoder, PortDecoder, TaskIsrDecoder, TextDecoder,
    UserDecoder,
};
use callisto::protocol::{DecoderType, TraceEvent};

fn text(s: &str) -> TraceEvent {
    TraceEvent::Text { message: s.to_string() }
}

#[test]
fn text_decoder_emits_complete_lines_and_keeps_the_rest() {
    let mut d = TextDecoder::new();
    assert_eq!(d.decode(0, b"hello\nworld", 0), vec![text("hello")]);
    assert_eq!(d.decode(0, b"\n", 0), vec![text("world")]);
}

#[test]
fn text_decoder_suppresses_blank_lines() {
    let mut d = TextDecoder::new();
    assert_eq!(d.decode(0, b"\n  \t\nx\n\n", 0), vec![text("x")]);
}

#[test]
fn text_decoder_keeps_surrounding_spaces_of_a_message() {
    let mut d = TextDecoder::new();
    assert_eq!(d.decode(0, b"  a b \n", 0), vec![text("  a b ")]);
}

#[test]
fn text_decoder_is_chunk_invariant() {
    let stream: &[u8] = b"first line\n\nsecond\xc3\xa9 line\nthird\npartial";
    let mut whole = TextDecoder::new();
    let mut expected = whole.decode(0, stream, 0);
    expected.extend(whole.decode(0, b"\n", 0));
    assert_eq!(expected.len(), 4);
    assert_eq!(expected[1], text("second\u{e9} line"));
    for cut in 0..=stream.len() {
        let mut d = TextDecoder::new();
        let mut got = d.decode(0, &stream[..cut], 0);
        got.extend(d.decode(0, &stream[cut..], 0));
        got.extend(d.decode(0, b"\n", 0));
        assert_eq!(got, expected, "cut at {}", cut);
    }
}

#[test]
fn text_decoder_reset_drops_pending_text() {
    let mut d = TextDecoder::new();
    assert!(d.decode(0, b"stale", 0).is_empty());
    d.reset();
    assert_eq!(d.decode(0, b"fresh\n", 0), vec![text("fresh")]);
}

#[test]
fn text_decoder_replaces_invalid_utf8() {
    let mut d = TextDecoder::new();
    assert_eq!(d.decode(0, b"a\xffb\n", 0), vec![text("a\u{fffd}b")]);
}

#[test]
fn marker_decoder_reads_little_endian_id() {
    let mut d = MarkerDecoder::new();
    assert_eq!(
        d.decode(2, &[0x2A, 0x00, 0x00, 0x00], 0),
        vec![TraceEvent::Marker { id: 42, name: Some("Marker 42".to_string()) }]
    );
    assert!(d.decode(2, &[0x2A, 0x00, 0x00], 0).is_empty());
}

#[test]
fn marker_decoder_uses_first_four_bytes_only() {
    let mut d = MarkerDecoder::new();
    assert_eq!(
        d.decode(2, &[0x01, 0x02, 0x03, 0x04, 0xFF], 0),
        vec![TraceEvent::Marker { id: 0x04030201, name: Some("Marker 67305985".to_string()) }]
    );
}

#[test]
fn task_isr_decoder_task_switch() {
    let mut d = TaskIsrDecoder::new();
    assert_eq!(
        d.decode(1, &[0x01, 1, 0, 0, 0, 2, 0, 0, 0], 0),
        vec![TraceEvent::TaskSwitch { from_task: 1, to_task: 2 }]
    );
}

#[test]
fn task_isr_decoder_unknown_tag_is_raw() {
    let mut d = TaskIsrDecoder::new();
    let input = [0x09, 8, 7, 6, 5, 4, 3, 2, 1];
    assert_eq!(d.decode(1, &input, 0), vec![TraceEvent::Raw { data: input.to_vec() }]);
}

#[test]
fn task_isr_decoder_other_tags() {
    let mut d = TaskIsrDecoder::new();
    assert_eq!(
        d.decode(1, &[0x02, 10, 0, 0, 0, 0, 0, 0, 0], 0),
        vec![TraceEvent::IsrEnter { isr_id: 10, name: Some("ISR 10".to_string()) }]
    );
    assert_eq!(
        d.decode(1, &[0x03, 0, 1, 0, 0, 0, 0, 0, 0], 0),
        vec![TraceEvent::IsrExit { isr_id: 256 }]
    );
    assert_eq!(d.decode(1, &[0x04, 0, 0, 0, 0, 0, 0, 0, 0], 0), vec![TraceEvent::IdleEnter]);
    assert_eq!(d.decode(1, &[0x05, 0, 0, 0, 0, 0, 0, 0, 0], 0), vec![TraceEvent::IdleExit]);
    assert!(d.decode(1, &[0x01, 1, 0, 0, 0, 2, 0, 0], 0).is_empty());
}

#[test]
fn counter_decoder_reads_id_and_value() {
    let mut d = CounterDecoder::new();
    let input = [1, 0, 0, 0, 5, 0, 0, 0, 0, 0, 0, 0];
    assert_eq!(d.decode(3, &input, 0), vec![TraceEvent::Counter { counter_id: 1, value: 5 }]);
    assert!(d.decode(3, &input[..11], 0).is_empty());
}

#[test]
fn counter_decoder_reads_high_word() {
    let mut d = CounterDecoder::new();
    let input = [0xFF, 0xFF, 0xFF, 0xFF, 0x01, 0, 0, 0, 0x02, 0, 0, 0x80];
    assert_eq!(
        d.decode(3, &input, 0),
        vec![TraceEvent::Counter { counter_id: u32::MAX, value: 0x8000_0002_0000_0001 }]
    );
}

#[test]
fn user_decoder_passes_payload_through() {
    let mut d = UserDecoder::new();
    assert_eq!(d.decode(9, &[1, 2, 3], 0), vec![TraceEvent::Raw { data: vec![1, 2, 3] }]);
}

#[test]
fn port_decoder_dispatches_by_kind() {
    let mut d = PortDecoder::for_kind(&DecoderType::Marker);
    assert_eq!(
        d.decode(7, &[7, 0, 0, 0], 0),
        vec![TraceEvent::Marker { id: 7, name: Some("Marker 7".to_string()) }]
    );
    let mut u = PortDecoder::for_kind(&DecoderType::User { format: "hex".to_string() });
    assert_eq!(u.decode(7, &[9], 0), vec![TraceEvent::Raw { data: vec![9] }]);
}

#[test]
fn port_decoder_standard_table() {
    let mut rtos = PortDecoder::for_port(1);
    assert_eq!(
        rtos.decode(1, &[0x01, 3, 0, 0, 0, 4, 0, 0, 0], 0),
        vec![TraceEvent::TaskSwitch { from_task: 3, to_task: 4 }]
    );
    let mut user = PortDecoder::for_port(9);
    assert_eq!(user.decode(9, b"user\n", 0), vec![text("user")]);
    user.decode(9, b"half", 0);
    user.reset();
    assert_eq!(user.decode(9, b"x\n", 0), vec![text("x")]);
}
