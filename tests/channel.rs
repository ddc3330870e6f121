use callisto::channel::EventChannel;

#[test]
fn channel_keeps_send_order() {
    let mut c: EventChannel<u32> = EventChannel::new();
    assert!(c.send(1));
    c.send_all(vec![2, 3]);
    assert!(c.send(4));
    assert_eq!(c.take_all(), vec![1, 2, 3, 4]);
    assert!(c.take_all().is_empty());
    assert_eq!(c.dropped(), 0);
}

#[test]
fn closed_channel_drops_and_counts() {
    let mut c: EventChannel<&str> = EventChannel::new();
    c.send_all(vec!["a", "b"]);
    c.close();
    assert!(!c.is_open());
    assert_eq!(c.dropped(), 2);
    assert!(!c.send("c"));
    c.send_all(vec!["d", "e"]);
    assert_eq!(c.dropped(), 5);
    assert!(c.take_all().is_empty());
}
