use neovim_cmd::bridge::EventBridge;

#[test]
fn new_bridge_is_empty() {
    let mut bridge: EventBridge<u32> = EventBridge::new();
    assert_eq!(bridge.pending(), 0);
    assert_eq!(bridge.try_receive(), None);
}

#[test]
fn events_are_received_in_send_order() {
    // The consumer is not listening while A, B, C are sent: everything is
    // buffered, and still comes out in exactly the order it went in.
    let mut bridge: EventBridge<&str> = EventBridge::new();
    bridge.send("A");
    bridge.send("B");
    bridge.send("C");
    assert_eq!(bridge.pending(), 3);
    assert_eq!(bridge.try_receive(), Some("A"));
    assert_eq!(bridge.try_receive(), Some("B"));
    assert_eq!(bridge.try_receive(), Some("C"));
    assert_eq!(bridge.try_receive(), None);
}

#[test]
fn interleaved_sends_and_receives_keep_order() {
    let mut bridge: EventBridge<u32> = EventBridge::new();
    bridge.send(1);
    bridge.send(2);
    assert_eq!(bridge.try_receive(), Some(1));
    bridge.send(3);
    assert_eq!(bridge.try_receive(), Some(2));
    assert_eq!(bridge.try_receive(), Some(3));
    assert_eq!(bridge.try_receive(), None);
}
