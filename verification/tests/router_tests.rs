use neovim_cmd::bridge::EventBridge;
use neovim_cmd::router::{route_notification, BufferEvent, BufferEventHandler, Notification};

fn no_args() -> Vec<String> {
    Vec::new()
}

fn junk_args() -> Vec<String> {
    vec![String::from("7"), String::from("[1, 2]"), String::from("")]
}

#[test]
fn unrecognized_names_yield_no_event() {
    let args = no_args();
    assert_eq!(route_notification("nvim_buf_lines_event", &args), None);
    assert_eq!(route_notification("", &args), None);
    assert_eq!(route_notification("nvim_buf_detach_event ", &args), None);
    assert_eq!(route_notification("NVIM_BUF_DETACH_EVENT", &args), None);
    assert_eq!(route_notification("redraw", &args), None);
}

#[test]
fn changedtick_is_recognized_and_dropped() {
    assert_eq!(route_notification("nvim_buf_changedtick_event", &no_args()), None);
    assert_eq!(route_notification("nvim_buf_changedtick_event", &junk_args()), None);
}

#[test]
fn detach_always_yields_delete() {
    assert_eq!(
        route_notification("nvim_buf_detach_event", &no_args()),
        Some(BufferEvent::Delete)
    );
    assert_eq!(
        route_notification("nvim_buf_detach_event", &junk_args()),
        Some(BufferEvent::Delete)
    );
}

#[test]
fn parse_buf_detach_event_never_fails() {
    let mut handler = BufferEventHandler(EventBridge::new());
    assert_eq!(handler.parse_buf_detach_event(&no_args()), Ok(BufferEvent::Delete));
    assert_eq!(handler.parse_buf_detach_event(&junk_args()), Ok(BufferEvent::Delete));
}

#[test]
fn handle_request_is_not_implemented() {
    let mut handler = BufferEventHandler(EventBridge::new());
    let response = handler.handle_request("nvim_eval", no_args());
    assert_eq!(response, Err(String::from("not implemented")));
}

#[test]
fn handle_notify_forwards_detach_only() {
    let mut handler = BufferEventHandler(EventBridge::new());
    handler.handle_notify("nvim_buf_changedtick_event", &junk_args());
    assert_eq!(handler.0.pending(), 0);
    handler.handle_notify("something_else", &no_args());
    assert_eq!(handler.0.pending(), 0);
    handler.handle_notify("nvim_buf_detach_event", &junk_args());
    assert_eq!(handler.0.pending(), 1);
    assert_eq!(handler.0.try_receive(), Some(BufferEvent::Delete));
    assert_eq!(handler.0.try_receive(), None);
}

#[test]
fn dispatch_continues_after_unrecognized_notifications() {
    let mut handler = BufferEventHandler(EventBridge::new());
    let notes = vec![
        Notification { name: String::from("garbage"), args: junk_args() },
        Notification { name: String::from("nvim_buf_detach_event"), args: no_args() },
        Notification { name: String::from("more garbage"), args: no_args() },
        Notification { name: String::from("nvim_buf_detach_event"), args: junk_args() },
    ];
    handler.handle_all_notifications(&notes);
    assert_eq!(handler.0.pending(), 2);
    assert_eq!(handler.0.try_receive(), Some(BufferEvent::Delete));
    assert_eq!(handler.0.try_receive(), Some(BufferEvent::Delete));
    assert_eq!(handler.0.try_receive(), None);
}
