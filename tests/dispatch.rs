use comport::dispatch::{
    loop_step, on_message, ports, seed_events, usbdevice, wceusbs, Lifecycle, ListenError, LoopStep,
    ListenerState, Post, QueuePoll, QueueReader, Registry, WindowAction, DBT_DEVICEARRIVAL,
    DBT_DEVICEREMOVECOMPLETE, WM_CLOSE, WM_DESTROY, WM_DEVICECHANGE, WM_USER,
};
use comport::registry::OsError;
use comport::{rescan, PlugEvent, PortMeta};

fn meta(v: &str, p: &str) -> PortMeta {
    PortMeta { vendor: v.to_string(), product: p.to_string() }
}

#[test]
fn seeding_gives_one_arrival_per_entry() {
    let snapshot = vec![
        ("COM3".to_string(), meta("1234", "5678")),
        ("COM4".to_string(), meta("2fe3", "0100")),
    ];
    let events = seed_events(snapshot);
    assert_eq!(2, events.len());
    match &events[0] {
        PlugEvent::Arrival(port, m) => {
            assert_eq!("COM3", port);
            assert_eq!(&meta("1234", "5678"), m);
        }
        _ => panic!("expected an arrival"),
    }
    match &events[1] {
        PlugEvent::Arrival(port, m) => {
            assert_eq!("COM4", port);
            assert_eq!(&meta("2fe3", "0100"), m);
        }
        _ => panic!("expected an arrival"),
    }
    assert!(seed_events(vec![]).is_empty());
}

#[test]
fn window_messages() {
    match on_message(WM_DEVICECHANGE, DBT_DEVICEREMOVECOMPLETE, Some("COM4".to_string())) {
        WindowAction::Queue(PlugEvent::RemoveComplete(p)) => assert_eq!("COM4", p),
        other => panic!("unexpected {:?}", other),
    }
    match on_message(WM_DEVICECHANGE, DBT_DEVICEARRIVAL, Some("COM4".to_string())) {
        WindowAction::LookUp(p) => assert_eq!("COM4", p),
        other => panic!("unexpected {:?}", other),
    }
    assert!(matches!(on_message(WM_DEVICECHANGE, DBT_DEVICEARRIVAL, None), WindowAction::Default));
    assert!(matches!(on_message(WM_DEVICECHANGE, 0x0007, Some("COM4".to_string())), WindowAction::Default));
    assert!(matches!(on_message(WM_DESTROY, 0, None), WindowAction::Finish));
    assert!(matches!(on_message(WM_USER, 0, None), WindowAction::Rescan));
    assert!(matches!(on_message(WM_CLOSE, 0, None), WindowAction::Default));
}

#[test]
fn message_loop_steps() {
    assert_eq!(LoopStep::Stop, loop_step(0, WM_USER));
    assert_eq!(LoopStep::Fail, loop_step(-1, WM_USER));
    assert_eq!(LoopStep::DispatchAndStop, loop_step(1, WM_CLOSE));
    assert_eq!(LoopStep::Dispatch, loop_step(1, WM_DEVICECHANGE));
}

#[test]
fn rescan_needs_a_running_listener() {
    assert_eq!(Err(ListenError::NotFound), rescan(0));
    assert_eq!(Ok(Post { window: 42, msg: WM_USER }), rescan(42));
}

#[test]
fn close_is_idempotent() {
    let mut life = Lifecycle::new();
    assert_eq!(ListenerState::Running, life.current());
    assert_eq!(Ok(Some(Post { window: 9, msg: WM_CLOSE })), life.close(9));
    assert_eq!(ListenerState::Closing, life.current());
    assert_eq!(Err(ListenError::AlreadyClosed), life.close(9));
    assert_eq!(Ok(()), life.finish(Ok(()), Ok(())));
    assert_eq!(ListenerState::Closed, life.current());
    assert_eq!(Err(ListenError::AlreadyClosed), life.close(9));
}

#[test]
fn close_without_window_still_owes_the_join() {
    let mut life = Lifecycle::new();
    assert_eq!(Ok(None), life.close(0));
    assert_eq!(ListenerState::Closing, life.current());
}

#[test]
fn close_reports_the_post_failure_first() {
    let mut life = Lifecycle::new();
    life.close(3).unwrap();
    let r = life.finish(Err(OsError { code: 1400 }), Err(OsError { code: 5 }));
    assert_eq!(Err(ListenError::Os(OsError { code: 1400 })), r);
    let mut other = Lifecycle::new();
    other.close(3).unwrap();
    assert_eq!(Err(ListenError::Os(OsError { code: 5 })), other.finish(Ok(()), Err(OsError { code: 5 })));
}

#[test]
fn queue_reader_ends_for_good() {
    let mut reader = QueueReader::new();
    assert!(matches!(reader.poll::<u8>(None), QueuePoll::Pending));
    assert!(matches!(reader.poll(Some(Some(3u8))), QueuePoll::Item(3)));
    assert!(matches!(reader.poll::<u8>(Some(None)), QueuePoll::End));
    assert!(matches!(reader.poll(Some(Some(4u8))), QueuePoll::End));
    assert!(matches!(reader.poll::<u8>(None), QueuePoll::End));
}

#[test]
fn serial_port_classes() {
    let r = Registry::new().with_serial_port();
    assert_eq!(3, r.classes.len());
    assert_eq!(wceusbs().data1, r.classes[0].data1);
    assert_eq!(usbdevice().data1, r.classes[1].data1);
    assert_eq!(0x4d36e978, r.classes[2].data1);
    assert_eq!([0xbf, 0xc1, 0x08, 0x00, 0x2b, 0xe1, 0x03, 0x18], ports().data4);
    let more = Registry::with_capacity(1).with(ports());
    assert_eq!(1, more.classes.len());
}
