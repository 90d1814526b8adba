use comport::registry::OsError;
use comport::tracking::{Step, Tracker, TrackingError};
use comport::{track, PlugEvent, PortMeta, RegistryError};

fn meta(v: &str, p: &str) -> PortMeta {
    PortMeta { vendor: v.to_string(), product: p.to_string() }
}

fn arrival(port: &str, v: &str, p: &str) -> Option<Result<PlugEvent, RegistryError>> {
    Some(Ok(PlugEvent::Arrival(port.to_string(), meta(v, p))))
}

fn removal(port: &str) -> Option<Result<PlugEvent, RegistryError>> {
    Some(Ok(PlugEvent::RemoveComplete(port.to_string())))
}

fn tracker() -> Tracker<u32> {
    track(vec![("2FE3".to_string(), "0100".to_string())])
}

#[test]
fn allowed_arrival_yields_a_tracked_port() {
    let mut t = tracker();
    match t.step(arrival("COM4", "2fe3", "0100")) {
        Step::Track(port, ids) => {
            assert_eq!("COM4", port);
            assert_eq!(meta("2fe3", "0100"), ids);
        }
        _ => panic!("expected a tracked port"),
    }
}

#[test]
fn other_arrival_is_ignored() {
    let mut t = tracker();
    assert!(matches!(t.step(arrival("COM5", "1234", "5678")), Step::Ignored));
    assert!(!t.is_tracking(&"COM5".to_string()));
    assert!(!t.is_complete());
}

#[test]
fn removal_of_tracked_port_unplugs_once() {
    let mut t = tracker();
    assert!(matches!(t.step(arrival("COM4", "2fe3", "0100")), Step::Track(_, _)));
    assert_eq!(None, t.register("COM4".to_string(), 7));
    assert!(t.is_tracking(&"COM4".to_string()));
    match t.step(removal("COM4")) {
        Step::Unplug(port, sender) => {
            assert_eq!("COM4", port);
            assert_eq!(7, sender);
        }
        _ => panic!("expected an unplug"),
    }
    assert!(!t.is_tracking(&"COM4".to_string()));
    assert!(matches!(t.step(removal("COM4")), Step::Untracked(_)));
}

#[test]
fn untracked_removal_is_not_fatal() {
    let mut t = tracker();
    match t.step(removal("COM9")) {
        Step::Untracked(port) => assert_eq!("COM9", port),
        _ => panic!("expected untracked"),
    }
    assert!(!t.is_complete());
    assert!(matches!(t.step(arrival("COM4", "2fe3", "0100")), Step::Track(_, _)));
}

#[test]
fn rescan_overwrites_the_cached_sender() {
    let mut t = tracker();
    assert_eq!(None, t.register("COM4".to_string(), 1));
    assert!(matches!(t.step(arrival("COM4", "2fe3", "0100")), Step::Track(_, _)));
    assert_eq!(Some(1), t.register("COM4".to_string(), 2));
    match t.step(removal("COM4")) {
        Step::Unplug(_, sender) => assert_eq!(2, sender),
        _ => panic!("expected an unplug"),
    }
    assert!(matches!(t.step(removal("COM4")), Step::Untracked(_)));
}

#[test]
fn upstream_error_is_forwarded() {
    let mut t = tracker();
    let item = Some(Err(RegistryError::Io(OsError { code: 5 })));
    match t.step(item) {
        Step::Failed(TrackingError::Scan(RegistryError::Io(e))) => assert_eq!(5, e.code),
        _ => panic!("expected the error"),
    }
    assert!(!t.is_complete());
}

#[test]
fn end_of_upstream_completes() {
    let mut t = tracker();
    assert!(matches!(t.step(None), Step::End));
    assert!(t.is_complete());
}

#[test]
fn allow_list_is_matched_exactly_after_lowercasing() {
    let mut t = tracker();
    assert!(matches!(t.step(arrival("COM4", "2FE3", "0100")), Step::Ignored));
    let mut n: Tracker<u32> = Tracker::new(vec![meta("2fe3", "0100"), meta("abcd", "0001")]);
    assert!(matches!(n.step(arrival("COM7", "abcd", "0001")), Step::Track(_, _)));
}

#[test]
fn filtering_correctness() {
    let mut t: Tracker<u32> = track(vec![("2fe3".to_string(), "0100".to_string())]);
    match t.step(arrival("COM4", "2fe3", "0100")) {
        Step::Track(port, ids) => {
            assert_eq!("COM4", port);
            assert_eq!("2fe3", ids.vendor);
            assert_eq!("0100", ids.product);
        }
        other => panic!("unexpected {:?}", other),
    }
    assert!(matches!(t.step(arrival("COM5", "1234", "5678")), Step::Ignored));
}
