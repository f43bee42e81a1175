use devbridge::device::{devices_from_serials, Device, DeviceState};
use devbridge::device_watch;
use devbridge::port_watch;
use devbridge::serialport_watcher::{SerialPortWatcher, SerialPortWatcherImpl};

fn snapshot(list: &[&str]) -> Vec<Device> {
    devices_from_serials(list.iter().map(|s| s.to_string()).collect())
}

fn ports(list: &[&str]) -> Vec<String> {
    list.iter().map(|s| s.to_string()).collect()
}

#[test]
fn unchanged_snapshot_produces_no_notifications() {
    let mut handler = device_watch::WatcherHandler::new();
    let first = handler.handle_event(snapshot(&["ABC123"]));
    assert!(first.is_some());
    let second = handler.handle_event(snapshot(&["ABC123"]));
    assert!(second.is_none());
    let third = handler.handle_event(snapshot(&["ABC123"]));
    assert!(third.is_none());
}

#[test]
fn replug_into_recovery_notifies_once_with_full_set() {
    let mut handler = device_watch::WatcherHandler::new();
    let first = handler
        .handle_event(snapshot(&["ABC123"]))
        .expect("the first non-empty snapshot notifies");
    assert_eq!(first[0].identifier, "ABC123");
    assert!(first[0].state == DeviceState::Device);

    let second = handler
        .handle_event(snapshot(&["BOOT-ABC123"]))
        .expect("a changed derived state notifies");
    assert_eq!(second.len(), 1);
    assert_eq!(second[0].identifier, "BOOT-ABC123");
    assert!(second[0].state == DeviceState::Recovery);

    let third = handler.handle_event(snapshot(&["BOOT-ABC123"]));
    assert!(third.is_none());
}

#[test]
fn reordering_counts_as_a_change() {
    let mut handler = device_watch::WatcherHandler::new();
    assert!(handler.handle_event(snapshot(&["A", "B"])).is_some());
    assert!(handler.handle_event(snapshot(&["B", "A"])).is_some());
}

#[test]
fn cleared_flag_stops_the_loop_ticks() {
    let mut handler = device_watch::WatcherHandler::new();
    let flags = vec![true, true, false, true, true];
    let snapshots = vec![
        snapshot(&["A"]),
        snapshot(&["A"]),
        snapshot(&["B"]),
        snapshot(&["C"]),
        snapshot(&["D"]),
    ];
    let notes = device_watch::run_watch_loop(&mut handler, &flags, &snapshots);
    // Only the ticks before the cleared flag ran: one notification for the
    // first appearance of "A", none for the unchanged repeat, and nothing
    // for the changes the loop never saw.
    assert_eq!(notes.len(), 1);
    assert_eq!(notes[0][0].identifier, "A");
}

#[test]
fn running_loop_notifies_on_each_change() {
    let mut handler = device_watch::WatcherHandler::new();
    let flags = vec![true, true, true];
    let snapshots = vec![snapshot(&["A"]), snapshot(&["A", "B"]), snapshot(&["A", "B"])];
    let notes = device_watch::run_watch_loop(&mut handler, &flags, &snapshots);
    assert_eq!(notes.len(), 2);
    assert_eq!(notes[1].len(), 2);
}

#[test]
fn watcher_flag_state_machine() {
    let mut watcher = SerialPortWatcherImpl::new();
    assert!(!watcher.should_continue());
    watcher.watch();
    assert!(watcher.should_continue());
    watcher.unwatch();
    assert!(!watcher.should_continue());
}

#[test]
fn watcher_resources_wrap_a_watcher() {
    let device_side = device_watch::WatcherResource::new(SerialPortWatcherImpl::new());
    assert!(!device_side.0.watcher.polling);
    let port_side = port_watch::WatcherResource::new(SerialPortWatcherImpl::new());
    assert!(!port_side.0.watcher.polling);
}

#[test]
fn port_watcher_diffs_by_value() {
    let mut handler = port_watch::WatcherHandler::new();
    let first = handler.handle_event(ports(&["/dev/ttyUSB0"]));
    assert_eq!(first.unwrap(), ports(&["/dev/ttyUSB0"]));
    assert!(handler.handle_event(ports(&["/dev/ttyUSB0"])).is_none());
    let changed = handler.handle_event(ports(&["/dev/ttyUSB0", "/dev/ttyACM0"]));
    assert_eq!(changed.unwrap().len(), 2);
}

#[test]
fn empty_snapshot_after_devices_notifies() {
    let mut handler = device_watch::WatcherHandler::new();
    assert!(handler.handle_event(snapshot(&["A"])).is_some());
    let gone = handler.handle_event(snapshot(&[]));
    assert_eq!(gone.unwrap().len(), 0);
}
