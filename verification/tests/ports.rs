use flasher_core::ports::{discover_ports, refresh_due, REFRESH_INTERVAL_MS, REFRESH_WINDOW_MS};
use flasher_core::state::FlasherState;

fn names(list: &[&str]) -> Vec<String> {
    list.iter().map(|name| name.to_string()).collect()
}

#[test]
fn duplicates_are_reported_once_in_ascending_order() {
    let ports = discover_ports(names(&["COM3", "COM1", "COM3", "COM10", "COM1", "COM2"]));
    assert_eq!(ports, names(&["COM1", "COM10", "COM2", "COM3"]));
}

#[test]
fn no_port_gives_an_empty_list() {
    assert_eq!(discover_ports(Vec::new()), Vec::<String>::new());
}

#[test]
fn a_single_port_is_kept() {
    assert_eq!(discover_ports(names(&["/dev/ttyUSB0"])), names(&["/dev/ttyUSB0"]));
}

#[test]
fn a_prefix_comes_before_its_extensions() {
    let ports = discover_ports(names(&["/dev/ttyUSB10", "/dev/ttyUSB1", "/dev/ttyACM0", "/dev/tty"]));
    assert_eq!(ports, names(&["/dev/tty", "/dev/ttyACM0", "/dev/ttyUSB1", "/dev/ttyUSB10"]));
}

#[test]
fn order_is_that_of_the_standard_library() {
    let raw = names(&["b", "a", "B", "ä", "a", "", "ab", "aß", "a\u{10000}", "a\u{ffff}", "é", "e\u{301}"]);
    let mut expected = raw.clone();
    expected.sort();
    expected.dedup();
    assert_eq!(discover_ports(raw), expected);
}

#[test]
fn already_sorted_names_stay() {
    let sorted = names(&["a", "b", "c"]);
    assert_eq!(discover_ports(sorted.clone()), sorted);
}

#[test]
fn state_keeps_the_discovered_ports() {
    let mut state = FlasherState::new();
    assert!(state.ports().is_empty());
    state.ports_detected(names(&["COM4", "COM3", "COM4"]));
    assert_eq!(state.ports(), &names(&["COM3", "COM4"]));
    state.ports_detected(names(&["COM7"]));
    assert_eq!(state.ports(), &names(&["COM7"]));
}

#[test]
fn failed_detection_is_reported_and_keeps_the_ports() {
    let mut state = FlasherState::new();
    state.ports_detected(names(&["COM3"]));
    state.detection_failed("Permission denied");
    assert_eq!(state.status(), "Error detecting ports: Permission denied");
    assert_eq!(state.ports(), &names(&["COM3"]));
}

#[test]
fn refresh_is_due_at_the_start_of_each_interval() {
    assert_eq!(REFRESH_INTERVAL_MS, 5000);
    assert_eq!(REFRESH_WINDOW_MS, 100);
    assert!(refresh_due(0));
    assert!(refresh_due(99));
    assert!(!refresh_due(100));
    assert!(!refresh_due(4999));
    assert!(refresh_due(5000));
    assert!(refresh_due(10_050));
    assert!(!refresh_due(12_345));
    assert!(!refresh_due(u64::MAX));
}
