use flasher_core::state::FlasherState;

#[test]
fn startup_state_is_empty() {
    let state = FlasherState::new();
    assert_eq!(state.package(), None);
    assert_eq!(state.port(), None);
    assert_eq!(state.status(), "");
    assert_eq!(state.progress(), 0);
    assert!(state.ports().is_empty());
}

#[test]
fn a_new_selection_supersedes_the_old_one() {
    let mut state = FlasherState::new();
    state.select_package("/tmp/a/fw.zip".to_string());
    state.select_package("/tmp/b/fw.zip".to_string());
    state.select_port("COM3".to_string());
    state.select_port("COM4".to_string());
    assert_eq!(state.package(), Some(&"/tmp/b/fw.zip".to_string()));
    assert_eq!(state.port(), Some(&"COM4".to_string()));
    assert_eq!(state.status(), "");
}

#[test]
fn status_can_be_replaced() {
    let mut state = FlasherState::new();
    state.set_status("ready".to_string());
    assert_eq!(state.status(), "ready");
    assert_eq!(state.progress(), 0);
}
