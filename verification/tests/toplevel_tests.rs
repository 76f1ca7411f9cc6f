use render_core::toplevel::{
    parse_state_array, state_from_raw, ToplevelInfo, ToplevelState, TOPLEVEL_ACTIVATED,
    TOPLEVEL_FULLSCREEN, TOPLEVEL_MAXIMIZED, TOPLEVEL_MINIMIZED,
};

#[test]
fn wire_values_map_to_flags() {
    // The protocol numbers its states 0 to 3.
    assert_eq!(state_from_raw(0).bits, TOPLEVEL_MAXIMIZED);
    assert_eq!(state_from_raw(1).bits, TOPLEVEL_MINIMIZED);
    assert_eq!(state_from_raw(2).bits, TOPLEVEL_ACTIVATED);
    assert_eq!(state_from_raw(3).bits, TOPLEVEL_FULLSCREEN);
    assert_eq!(state_from_raw(4).bits, 0);
    assert_eq!(state_from_raw(9).bits, 0);
}

#[test]
fn state_array_parses_little_endian_words() {
    let bytes = vec![0, 0, 0, 0, 2, 0, 0, 0];
    let state = parse_state_array(&bytes);
    assert_eq!(state.bits, TOPLEVEL_MAXIMIZED | TOPLEVEL_ACTIVATED);
    assert!(state.contains(TOPLEVEL_MAXIMIZED));
    assert!(state.contains(TOPLEVEL_ACTIVATED));
    assert!(!state.contains(TOPLEVEL_MINIMIZED));
}

#[test]
fn incomplete_trailing_chunk_is_ignored() {
    let bytes = vec![3, 0, 0, 0, 1, 0];
    assert_eq!(parse_state_array(&bytes).bits, TOPLEVEL_FULLSCREEN);
}

#[test]
fn unknown_wire_values_contribute_nothing() {
    let bytes = vec![9, 0, 0, 0, 0, 0, 0, 0];
    assert_eq!(parse_state_array(&bytes).bits, TOPLEVEL_MAXIMIZED);
}

#[test]
fn empty_state_array_is_empty_state() {
    assert_eq!(parse_state_array(&Vec::new()).bits, 0);
    assert_eq!(ToplevelState::empty().bits, 0);
}

#[test]
fn info_updates_track_announcements() {
    let mut info = ToplevelInfo::new();
    assert!(info.title().is_none());
    assert!(info.app_id().is_none());

    info.update_title("editor".to_string());
    info.update_app_id("dev.example.editor".to_string());
    assert_eq!(info.title().unwrap(), "editor");
    assert_eq!(info.app_id().unwrap(), "dev.example.editor");

    info.update_state(&vec![0, 0, 0, 0, 3, 0, 0, 0]);
    assert!(info.is_maximized());
    assert!(info.is_fullscreen());
    assert!(!info.is_minimized());
    assert!(!info.is_activated());

    // A later announcement replaces, not accumulates.
    info.update_state(&vec![2, 0, 0, 0]);
    assert!(info.is_activated());
    assert!(!info.is_maximized());
}

#[test]
fn outputs_are_tracked_in_order() {
    let mut info = ToplevelInfo::new();
    info.add_output(11);
    info.add_output(22);
    info.add_output(11);
    info.add_output(33);
    assert_eq!(info.outputs, vec![11, 22, 11, 33]);

    info.remove_output(11);
    assert_eq!(info.outputs, vec![22, 33]);

    info.remove_output(99);
    assert_eq!(info.outputs, vec![22, 33]);
}

#[test]
fn parent_is_tracked() {
    let mut info = ToplevelInfo::new();
    assert!(info.parent.is_none());
    info.update_parent(Some(7));
    assert_eq!(info.parent, Some(7));
    info.update_parent(None);
    assert!(info.parent.is_none());
}
