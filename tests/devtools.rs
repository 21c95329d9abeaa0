use greeter::{apply_action, is_toggle_devtools, menu_action, on_menu_event, view_menu};
use greeter::{DevtoolsState, MenuAction};

#[test]
fn toggle_id_is_recognised() {
    assert!(is_toggle_devtools("toggle-devtools"));
}

#[test]
fn near_misses_are_not_the_toggle_id() {
    assert!(!is_toggle_devtools(""));
    assert!(!is_toggle_devtools("toggle-devtool"));
    assert!(!is_toggle_devtools("toggle-devtoolsx"));
    assert!(!is_toggle_devtools("Toggle-devtools"));
    assert!(!is_toggle_devtools("toggle_devtools"));
    assert!(!is_toggle_devtools("toggle-devtoolé"));
}

#[test]
fn toggle_from_closed_opens() {
    let (action, after) = on_menu_event("toggle-devtools", Some(DevtoolsState::Closed));
    assert_eq!(action, MenuAction::OpenDevtools);
    assert_eq!(after, Some(DevtoolsState::Open));
}

#[test]
fn toggle_from_open_closes() {
    let (action, after) = on_menu_event("toggle-devtools", Some(DevtoolsState::Open));
    assert_eq!(action, MenuAction::CloseDevtools);
    assert_eq!(after, Some(DevtoolsState::Closed));
}

#[test]
fn two_toggles_return_to_closed() {
    let (_, once) = on_menu_event("toggle-devtools", Some(DevtoolsState::Closed));
    let (_, twice) = on_menu_event("toggle-devtools", once);
    assert_eq!(once, Some(DevtoolsState::Open));
    assert_eq!(twice, Some(DevtoolsState::Closed));
}

#[test]
fn missing_surface_reports_and_changes_nothing() {
    let (action, after) = on_menu_event("toggle-devtools", None);
    assert_eq!(action, MenuAction::ReportSurfaceMissing);
    assert_eq!(after, None);
}

#[test]
fn unknown_id_is_ignored() {
    for state in [None, Some(DevtoolsState::Closed), Some(DevtoolsState::Open)] {
        let (action, after) = on_menu_event("quit", state);
        assert_eq!(action, MenuAction::Ignore);
        assert_eq!(after, state);
    }
}

#[test]
fn menu_action_reads_current_state() {
    assert_eq!(
        menu_action("toggle-devtools", Some(DevtoolsState::Open)),
        MenuAction::CloseDevtools
    );
    assert_eq!(
        menu_action("toggle-devtools", Some(DevtoolsState::Closed)),
        MenuAction::OpenDevtools
    );
    assert_eq!(menu_action("other", Some(DevtoolsState::Open)), MenuAction::Ignore);
}

#[test]
fn apply_action_effects() {
    let open = Some(DevtoolsState::Open);
    let closed = Some(DevtoolsState::Closed);
    assert_eq!(apply_action(closed, MenuAction::OpenDevtools), open);
    assert_eq!(apply_action(open, MenuAction::CloseDevtools), closed);
    assert_eq!(apply_action(open, MenuAction::Ignore), open);
    assert_eq!(apply_action(closed, MenuAction::ReportSurfaceMissing), closed);
    assert_eq!(apply_action(None, MenuAction::OpenDevtools), None);
}

#[test]
fn view_menu_holds_the_toggle() {
    let menu = view_menu();
    assert_eq!(menu.title, "View");
    assert_eq!(menu.entries.len(), 1);
    assert_eq!(menu.entries[0].id, "toggle-devtools");
    assert_eq!(menu.entries[0].label, "Toggle Devtools");
    assert!(is_toggle_devtools(&menu.entries[0].id));
}
