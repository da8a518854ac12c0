use wally::config::Config;
use wally::geometry::{Point, Rect, Size};
use wally::handlers::{popup_unconstrain_target, CommitAction};
use wally::monitor::{Monitor, Workspace};
use wally::space::Output;
use wally::state::WallyState;

fn rect(x: i64, y: i64, w: i64, h: i64) -> Rect {
    Rect { loc: Point { x, y }, size: Size { w, h } }
}

#[test]
fn first_commit_sends_the_initial_configure_only_once() {
    let mut state = WallyState::new(Config::new());
    state.new_toplevel(7, 10, Size { w: 100, h: 100 }, Point { x: 0, y: 0 });
    assert_eq!(state.handle_commit(7), CommitAction::ConfigureToplevel(7));
    assert_eq!(state.handle_commit(7), CommitAction::NoAction);
    assert_eq!(state.handle_commit(7), CommitAction::NoAction);
}

#[test]
fn popup_commit_is_guarded_the_same_way() {
    let mut state = WallyState::new(Config::new());
    state.new_popup(9, rect(0, 0, 50, 50));
    assert_eq!(state.handle_commit(9), CommitAction::ConfigurePopup(9));
    assert_eq!(state.handle_commit(9), CommitAction::NoAction);
}

#[test]
fn commit_of_an_unknown_surface_does_nothing() {
    let mut state = WallyState::new(Config::new());
    assert_eq!(state.handle_commit(42), CommitAction::NoAction);
}

#[test]
fn new_toplevel_maps_the_window_on_top_and_focused() {
    let mut state = WallyState::new(Config::new());
    state.new_toplevel(1, 10, Size { w: 100, h: 100 }, Point { x: 5, y: 6 });
    state.new_toplevel(2, 11, Size { w: 50, h: 50 }, Point { x: 7, y: 8 });
    let elements = state.space.elements();
    assert_eq!(elements.len(), 2);
    assert_eq!(elements[1].id, 2);
    assert!(elements[1].state.is_focused);
    assert!(!elements[0].state.is_focused);
    assert_eq!(elements[1].geometry, rect(7, 8, 50, 50));
}

#[test]
fn window_for_surface_finds_the_wrapping_window() {
    let mut state = WallyState::new(Config::new());
    state.new_toplevel(1, 10, Size { w: 100, h: 100 }, Point { x: 0, y: 0 });
    assert_eq!(state.window_for_surface(1).map(|w| w.id), Some(1));
    assert_eq!(state.window_for_surface(2).map(|w| w.id), None);
}

#[test]
fn reposition_updates_the_popup_and_acknowledges_the_token() {
    let mut state = WallyState::new(Config::new());
    state.new_popup(9, rect(0, 0, 50, 50));
    assert_eq!(state.reposition_request(9, rect(10, 10, 60, 60), 77), Some(77));
    assert_eq!(state.reposition_request(8, rect(0, 0, 1, 1), 78), None);
    assert_eq!(state.popups[0].geometry, rect(10, 10, 60, 60));
}

#[test]
fn popup_target_is_relative_to_its_parent() {
    let target = popup_unconstrain_target(
        rect(0, 0, 800, 600),
        Point { x: 30, y: 40 },
        Point { x: 100, y: 200 },
    );
    assert_eq!(target, rect(-130, -240, 800, 600));
}

#[test]
fn a_monitor_owns_one_workspace_more_than_the_configured_count() {
    let output = Output { id: 1, geometry: rect(0, 0, 800, 600), scale: 1 };
    let monitor = Monitor::new(output, 9);
    assert_eq!(monitor.workspaces.len(), 10);
    assert_eq!(monitor.output_clone(), output);
    assert_eq!(monitor.output_ref().id, 1);
}

#[test]
fn workspaces_start_empty() {
    let workspace = Workspace::default();
    assert_eq!(workspace.clients.len(), 0);
}

#[test]
fn add_monitor_appends() {
    let mut state = WallyState::new(Config::new());
    let output = Output { id: 1, geometry: rect(0, 0, 800, 600), scale: 1 };
    state.add_monitor(Monitor::new(output, state.config.workspace_count));
    assert_eq!(state.monitors.len(), 1);
}

#[test]
fn quit_action_clears_the_running_flag() {
    let mut state = WallyState::new(Config::new());
    assert!(state.running);
    assert_eq!(state.handle_action(wally::keybind::Action::Quit), None);
    assert!(!state.running);
}

#[test]
fn a_failed_dispatch_stops_the_run_loop() {
    let mut state = WallyState::new(Config::new());
    assert!(state.running);
    state.record_dispatch_failure();
    assert!(!state.running);
}

#[test]
fn default_config_matches_the_built_in_table() {
    let config = Config::new();
    assert_eq!(config.border_thickness, 2);
    assert_eq!(config.border_color_focused, 0x00ff00);
    assert_eq!(config.border_color_unfocused, 0xff0000);
    assert_eq!(config.workspace_count, 9);
    assert_eq!(config.keybinds.len(), 5);
}
