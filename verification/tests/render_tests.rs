use wally::config::Config;
use wally::geometry::{Point, Rect, Size, SubPoint, SUB_UNIT};
use wally::render::{
    color_channels, CursorImageStatus, OutputDamageTracker, PointerElement, RenderElement,
    RenderOutcome, SwapBuffersError,
};
use wally::space::Output;
use wally::ssd::Border;
use wally::state::WallyState;

fn rect(x: i64, y: i64, w: i64, h: i64) -> Rect {
    Rect { loc: Point { x, y }, size: Size { w, h } }
}

fn state_with_window() -> WallyState {
    let mut state = WallyState::new(Config::new());
    state.space.map_output(Output { id: 1, geometry: rect(0, 0, 800, 600), scale: 1 });
    state.new_toplevel(1, 10, Size { w: 100, h: 80 }, Point { x: 10, y: 20 });
    state
}

#[test]
fn frame_holds_border_beneath_content_with_the_focused_color() {
    let state = state_with_window();
    let pointer = PointerElement::default();
    let elements = state.frame_elements(&pointer, Point { x: 0, y: 0 });
    assert_eq!(
        elements,
        vec![
            RenderElement::Border { geometry: rect(8, 18, 104, 84), color: 0x00ff00, thickness: 2 },
            RenderElement::WindowContent { window: 1, geometry: rect(10, 20, 100, 80) },
        ]
    );
}

#[test]
fn unfocused_window_gets_the_unfocused_border_color() {
    let mut state = state_with_window();
    state.space.set_focus_exclusive(None);
    let pointer = PointerElement::default();
    let elements = state.frame_elements(&pointer, Point { x: 0, y: 0 });
    match &elements[0] {
        RenderElement::Border { color, .. } => assert_eq!(*color, 0xff0000),
        other => panic!("expected a border element, got {:?}", other),
    }
}

#[test]
fn named_cursor_renders_its_buffer_on_top() {
    let state = state_with_window();
    let mut pointer = PointerElement::default();
    pointer.set_buffer(Size { w: 24, h: 24 });
    let elements = state.frame_elements(&pointer, Point { x: 5, y: 6 });
    assert_eq!(elements.len(), 3);
    assert_eq!(
        elements[2],
        RenderElement::CursorBuffer { geometry: rect(5, 6, 24, 24) }
    );
}

#[test]
fn hidden_cursor_renders_nothing() {
    let mut pointer = PointerElement::default();
    pointer.set_status(CursorImageStatus::Hidden);
    assert_eq!(pointer.render_elements(Point { x: 0, y: 0 }), Vec::new());
}

#[test]
fn client_cursor_surface_replaces_the_buffer() {
    let mut pointer = PointerElement::default();
    pointer.set_buffer(Size { w: 24, h: 24 });
    pointer.set_status(CursorImageStatus::Surface {
        surface: 9,
        hotspot: Point { x: 0, y: 0 },
        alive: true,
    });
    let elements = pointer.render_elements(Point { x: 3, y: 4 });
    assert_eq!(
        elements,
        vec![RenderElement::CursorSurface { surface: 9, geometry: rect(3, 4, 0, 0) }]
    );
}

#[test]
fn rendering_twice_with_no_change_damages_nothing() {
    let state = state_with_window();
    let pointer = PointerElement::default();
    let output_geometry = rect(0, 0, 800, 600);
    let elements = state.frame_elements(&pointer, Point { x: 0, y: 0 });
    let mut tracker = OutputDamageTracker::new();
    let first = tracker.render_output(&elements, 0, output_geometry);
    assert_eq!(first, vec![output_geometry]);
    let second = tracker.render_output(&elements, 1, output_geometry);
    assert_eq!(second, Vec::new());
}

#[test]
fn a_stale_buffer_age_forces_full_damage() {
    let state = state_with_window();
    let pointer = PointerElement::default();
    let output_geometry = rect(0, 0, 800, 600);
    let elements = state.frame_elements(&pointer, Point { x: 0, y: 0 });
    let mut tracker = OutputDamageTracker::new();
    tracker.render_output(&elements, 1, output_geometry);
    let damage = tracker.render_output(&elements, 3, output_geometry);
    assert_eq!(damage, vec![output_geometry]);
}

#[test]
fn a_moved_window_damages_its_old_and_new_regions() {
    let mut state = state_with_window();
    let pointer = PointerElement::default();
    let output_geometry = rect(0, 0, 800, 600);
    let before = state.frame_elements(&pointer, Point { x: 0, y: 0 });
    let mut tracker = OutputDamageTracker::new();
    tracker.render_output(&before, 0, output_geometry);
    state.space.map_element(
        state.space.find_window(1).unwrap(),
        Point { x: 50, y: 60 },
        true,
    );
    let after = state.frame_elements(&pointer, Point { x: 0, y: 0 });
    let damage = tracker.render_output(&after, 1, output_geometry);
    assert_eq!(
        damage,
        vec![
            rect(8, 18, 104, 84),
            rect(48, 58, 104, 84),
            rect(10, 20, 100, 80),
            rect(50, 60, 100, 80),
        ]
    );
}

#[test]
fn successful_submission_sends_frame_callbacks_to_every_window() {
    let mut state = state_with_window();
    state.new_toplevel(2, 11, Size { w: 10, h: 10 }, Point { x: 300, y: 300 });
    let (outcome, ids) = state.handle_render_result(Ok(()));
    assert_eq!(outcome, RenderOutcome::Presented);
    assert_eq!(ids, vec![1, 2]);
    assert!(state.running);
}

#[test]
fn a_lost_context_stops_the_run_loop() {
    let mut state = state_with_window();
    let (outcome, ids) = state.handle_render_result(Err(SwapBuffersError::ContextLost));
    assert_eq!(outcome, RenderOutcome::Fatal);
    assert_eq!(ids, Vec::new());
    assert!(!state.running);
}

#[test]
fn a_transient_failure_skips_the_tick() {
    let mut state = state_with_window();
    let (outcome, ids) = state.handle_render_result(Err(SwapBuffersError::Temporary));
    assert_eq!(outcome, RenderOutcome::Skipped);
    assert_eq!(ids, Vec::new());
    assert!(state.running);
}

#[test]
fn decoration_border_picks_the_color_of_its_focus_state() {
    let mut border = Border::new(2, 0x00ff00, 0xff0000);
    let unfocused = border.render_elements(Point { x: 10, y: 20 }, Size { w: 104, h: 84 });
    assert_eq!(
        unfocused,
        vec![RenderElement::Border { geometry: rect(8, 18, 104, 84), color: 0xff0000, thickness: 2 }]
    );
    border.set_focus();
    let focused = border.render_elements(Point { x: 10, y: 20 }, Size { w: 104, h: 84 });
    assert_eq!(
        focused,
        vec![RenderElement::Border { geometry: rect(8, 18, 104, 84), color: 0x00ff00, thickness: 2 }]
    );
    border.remove_focus();
    assert!(!border.is_focused);
}

#[test]
fn color_channels_unpack_rgb() {
    assert_eq!(color_channels(0x00ff00), (0, 255, 0));
    assert_eq!(color_channels(0xff0000), (255, 0, 0));
    assert_eq!(color_channels(0x123456), (0x12, 0x34, 0x56));
}

#[test]
fn cursor_data_subtracts_the_hotspot_of_a_live_surface() {
    let mut state = state_with_window();
    state.pointer.location = SubPoint { x: 10 * SUB_UNIT, y: 20 * SUB_UNIT };
    state.cursor_status = CursorImageStatus::Surface {
        surface: 5,
        hotspot: Point { x: 3, y: 4 },
        alive: true,
    };
    let (visible, location) = state.get_cursor_data(1);
    assert!(!visible);
    assert_eq!(location, Point { x: 7, y: 16 });
}

#[test]
fn a_dead_cursor_surface_falls_back_to_the_named_cursor() {
    let mut state = state_with_window();
    state.pointer.location = SubPoint { x: 10 * SUB_UNIT, y: 20 * SUB_UNIT };
    state.cursor_status = CursorImageStatus::Surface {
        surface: 5,
        hotspot: Point { x: 3, y: 4 },
        alive: false,
    };
    let (visible, location) = state.get_cursor_data(2);
    assert!(visible);
    assert_eq!(state.cursor_status, CursorImageStatus::Named);
    assert_eq!(location, Point { x: 20, y: 40 });
}
