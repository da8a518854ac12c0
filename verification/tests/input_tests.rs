use wally::config::{Config, KEY_P, KEY_Q};
use wally::focus::PointerFocusTarget;
use wally::geometry::{Point, Rect, Size, SubPoint, SUB_UNIT};
use wally::input::{AxisFrame, AxisSource, Effect, InputEvent};
use wally::keybind::{lookup_action, Action, Keybind, KeyModifiers, MOD_SHIFT, MOD_SUPER};
use wally::space::Output;
use wally::state::WallyState;

fn sub(x: i64, y: i64) -> SubPoint {
    SubPoint { x: x * SUB_UNIT, y: y * SUB_UNIT }
}

fn state_with_output() -> WallyState {
    let mut state = WallyState::new(Config::new());
    state.space.map_output(Output {
        id: 1,
        geometry: Rect { loc: Point { x: 0, y: 0 }, size: Size { w: 800, h: 600 } },
        scale: 1,
    });
    state
}

fn motion_to(state: &mut WallyState, x: i64, y: i64) -> Vec<Effect> {
    state.process_input_event(InputEvent::PointerMotionAbsolute { position: sub(x, y), time: 0 })
}

fn press(state: &mut WallyState, button: u32) -> Vec<Effect> {
    state.process_input_event(InputEvent::PointerButton { button, pressed: true, time: 0 })
}

fn release(state: &mut WallyState, button: u32) -> Vec<Effect> {
    state.process_input_event(InputEvent::PointerButton { button, pressed: false, time: 0 })
}

const BTN_LEFT: u32 = 0x110;

#[test]
fn clamping_limits_x_to_the_total_width_and_y_to_the_output_height() {
    let state = state_with_output();
    // inside the output's horizontal extent, y clamps to its height
    assert_eq!(state.clamp_coords(sub(790, 700)), sub(790, 600));
    assert_eq!(state.clamp_coords(sub(-5, -7)), sub(0, 0));
    assert_eq!(state.clamp_coords(sub(100, 100)), sub(100, 100));
    // at x == W the clamped column lies past every output (far edges are
    // exclusive), so y passes through unclamped
    assert_eq!(state.clamp_coords(sub(900, 700)), sub(800, 700));
}

#[test]
fn clamping_passes_through_without_outputs() {
    let state = WallyState::new(Config::new());
    assert_eq!(state.clamp_coords(sub(9000, -9000)), sub(9000, -9000));
}

#[test]
fn clamping_uses_the_containing_outputs_height() {
    let mut state = state_with_output();
    state.space.map_output(Output {
        id: 2,
        geometry: Rect { loc: Point { x: 800, y: 0 }, size: Size { w: 800, h: 400 } },
        scale: 1,
    });
    // x lands on the second, shorter output
    assert_eq!(state.clamp_coords(sub(1200, 500)), sub(1200, 400));
    // x past both outputs clamps to the right edge, which the second
    // output does not contain, so y passes through
    assert_eq!(state.clamp_coords(sub(2000, 500)), sub(1600, 500));
}

#[test]
fn wheel_step_of_120_v120_units_scrolls_fifteen_pixels() {
    let mut state = state_with_output();
    let effects = state.process_input_event(InputEvent::PointerAxis {
        source: AxisSource::Wheel,
        horizontal: None,
        vertical: None,
        horizontal_v120: Some(120),
        vertical_v120: None,
        time: 7,
    });
    assert_eq!(
        effects,
        vec![
            Effect::Axis(AxisFrame {
                source: AxisSource::Wheel,
                time: 7,
                horizontal: Some(15 * SUB_UNIT),
                vertical: None,
                horizontal_v120: Some(120),
                vertical_v120: None,
                horizontal_stop: false,
                vertical_stop: false,
            }),
            Effect::Frame,
        ]
    );
}

#[test]
fn native_axis_amount_wins_over_the_discrete_value() {
    let mut state = state_with_output();
    let effects = state.process_input_event(InputEvent::PointerAxis {
        source: AxisSource::Wheel,
        horizontal: Some(512),
        vertical: None,
        horizontal_v120: Some(120),
        vertical_v120: None,
        time: 0,
    });
    match &effects[0] {
        Effect::Axis(frame) => {
            assert_eq!(frame.horizontal, Some(512));
            assert_eq!(frame.horizontal_v120, Some(120));
        }
        other => panic!("expected an axis effect, got {:?}", other),
    }
}

#[test]
fn ended_finger_scroll_synthesizes_an_axis_stop() {
    let mut state = state_with_output();
    let effects = state.process_input_event(InputEvent::PointerAxis {
        source: AxisSource::Finger,
        horizontal: Some(0),
        vertical: Some(3),
        horizontal_v120: None,
        vertical_v120: None,
        time: 0,
    });
    match &effects[0] {
        Effect::Axis(frame) => {
            assert!(frame.horizontal_stop);
            assert!(!frame.vertical_stop);
            assert_eq!(frame.horizontal, None);
            assert_eq!(frame.vertical, Some(3));
        }
        other => panic!("expected an axis effect, got {:?}", other),
    }
}

#[test]
fn bound_key_press_is_intercepted_and_spawns() {
    let mut state = state_with_output();
    let effects = state.process_input_event(InputEvent::Keyboard {
        pressed: true,
        modifier_bits: MOD_SUPER,
        keysym: KEY_P,
        time: 0,
    });
    assert_eq!(effects, vec![Effect::Spawn(String::from("bemenu_run"))]);
}

#[test]
fn quit_keybind_stops_the_run_loop() {
    let mut state = state_with_output();
    assert!(state.running);
    let effects = state.process_input_event(InputEvent::Keyboard {
        pressed: true,
        modifier_bits: MOD_SUPER | MOD_SHIFT,
        keysym: KEY_Q,
        time: 0,
    });
    assert_eq!(effects, Vec::new());
    assert!(!state.running);
}

#[test]
fn unbound_key_is_forwarded() {
    let mut state = state_with_output();
    let effects = state.process_input_event(InputEvent::Keyboard {
        pressed: true,
        modifier_bits: 0,
        keysym: 0x61,
        time: 3,
    });
    assert_eq!(effects, vec![Effect::ForwardKey { keysym: 0x61, pressed: true, time: 3 }]);
}

#[test]
fn bound_key_release_is_forwarded_not_intercepted() {
    let mut state = state_with_output();
    let effects = state.process_input_event(InputEvent::Keyboard {
        pressed: false,
        modifier_bits: MOD_SUPER,
        keysym: KEY_P,
        time: 0,
    });
    assert_eq!(effects, vec![Effect::ForwardKey { keysym: KEY_P, pressed: false, time: 0 }]);
}

#[test]
fn keybind_lookup_finds_the_bound_action() {
    let config = Config::new();
    let bind = Keybind::new(KeyModifiers { bits: MOD_SUPER | MOD_SHIFT }, KEY_Q);
    assert_eq!(lookup_action(&config.keybinds, bind), Some(Action::Quit));
    let unbound = Keybind::new(KeyModifiers { bits: 0 }, KEY_Q);
    assert_eq!(lookup_action(&config.keybinds, unbound), None);
}

#[test]
fn press_inside_a_window_focuses_it_exclusively() {
    let mut state = state_with_output();
    state.new_toplevel(1, 10, Size { w: 100, h: 100 }, Point { x: 0, y: 0 });
    state.new_toplevel(2, 11, Size { w: 100, h: 100 }, Point { x: 200, y: 0 });
    motion_to(&mut state, 50, 50);
    press(&mut state, BTN_LEFT);
    let w1 = state.space.find_window(1).unwrap();
    let w2 = state.space.find_window(2).unwrap();
    assert!(w1.state.is_focused);
    assert!(!w2.state.is_focused);
    assert_eq!(state.keyboard_focus, Some(1));
    // the pressed window is on top now
    assert_eq!(state.space.elements()[1].id, 1);
    release(&mut state, BTN_LEFT);
}

#[test]
fn press_over_empty_space_clears_every_focus() {
    let mut state = state_with_output();
    state.new_toplevel(1, 10, Size { w: 100, h: 100 }, Point { x: 0, y: 0 });
    state.new_toplevel(2, 11, Size { w: 100, h: 100 }, Point { x: 200, y: 0 });
    motion_to(&mut state, 50, 50);
    press(&mut state, BTN_LEFT);
    release(&mut state, BTN_LEFT);
    motion_to(&mut state, 500, 500);
    let effects = press(&mut state, BTN_LEFT);
    assert!(!state.space.find_window(1).unwrap().state.is_focused);
    assert!(!state.space.find_window(2).unwrap().state.is_focused);
    assert_eq!(state.keyboard_focus, None);
    assert_eq!(
        effects,
        vec![
            Effect::SendPendingConfigureAll,
            Effect::Button { button: BTN_LEFT, pressed: true, time: 0 },
            Effect::Frame,
        ]
    );
}

#[test]
fn motion_transitions_focus_with_enter_and_leave() {
    let mut state = state_with_output();
    state.new_toplevel(1, 10, Size { w: 100, h: 100 }, Point { x: 0, y: 0 });
    let effects = motion_to(&mut state, 50, 50);
    assert_eq!(state.pointer_focus, Some(PointerFocusTarget::WindowElement(1)));
    assert_eq!(
        effects,
        vec![
            Effect::PointerEnter {
                target: PointerFocusTarget::WindowElement(1),
                location: sub(50, 50)
            },
            Effect::SendPendingConfigureAll,
            Effect::Motion {
                target: Some(PointerFocusTarget::WindowElement(1)),
                location: sub(50, 50),
                time: 0
            },
            Effect::Frame,
        ]
    );
    let effects = motion_to(&mut state, 500, 500);
    assert_eq!(state.pointer_focus, None);
    assert_eq!(state.keyboard_focus, None);
    assert_eq!(
        effects,
        vec![
            Effect::PointerLeave { target: PointerFocusTarget::WindowElement(1) },
            Effect::SendPendingConfigureAll,
            Effect::Motion { target: None, location: sub(500, 500), time: 0 },
            Effect::Frame,
        ]
    );
}

#[test]
fn grab_motion_moves_the_window_by_the_pointer_delta() {
    let mut state = state_with_output();
    state.new_toplevel(1, 10, Size { w: 100, h: 80 }, Point { x: 10, y: 20 });
    motion_to(&mut state, 15, 25);
    press(&mut state, BTN_LEFT);
    assert!(state.start_move_grab(1));
    motion_to(&mut state, 25, 30);
    assert_eq!(
        state.space.element_geometry(1, 0),
        Some(Rect { loc: Point { x: 20, y: 25 }, size: Size { w: 100, h: 80 } })
    );
}

#[test]
fn grab_motion_rounds_fractional_deltas_to_the_nearest_pixel() {
    let mut state = state_with_output();
    state.new_toplevel(1, 10, Size { w: 100, h: 80 }, Point { x: 10, y: 20 });
    motion_to(&mut state, 15, 25);
    press(&mut state, BTN_LEFT);
    assert!(state.start_move_grab(1));
    // half and quarter pixel pointer positions: a 10.5-pixel delta rounds
    // up (ties away from zero), a 5.25-pixel delta rounds down
    state.process_input_event(InputEvent::PointerMotionAbsolute {
        position: SubPoint {
            x: 25 * SUB_UNIT + SUB_UNIT / 2,
            y: 30 * SUB_UNIT + SUB_UNIT / 4,
        },
        time: 0,
    });
    assert_eq!(
        state.space.element_geometry(1, 0).map(|g| g.loc),
        Some(Point { x: 21, y: 25 })
    );
}

#[test]
fn releasing_the_last_button_ends_the_grab_and_motion_stops_moving() {
    let mut state = state_with_output();
    state.new_toplevel(1, 10, Size { w: 100, h: 80 }, Point { x: 10, y: 20 });
    motion_to(&mut state, 15, 25);
    press(&mut state, BTN_LEFT);
    assert!(state.start_move_grab(1));
    motion_to(&mut state, 25, 30);
    release(&mut state, BTN_LEFT);
    assert!(state.pointer.grab.is_none());
    motion_to(&mut state, 300, 300);
    assert_eq!(
        state.space.element_geometry(1, 0),
        Some(Rect { loc: Point { x: 20, y: 25 }, size: Size { w: 100, h: 80 } })
    );
}

#[test]
fn grab_requires_a_held_button_and_a_mapped_window() {
    let mut state = state_with_output();
    state.new_toplevel(1, 10, Size { w: 100, h: 80 }, Point { x: 10, y: 20 });
    assert!(!state.start_move_grab(1));
    press(&mut state, BTN_LEFT);
    assert!(!state.start_move_grab(9));
    assert!(state.start_move_grab(1));
    assert!(!state.start_move_grab(1));
}

#[test]
fn grab_suppresses_focus_routing() {
    let mut state = state_with_output();
    state.new_toplevel(1, 10, Size { w: 100, h: 80 }, Point { x: 10, y: 20 });
    motion_to(&mut state, 15, 25);
    press(&mut state, BTN_LEFT);
    assert!(state.start_move_grab(1));
    let effects = motion_to(&mut state, 16, 26);
    assert_eq!(state.pointer_focus, None);
    assert_eq!(
        effects,
        vec![
            Effect::PointerLeave { target: PointerFocusTarget::WindowElement(1) },
            Effect::SendPendingConfigureAll,
            Effect::Motion { target: None, location: sub(16, 26), time: 0 },
            Effect::Frame,
        ]
    );
}

#[test]
fn relative_motion_is_forwarded_and_added_to_the_position() {
    let mut state = state_with_output();
    motion_to(&mut state, 100, 100);
    let effects = state.process_input_event(InputEvent::PointerMotion {
        delta: SubPoint { x: 5 * SUB_UNIT, y: -3 * SUB_UNIT },
        delta_unaccel: SubPoint { x: 2 * SUB_UNIT, y: -SUB_UNIT },
        time: 9,
    });
    assert_eq!(state.pointer.location, sub(105, 97));
    assert_eq!(
        effects[0],
        Effect::RelativeMotion {
            target: None,
            delta: SubPoint { x: 5 * SUB_UNIT, y: -3 * SUB_UNIT },
            delta_unaccel: SubPoint { x: 2 * SUB_UNIT, y: -SUB_UNIT },
            time: 9
        }
    );
}

#[test]
fn handle_action_yields_only_spawn_commands() {
    let mut state = state_with_output();
    assert_eq!(state.handle_action(Action::Spawn(String::from("foot"))), Some(String::from("foot")));
    assert!(state.running);
    assert_eq!(state.handle_action(Action::NextWorkspace), None);
    assert!(state.running);
    assert_eq!(state.handle_action(Action::Quit), None);
    assert!(!state.running);
}
