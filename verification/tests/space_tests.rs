use wally::geometry::{Point, Rect, Size, SubPoint, SUB_UNIT};
use wally::space::{Output, Space, WindowElement};

fn rect(x: i64, y: i64, w: i64, h: i64) -> Rect {
    Rect { loc: Point { x, y }, size: Size { w, h } }
}

fn sub(x: i64, y: i64) -> SubPoint {
    SubPoint { x: x * SUB_UNIT, y: y * SUB_UNIT }
}

#[test]
fn mapping_a_window_twice_keeps_it_once() {
    let mut space = Space::new();
    let w = WindowElement::new(1, 10, rect(0, 0, 100, 100));
    space.map_element(w, Point { x: 0, y: 0 }, true);
    space.map_element(w, Point { x: 30, y: 40 }, true);
    assert_eq!(space.elements().len(), 1);
    assert_eq!(space.elements()[0].id, 1);
    assert_eq!(space.elements()[0].geometry.loc, Point { x: 30, y: 40 });
}

#[test]
fn unmap_removes_the_window_exactly_once() {
    let mut space = Space::new();
    space.map_element(WindowElement::new(1, 10, rect(0, 0, 50, 50)), Point { x: 0, y: 0 }, true);
    space.map_element(WindowElement::new(2, 11, rect(60, 0, 50, 50)), Point { x: 60, y: 0 }, true);
    assert_eq!(space.elements().len(), 2);
    space.unmap(1);
    assert_eq!(space.elements().len(), 1);
    assert_eq!(space.elements()[0].id, 2);
    space.unmap(1);
    assert_eq!(space.elements().len(), 1);
}

#[test]
fn refresh_prunes_dead_windows_in_order() {
    let mut space = Space::new();
    space.map_element(WindowElement::new(1, 10, rect(0, 0, 50, 50)), Point { x: 0, y: 0 }, false);
    space.map_element(WindowElement::new(2, 11, rect(60, 0, 50, 50)), Point { x: 60, y: 0 }, false);
    space.map_element(WindowElement::new(3, 12, rect(120, 0, 50, 50)), Point { x: 120, y: 0 }, false);
    space.set_alive(2, false);
    space.refresh();
    assert_eq!(space.elements().len(), 2);
    assert_eq!(space.elements()[0].id, 1);
    assert_eq!(space.elements()[1].id, 3);
}

#[test]
fn raise_moves_a_window_to_the_top_and_focuses_it() {
    let mut space = Space::new();
    space.map_element(WindowElement::new(1, 10, rect(0, 0, 50, 50)), Point { x: 0, y: 0 }, true);
    space.map_element(WindowElement::new(2, 11, rect(60, 0, 50, 50)), Point { x: 60, y: 0 }, true);
    space.raise_element(1, true);
    assert_eq!(space.elements().len(), 2);
    assert_eq!(space.elements()[1].id, 1);
    assert!(space.elements()[1].state.is_focused);
    assert!(!space.elements()[0].state.is_focused);
}

#[test]
fn element_under_returns_the_topmost_match() {
    let mut space = Space::new();
    space.map_element(WindowElement::new(1, 10, rect(0, 0, 100, 100)), Point { x: 0, y: 0 }, false);
    space.map_element(
        WindowElement::new(2, 11, rect(50, 50, 100, 100)),
        Point { x: 50, y: 50 },
        false,
    );
    assert_eq!(space.element_under(sub(60, 60), 0), Some((2, Point { x: 50, y: 50 })));
    assert_eq!(space.element_under(sub(10, 10), 0), Some((1, Point { x: 0, y: 0 })));
    assert_eq!(space.element_under(sub(400, 400), 0), None);
}

#[test]
fn hit_testing_includes_the_border() {
    let mut space = Space::new();
    space.map_element(WindowElement::new(1, 10, rect(0, 0, 100, 100)), Point { x: 0, y: 0 }, false);
    // one pixel up and left of the content is still inside a 2-pixel border
    assert_eq!(
        space.element_under(SubPoint { x: -SUB_UNIT, y: -SUB_UNIT }, 2),
        Some((1, Point { x: 0, y: 0 }))
    );
    assert_eq!(space.element_under(SubPoint { x: -SUB_UNIT, y: -SUB_UNIT }, 0), None);
}

#[test]
fn element_geometry_is_the_border_inflated_rectangle() {
    let mut space = Space::new();
    space.map_element(
        WindowElement::new(1, 10, rect(10, 20, 100, 80)),
        Point { x: 10, y: 20 },
        false,
    );
    assert_eq!(space.element_geometry(1, 2), Some(rect(8, 18, 104, 84)));
    assert_eq!(space.element_geometry(9, 2), None);
}

#[test]
fn inflate_grows_symmetrically() {
    let r = rect(10, 20, 100, 80);
    assert_eq!(r.inflate(2), rect(8, 18, 104, 84));
    assert_eq!(r.inflate(0), r);
}

#[test]
fn outputs_total_width_sums_all_outputs() {
    let mut space = Space::new();
    space.map_output(Output { id: 1, geometry: rect(0, 0, 800, 600), scale: 1 });
    space.map_output(Output { id: 2, geometry: rect(800, 0, 640, 480), scale: 1 });
    assert_eq!(space.outputs_total_width(), 1440);
}

#[test]
fn output_geometry_is_looked_up_by_id() {
    let mut space = Space::new();
    space.map_output(Output { id: 1, geometry: rect(0, 0, 800, 600), scale: 1 });
    assert_eq!(space.output_geometry(1), Some(rect(0, 0, 800, 600)));
    assert_eq!(space.output_geometry(2), None);
}

#[test]
fn remapping_an_output_updates_its_region() {
    let mut space = Space::new();
    space.map_output(Output { id: 1, geometry: rect(0, 0, 800, 600), scale: 1 });
    space.map_output(Output { id: 1, geometry: rect(0, 0, 1024, 768), scale: 1 });
    assert_eq!(space.outputs().len(), 1);
    assert_eq!(space.outputs_total_width(), 1024);
}
