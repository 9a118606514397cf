use svg_pan::gesture::GestureTracker;
use svg_pan::viewer::PanViewer;
use svg_pan::viewport::ViewBoxCenter;

#[test]
fn down_then_up_keeps_center() {
    let mut v = PanViewer::new();
    let before = v.center.to_svg_prop();
    v.on_pointer_down((10, 20));
    v.on_pointer_up();
    assert_eq!(v.center.x, 50);
    assert_eq!(v.center.y, 50);
    assert_eq!(v.center.to_svg_prop(), before);
    assert!(v.gesture.origin.is_none());
}

#[test]
fn drag_translates_center_by_negated_delta() {
    let mut v = PanViewer::new();
    v.on_pointer_down((10, 10));
    v.on_pointer_move((4, 7));
    // The pointer went by (-6, -3), so the center goes by (6, 3).
    assert_eq!(v.center.x, 56);
    assert_eq!(v.center.y, 53);
    assert_eq!(v.center.to_svg_prop(), "6 3 100 100");
}

#[test]
fn moves_are_relative_to_the_origin() {
    let mut v = PanViewer::new();
    v.on_pointer_down((0, 0));
    v.on_pointer_move((1, 1));
    assert_eq!((v.center.x, v.center.y), (49, 49));
    v.on_pointer_move((2, 2));
    // The second delta is (0,0) - (2,2), not (1,1) - (2,2).
    assert_eq!((v.center.x, v.center.y), (47, 47));
    assert_eq!(v.gesture.origin, Some((0, 0)));
}

#[test]
fn move_without_down_changes_nothing() {
    let mut v = PanViewer::new();
    v.on_pointer_move((30, 40));
    assert_eq!((v.center.x, v.center.y), (50, 50));
    assert!(v.gesture.origin.is_none());
}

#[test]
fn new_viewer_shows_initial_view_box() {
    let v = PanViewer::new();
    assert_eq!(v.center.to_svg_prop(), "0 0 100 100");
    assert!(v.gesture.origin.is_none());
}

#[test]
fn tracker_reports_origin_relative_delta() {
    let mut t = GestureTracker::new();
    assert_eq!(t.pan_delta((3, 4)), None);
    t.pointer_down((10, 10));
    assert_eq!(t.pan_delta((4, 7)), Some((6, 3)));
    assert_eq!(t.origin, Some((10, 10)));
    t.pointer_up();
    assert_eq!(t.pan_delta((4, 7)), None);
}

#[test]
fn reduce_adds_the_delta() {
    let c = ViewBoxCenter { x: 50, y: 50 };
    let c2 = c.reduce((-3, 12));
    assert_eq!((c2.x, c2.y), (47, 62));
}
