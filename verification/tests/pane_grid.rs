use iced_widget::mouse::Interaction;
use iced_widget::pane_grid::axis::Axis;
use iced_widget::pane_grid::content::Content;
use iced_widget::pane_grid::controls::Controls;
use iced_widget::pane_grid::draggable::{Draggable, PickArea};
use iced_widget::pane_grid::node::{Count, Node, HALF_RATIO_BITS};
use iced_widget::pane_grid::pane::Pane;
use iced_widget::pane_grid::split::Split;
use iced_widget::pane_grid::title_bar::{ShownParts, TitleBar};

fn area(over_bounds: bool, over_controls: bool, over_compact: bool, overflows: bool) -> PickArea {
    PickArea { over_bounds, over_controls, over_compact, overflows }
}

/// Pane 0 split horizontally with pane 1, whose pane is split vertically
/// with pane 2.
fn sample() -> Node {
    let mut node = Node::Pane(Pane(0));
    node.split(Split(0), Axis::Horizontal, Pane(1));
    let found = node.find(Pane(1)).unwrap();
    found.split(Split(1), Axis::Vertical, Pane(2));
    node
}

#[test]
fn split_puts_the_new_pane_second() {
    let mut node = Node::Pane(Pane(7));
    assert_eq!(node.pane(), Some(Pane(7)));
    node.split(Split(3), Axis::Vertical, Pane(8));
    assert_eq!(node.pane(), None);
    assert_eq!(node.first_pane(), Pane(7));
    match &node {
        Node::Split { id, axis, ratio, a, b } => {
            assert_eq!(*id, Split(3));
            assert_eq!(*axis, Axis::Vertical);
            assert_eq!(*ratio, HALF_RATIO_BITS);
            assert_eq!(f32::from_bits(*ratio), 0.5);
            assert_eq!(a.pane(), Some(Pane(7)));
            assert_eq!(b.pane(), Some(Pane(8)));
        }
        Node::Pane(_) => panic!("expected a split"),
    }
}

#[test]
fn split_inverse_puts_the_new_pane_first() {
    let mut node = Node::Pane(Pane(7));
    node.split_inverse(Split(3), Axis::Horizontal, Pane(8));
    assert_eq!(node.first_pane(), Pane(8));
}

#[test]
fn splits_are_listed_depth_first_second_child_first() {
    let node = sample();
    assert_eq!(node.splits(), vec![Split(0), Split(1)]);
    let mut other = Node::Pane(Pane(0));
    other.split(Split(0), Axis::Horizontal, Pane(1));
    other.find(Pane(0)).unwrap().split(Split(5), Axis::Vertical, Pane(2));
    other.find(Pane(1)).unwrap().split(Split(6), Axis::Vertical, Pane(3));
    assert_eq!(other.splits(), vec![Split(0), Split(6), Split(5)]);
}

#[test]
fn count_adds_along_the_axis() {
    let node = sample();
    let count = node.count();
    assert_eq!(count.horizontal(), 1);
    assert_eq!(count.vertical(), 1);
    assert!(matches!(Node::Pane(Pane(0)).count(), Count::Pane));
    let mut row = Node::Pane(Pane(0));
    row.split(Split(0), Axis::Horizontal, Pane(1));
    row.find(Pane(1)).unwrap().split(Split(1), Axis::Horizontal, Pane(2));
    assert_eq!(row.count().horizontal(), 2);
    assert_eq!(row.count().vertical(), 0);
}

#[test]
fn find_missing_pane() {
    let mut node = sample();
    assert!(node.find(Pane(9)).is_none());
    assert!(node.find(Pane(2)).is_some());
}

#[test]
fn resize_sets_the_ratio_of_the_split() {
    let mut node = sample();
    let quarter = 0.25f32.to_bits();
    assert!(node.resize(Split(1), quarter));
    assert!(!node.resize(Split(9), quarter));
    match &node {
        Node::Split { ratio, b, .. } => {
            assert_eq!(*ratio, HALF_RATIO_BITS);
            match &**b {
                Node::Split { ratio, .. } => assert_eq!(*ratio, quarter),
                Node::Pane(_) => panic!("expected a split"),
            }
        }
        Node::Pane(_) => panic!("expected a split"),
    }
}

#[test]
fn remove_hands_back_the_sibling_first_pane() {
    let mut node = sample();
    assert_eq!(node.remove(Pane(2)), Some(Pane(1)));
    assert_eq!(node.splits(), vec![Split(0)]);
    assert_eq!(node.remove(Pane(0)), Some(Pane(1)));
    assert_eq!(node.pane(), Some(Pane(1)));
    assert_eq!(node.remove(Pane(1)), None);
    assert_eq!(node.remove(Pane(5)), None);
}

#[test]
fn title_bar_pick_area() {
    let bar: TitleBar<&str, ()> = TitleBar::new("title");
    // Without controls, the whole title bar (its title too) is the pick area.
    assert!(bar.is_over_pick_area(area(true, false, false, false)));
    assert!(!bar.is_over_pick_area(area(false, false, false, false)));
    let with_controls: TitleBar<&str, ()> = TitleBar::new("title").controls(Controls::new("x"));
    assert!(!with_controls.is_over_pick_area(area(true, true, false, false)));
    assert!(with_controls.is_over_pick_area(area(true, false, false, true)));
    assert!(!with_controls.is_over_pick_area(area(true, true, false, true)));
    let dynamic: TitleBar<&str, ()> =
        TitleBar::new("title").controls(Controls::dynamic("full", "compact"));
    assert!(!dynamic.is_over_pick_area(area(true, false, true, true)));
    assert!(dynamic.is_over_pick_area(area(true, true, false, true)));
    assert!(!dynamic.is_over_pick_area(area(true, true, false, false)));
}

#[test]
fn content_is_draggable_by_its_title_bar() {
    let plain: Content<&str, ()> = Content::new("body");
    assert!(!plain.can_be_dragged_at(area(true, false, false, false)));
    let titled: Content<&str, ()> = Content::new("body").title_bar(TitleBar::new("title"));
    assert!(titled.can_be_dragged_at(area(true, false, false, false)));
    assert!(!titled.can_be_dragged_at(area(false, false, false, false)));
}

#[test]
fn title_bar_parts() {
    let plain: TitleBar<&str, ()> = TitleBar::new("title");
    let title_only = ShownParts { title: true, full_controls: false, compact_controls: false };
    assert_eq!(plain.shown_parts(true, true), title_only);
    let full: TitleBar<&str, ()> = TitleBar::new("title").controls(Controls::new("x"));
    assert_eq!(full.shown_parts(false, false), title_only);
    assert_eq!(
        full.shown_parts(false, true),
        ShownParts { title: true, full_controls: true, compact_controls: false }
    );
    assert_eq!(
        full.shown_parts(true, true),
        ShownParts { title: false, full_controls: true, compact_controls: false }
    );
    let dynamic: TitleBar<&str, ()> =
        TitleBar::new("title").controls(Controls::dynamic("x", "y")).always_show_controls();
    assert_eq!(
        dynamic.shown_parts(true, false),
        ShownParts { title: true, full_controls: false, compact_controls: true }
    );
}

#[test]
fn grid_interaction_grabs_over_the_pick_area() {
    let titled: Content<&str, ()> = Content::new("body").title_bar(TitleBar::new("title"));
    let pick = area(true, false, false, false);
    assert_eq!(titled.grid_interaction(Some(pick), true), Some(Interaction::Grab));
    assert_eq!(titled.grid_interaction(Some(pick), false), None);
    assert_eq!(titled.grid_interaction(None, true), None);
    let plain: Content<&str, ()> = Content::new("body");
    assert_eq!(plain.grid_interaction(Some(pick), true), None);
}
