use iced::advanced::Shell;
use iced::mouse::Interaction;
use iced::Length;
use iced_mouse_layer::geometry::{Anchor, Point, Rectangle, Size, Vector};
use iced_mouse_layer::{mouse_layer, MouseLayer};
use iced_mouse_layer::overlay::{Clip, Draw, Limits, Node, Overlay};
use iced_mouse_layer::State;

fn overlay_at(cursor: Option<Point>, offset: Vector, translation: Vector) -> Overlay {
    Overlay { cursor_position: cursor, offset, translation, viewport: Rectangle::new(0, 0, 800, 600) }
}

#[test]
fn scenario_follow_leave_return() {
    let layer = mouse_layer("content").offset(15, 15);
    let mut state = State::new();
    let viewport = Rectangle::new(0, 0, 800, 600);
    let content = Size::new(120, 40);
    let mut messages: Vec<()> = Vec::new();
    let mut shell = Shell::new(&mut messages);

    assert!(layer.update(&mut state, Some(Point::new(100, 100)), &mut shell));
    let overlay = layer.overlay(&state, viewport, Vector::zero());
    let node = overlay.layout(content);
    assert_eq!(node.origin, Anchor { x: 115, y: 115 });
    assert_eq!(
        overlay.draw(&node),
        Some(Draw { origin: Anchor { x: 115, y: 115 }, size: content, clip: Clip::Unbounded })
    );

    assert!(layer.update(&mut state, None, &mut shell));
    let overlay = layer.overlay(&state, viewport, Vector::zero());
    let node = overlay.layout(content);
    assert_eq!(node, Node::empty());
    assert_eq!(overlay.draw(&node), None);

    assert!(layer.update(&mut state, Some(Point::new(50, 50)), &mut shell));
    let overlay = layer.overlay(&state, viewport, Vector::zero());
    let node = overlay.layout(content);
    assert_eq!(node.origin, Anchor { x: 65, y: 65 });
    assert_eq!(
        overlay.draw(&node),
        Some(Draw { origin: Anchor { x: 65, y: 65 }, size: content, clip: Clip::Unbounded })
    );
}

#[test]
fn scenario_negative_offset_is_not_clamped() {
    let layer = mouse_layer("content").offset(-50, -50);
    let mut state = State::new();
    state.observe(Some(Point::new(10, 10)));
    let overlay = layer.overlay(&state, Rectangle::new(0, 0, 800, 600), Vector::zero());
    assert_eq!(overlay.anchor(), Some(Anchor { x: -40, y: -40 }));
    let node = overlay.layout(Size::new(30, 30));
    assert_eq!(
        node,
        Node { origin: Anchor { x: -40, y: -40 }, size: Size::new(30, 30), holds_content: true }
    );
    assert_eq!(
        overlay.draw(&node),
        Some(Draw { origin: Anchor { x: -40, y: -40 }, size: Size::new(30, 30), clip: Clip::Unbounded })
    );
}

#[test]
fn anchor_of_adds_all_three() {
    let anchor = Anchor::of(Point::new(7, -3), Vector::new(-20, 11), Vector::new(4, 100));
    assert_eq!(anchor, Anchor { x: -9, y: 108 });
}

#[test]
fn anchor_is_exact_at_the_ends_of_the_range() {
    let most = Anchor::of(
        Point::new(i32::MAX, i32::MAX),
        Vector::new(i32::MAX, i32::MAX),
        Vector::new(i32::MAX, i32::MAX),
    );
    assert_eq!(most, Anchor { x: 6_442_450_941, y: 6_442_450_941 });
    let least = Anchor::of(
        Point::new(i32::MIN, i32::MIN),
        Vector::new(i32::MIN, i32::MIN),
        Vector::new(i32::MIN, i32::MIN),
    );
    assert_eq!(least, Anchor { x: -6_442_450_944, y: -6_442_450_944 });
    let mixed = Anchor::of(Point::new(i32::MAX, i32::MIN), Vector::new(1, -1), Vector::zero());
    assert_eq!(mixed, Anchor { x: 2_147_483_648, y: -2_147_483_649 });
}

#[test]
fn translation_of_the_pass_moves_the_anchor() {
    let overlay = overlay_at(Some(Point::new(200, 300)), Vector::new(10, -10), Vector::new(-35, 48));
    assert_eq!(overlay.anchor(), Some(Anchor { x: 175, y: 338 }));
    assert_eq!(overlay.layout(Size::new(1, 2)).origin, Anchor { x: 175, y: 338 });
}

#[test]
fn no_cursor_means_empty_layout_and_no_drawing() {
    let overlay = overlay_at(None, Vector::new(15, 15), Vector::new(3, 3));
    assert_eq!(overlay.anchor(), None);
    assert_eq!(overlay.limits(), None);
    let node = overlay.layout(Size::new(120, 40));
    assert_eq!(node, Node { origin: Anchor { x: 0, y: 0 }, size: Size::new(0, 0), holds_content: false });
    assert_eq!(overlay.draw(&node), None);
    let stale = Node { origin: Anchor { x: 115, y: 115 }, size: Size::new(120, 40), holds_content: true };
    assert_eq!(overlay.draw(&stale), None);
}

#[test]
fn layout_without_content_is_not_drawn() {
    let overlay = overlay_at(Some(Point::new(1, 1)), Vector::zero(), Vector::zero());
    assert_eq!(overlay.draw(&Node::empty()), None);
}

#[test]
fn limits_run_from_nothing_to_the_viewport() {
    let overlay = Overlay {
        cursor_position: Some(Point::new(5, 5)),
        offset: Vector::zero(),
        translation: Vector::zero(),
        viewport: Rectangle::new(-30, 70, 1024, 768),
    };
    assert_eq!(
        overlay.limits(),
        Some(Limits { min: Size::new(0, 0), max: Size::new(1024, 768) })
    );
}

#[test]
fn content_of_no_extent_is_still_placed() {
    let overlay = overlay_at(Some(Point::new(100, 100)), Vector::new(15, 15), Vector::zero());
    let node = overlay.layout(Size::zero());
    assert_eq!(
        node,
        Node { origin: Anchor { x: 115, y: 115 }, size: Size::new(0, 0), holds_content: true }
    );
    assert_eq!(
        overlay.draw(&node),
        Some(Draw { origin: Anchor { x: 115, y: 115 }, size: Size::new(0, 0), clip: Clip::Unbounded })
    );
}

#[test]
fn content_beyond_the_viewport_is_still_laid_out_and_drawn() {
    let overlay = overlay_at(Some(Point::new(790, 590)), Vector::new(5000, 5000), Vector::zero());
    let node = overlay.layout(Size::new(64, 64));
    assert_eq!(node.origin, Anchor { x: 5790, y: 5590 });
    assert!(node.holds_content);
    assert_eq!(
        overlay.draw(&node),
        Some(Draw { origin: Anchor { x: 5790, y: 5590 }, size: Size::new(64, 64), clip: Clip::Unbounded })
    );
}

#[test]
fn new_layer_sits_right_at_the_cursor() {
    let layer = MouseLayer::new(7u8);
    let mut state = State::new();
    state.observe(Some(Point::new(12, 34)));
    let overlay = layer.overlay(&state, Rectangle::new(0, 0, 1, 1), Vector::zero());
    assert_eq!(overlay.offset, Vector::new(0, 0));
    assert_eq!(overlay.anchor(), Some(Anchor { x: 12, y: 34 }));
    assert_eq!(*layer.content(), 7u8);
}

#[test]
fn offset_given_when_built_holds_for_every_overlay() {
    let mut layer = mouse_layer(String::from("ghost")).offset(15, -8);
    let mut state = State::new();
    let mut messages: Vec<()> = Vec::new();
    let mut shell = Shell::new(&mut messages);
    let viewport = Rectangle::new(0, 0, 800, 600);
    for (step, report) in [Some(Point::new(1, 2)), None, Some(Point::new(-9, 9))].into_iter().enumerate() {
        layer.update(&mut state, report, &mut shell);
        layer.content_mut().push('!');
        let translation = Vector::new(step as i32, 0);
        let overlay = layer.overlay(&state, viewport, translation);
        assert_eq!(
            overlay,
            Overlay { cursor_position: report, offset: Vector::new(15, -8), translation, viewport }
        );
    }
    assert_eq!(layer.content(), "ghost!!!");
}

#[test]
fn later_offset_replaces_the_earlier_one() {
    let layer = mouse_layer(()).offset(1, 2).offset(-3, -4);
    let overlay = layer.overlay(&State::new(), Rectangle::new(0, 0, 1, 1), Vector::zero());
    assert_eq!(overlay.offset, Vector::new(-3, -4));
}

#[test]
fn overlay_is_made_without_a_cursor_too() {
    let layer = mouse_layer(()).offset(15, 15);
    let viewport = Rectangle::new(0, 0, 800, 600);
    let overlay = layer.overlay(&State::new(), viewport, Vector::new(2, 3));
    assert_eq!(
        overlay,
        Overlay {
            cursor_position: None,
            offset: Vector::new(15, 15),
            translation: Vector::new(2, 3),
            viewport,
        }
    );
}

#[test]
fn base_widget_takes_no_room() {
    let layer = mouse_layer(());
    assert_eq!(layer.size(), (Length::Shrink, Length::Shrink));
    assert_eq!(layer.layout(), Node::empty());
    assert_eq!(
        Node::empty(),
        Node { origin: Anchor::origin(), size: Size::zero(), holds_content: false }
    );
}

#[test]
fn overlay_claims_no_cursor_icon() {
    let overlay = overlay_at(Some(Point::new(1, 1)), Vector::zero(), Vector::zero());
    assert_eq!(overlay.mouse_interaction(), Interaction::None);
    assert_eq!(overlay_at(None, Vector::zero(), Vector::zero()).mouse_interaction(), Interaction::None);
}

#[test]
fn rectangle_size_drops_the_corner() {
    assert_eq!(Rectangle::new(-5, 9, 300, 200).size(), Size { width: 300, height: 200 });
}
