use cosmic_widget::event::{Event, Shell, Status};
use cosmic_widget::geometry::{sat_add, Length, Point, Rectangle};
use cosmic_widget::layer::{child_layer_from, Layer};
use cosmic_widget::layout::{resolve, resolve_axis, Limits};
use cosmic_widget::operation::sat_inc;
use cosmic_widget::renderer::Color;
use cosmic_widget::tree::Tree;
use cosmic_widget::widget::CosmicWidget;
use cosmic_widget::widgets::LeafWidget;

fn leaf(layer: Layer) -> LeafWidget<u64> {
    LeafWidget {
        layer,
        width: Length::Units(10),
        height: Length::Units(20),
        tag: 1,
        state: 0,
        fill: Color { r: 1, g: 2, b: 3, a: 255 },
        trigger: 5,
        messages: vec![1, 2, 3],
        overlay_at: None,
        overlay_messages: vec![],
    }
}

#[test]
fn default_layer_is_background() {
    assert_eq!(Layer::default(), Layer::Background);
}

#[test]
fn layer_order_is_total() {
    assert!(Layer::Background < Layer::Primary);
    assert!(Layer::Primary < Layer::Secondary);
    assert!(Layer::Background < Layer::Secondary);
    assert!(Layer::Primary == Layer::Primary);
    assert!(!(Layer::Secondary < Layer::Background));
}

#[test]
fn promote_steps_up_and_saturates() {
    assert_eq!(Layer::Background.promote(), Layer::Primary);
    assert_eq!(Layer::Primary.promote(), Layer::Secondary);
    assert_eq!(Layer::Secondary.promote(), Layer::Secondary);
}

#[test]
fn child_layer_of_leaf_is_unchanged() {
    for layer in [Layer::Background, Layer::Primary, Layer::Secondary] {
        assert_eq!(leaf(layer).child_layer(), layer);
    }
}

#[test]
fn child_layer_of_container_promotes() {
    assert_eq!(child_layer_from(true, Layer::Background), Layer::Primary);
    assert_eq!(child_layer_from(true, Layer::Primary), Layer::Secondary);
    assert_eq!(child_layer_from(true, Layer::Secondary), Layer::Secondary);
}

#[test]
fn set_layer_round_trips_on_leaf() {
    for layer in [Layer::Background, Layer::Primary, Layer::Secondary] {
        let mut w = leaf(Layer::Background);
        w.set_layer(layer);
        assert_eq!(w.layer(), layer);
    }
}

#[test]
fn leaf_layout_resolves_units_within_limits() {
    let limits = Limits { min_width: 0, max_width: 100, min_height: 30, max_height: 100 };
    let w = leaf(Layer::Background);
    let node = w.layout(&limits);
    // width 10 fits; height 20 is clamped up to the minimum of 30
    assert_eq!(node.bounds, Rectangle { x: 0, y: 0, width: 10, height: 30 });
    assert_eq!(node.children.len(), 0);
}

#[test]
fn resolve_axis_strategies() {
    assert_eq!(resolve_axis(Length::Fill, 5, 80), 80);
    assert_eq!(resolve_axis(Length::FillPortion(2), 5, 80), 80);
    assert_eq!(resolve_axis(Length::Shrink, 5, 80), 5);
    assert_eq!(resolve_axis(Length::Units(50), 5, 80), 50);
    assert_eq!(resolve_axis(Length::Units(3), 5, 80), 5);
    assert_eq!(resolve_axis(Length::Units(200), 5, 80), 80);
}

#[test]
fn resolve_builds_origin_bounds() {
    let limits = Limits { min_width: 0, max_width: 64, min_height: 0, max_height: 48 };
    let r = resolve(&limits, Length::Fill, Length::Shrink);
    assert_eq!(r, Rectangle { x: 0, y: 0, width: 64, height: 0 });
}

#[test]
fn sat_add_saturates_at_the_edge() {
    assert_eq!(sat_add(1, 2), 3);
    assert_eq!(sat_add(u32::MAX, 1), u32::MAX);
    assert_eq!(sat_add(u32::MAX - 1, 1), u32::MAX);
    assert_eq!(sat_add(u32::MAX, u32::MAX), u32::MAX);
}

#[test]
fn diff_keeps_matching_slot_and_replaces_other() {
    let w = leaf(Layer::Background);
    let mut slot = Tree { tag: 1, state: 77 };
    w.diff(&mut slot);
    assert_eq!(slot, Tree { tag: 1, state: 77 });

    let mut other = Tree { tag: 9, state: 77 };
    w.diff(&mut other);
    assert_eq!(other, Tree { tag: 1, state: 0 });
}

#[test]
fn leaf_mouse_interaction_follows_bounds() {
    let limits = Limits { min_width: 0, max_width: 100, min_height: 0, max_height: 100 };
    let w = leaf(Layer::Background);
    let slot = Tree::new(1, 0);
    let node = w.layout(&limits);
    let inside = w.mouse_interaction(&slot, &node, Point { x: 5, y: 10 });
    let outside = w.mouse_interaction(&slot, &node, Point { x: 50, y: 10 });
    assert!(matches!(inside, cosmic_widget::renderer::Interaction::Pointer));
    assert!(matches!(outside, cosmic_widget::renderer::Interaction::Idle));
}

#[test]
fn tally_counters_saturate() {
        assert_eq!(sat_inc(0), 1);
    assert_eq!(sat_inc(u64::MAX - 1), u64::MAX);
    assert_eq!(sat_inc(u64::MAX), u64::MAX);
}

#[test]
fn tree_slot_holds_tag_and_state() {
    let t = Tree::new(3, 9);
    assert_eq!(t, Tree { tag: 3, state: 9 });
}

#[test]
fn leaf_emits_its_messages_when_triggered() {
    let mut w = leaf(Layer::Background);
    let mut slot = Tree::new(1, 0);
    let limits = Limits { min_width: 0, max_width: 100, min_height: 0, max_height: 100 };
    let node = w.layout(&limits);
    let mut shell: Shell<u64> = Shell::new();
    let status = w.on_event(&mut slot, Event { code: 5 }, &node, Point { x: 0, y: 0 }, &mut shell);
    assert_eq!(status, Status::Captured);
    assert_eq!(shell.into_messages(), vec![1, 2, 3]);
}
