use std::marker::PhantomData;

use cosmic_widget::element::CosmicElement;
use cosmic_widget::event::{Event, Shell, Status};
use cosmic_widget::geometry::{Length, Point, Rectangle};
use cosmic_widget::layer::Layer;
use cosmic_widget::layout::Limits;
use cosmic_widget::map::CosmicMap;
use cosmic_widget::mapper::{ConstMapper, IndexMapper, Indexed, MessageMapper};
use cosmic_widget::operation::Tally;
use cosmic_widget::renderer::{Color, Renderer, Style};
use cosmic_widget::tree::Tree;
use cosmic_widget::widget::CosmicWidget;
use cosmic_widget::widgets::{ContainerWidget, LeafWidget};

const TRIGGER: u64 = 5;

fn leaf(tag: u64, messages: Vec<u64>) -> LeafWidget<u64> {
    LeafWidget {
        layer: Layer::Background,
        width: Length::Units(10),
        height: Length::Units(20),
        tag,
        state: 0,
        fill: Color { r: 10, g: 20, b: 30, a: 255 },
        trigger: TRIGGER,
        messages,
        overlay_at: None,
        overlay_messages: vec![],
    }
}

fn column(tag: u64) -> ContainerWidget<u64, LeafWidget<u64>> {
    ContainerWidget {
        layer: Layer::Background,
        width: Length::Fill,
        height: Length::Fill,
        tag,
        state: 0,
        children: vec![leaf(1, vec![1]), leaf(2, vec![2])],
        marker: PhantomData,
    }
}

fn limits() -> Limits {
    Limits { min_width: 0, max_width: 100, min_height: 0, max_height: 100 }
}

fn style() -> Style {
    Style { text_color: Color { r: 0, g: 0, b: 0, a: 255 } }
}

#[test]
fn shell_publishes_in_order() {
    let mut shell: Shell<u64> = Shell::new();
    shell.publish(1);
    shell.publish(2);
    assert_eq!(shell.messages(), &vec![1, 2]);
    assert_eq!(shell.into_messages(), vec![1, 2]);
}

#[test]
fn shell_merge_translates_and_appends() {
    let mut outer: Shell<u64> = Shell::new();
    outer.publish(100);
    let mut inner: Shell<u64> = Shell::new();
    inner.publish(1);
    inner.publish(2);
    outer.merge(inner, &ConstMapper { value: 9u64 });
    assert_eq!(outer.into_messages(), vec![100, 9, 9]);
}

#[test]
fn map_preserves_message_order() {
    let mut node = CosmicMap::new(leaf(1, vec![1, 2, 3]), IndexMapper { index: 7 });
    let mut slot = Tree::new(1, 0);
    let layout = node.layout(&limits());
    let mut shell: Shell<Indexed<u64>> = Shell::new();
    let status = node.on_event(
        &mut slot,
        Event { code: TRIGGER },
        &layout,
        Point { x: 0, y: 0 },
        &mut shell,
    );
    assert_eq!(status, Status::Captured);
    assert_eq!(
        shell.into_messages(),
        vec![
            Indexed { index: 7, message: 1 },
            Indexed { index: 7, message: 2 },
            Indexed { index: 7, message: 3 },
        ]
    );
}

#[test]
fn map_allows_non_injective_mappers() {
    let mut node = CosmicMap::new(leaf(1, vec![1, 2, 3]), ConstMapper { value: 9u64 });
    let mut slot = Tree::new(1, 0);
    let layout = node.layout(&limits());
    let mut shell: Shell<u64> = Shell::new();
    let status = node.on_event(
        &mut slot,
        Event { code: TRIGGER },
        &layout,
        Point { x: 0, y: 0 },
        &mut shell,
    );
    assert_eq!(status, Status::Captured);
    assert_eq!(shell.into_messages(), vec![9, 9, 9]);
}

#[test]
fn map_forwards_ignored_status_unchanged() {
    let mut node = CosmicMap::new(leaf(1, vec![1, 2, 3]), IndexMapper { index: 7 });
    let mut slot = Tree::new(1, 0);
    let layout = node.layout(&limits());
    let mut shell: Shell<Indexed<u64>> = Shell::new();
    let status = node.on_event(
        &mut slot,
        Event { code: TRIGGER + 1 },
        &layout,
        Point { x: 0, y: 0 },
        &mut shell,
    );
    assert_eq!(status, Status::Ignored);
    assert_eq!(shell.into_messages(), vec![]);
}

#[test]
fn mapping_twice_composes() {
    let element = CosmicElement::new(leaf(1, vec![4]));
    let mapped = element.map(IndexMapper { index: 1 }).map(IndexMapper { index: 2 });
    let mut node = mapped.widget;
    let mut slot = Tree::new(1, 0);
    let layout = node.layout(&limits());
    let mut shell: Shell<Indexed<Indexed<u64>>> = Shell::new();
    node.on_event(&mut slot, Event { code: TRIGGER }, &layout, Point { x: 0, y: 0 }, &mut shell);
    assert_eq!(
        shell.into_messages(),
        vec![Indexed { index: 2, message: Indexed { index: 1, message: 4 } }]
    );
}

#[test]
fn map_is_transparent_for_layout_tag_and_layer() {
    let inner = leaf(3, vec![]);
    let node = CosmicMap::new(leaf(3, vec![]), IndexMapper { index: 0 });
    assert_eq!(node.tag(), inner.tag());
    assert_eq!(node.layer(), inner.layer());
    assert_eq!(node.width(), inner.width());
    assert_eq!(node.height(), inner.height());
    assert!(!node.is_container());
    let a = node.layout(&limits());
    let b = inner.layout(&limits());
    assert_eq!(a.bounds, b.bounds);
    assert_eq!(a.children.len(), b.children.len());
}

#[test]
fn map_round_trips_set_layer() {
    let mut node = CosmicMap::new(leaf(1, vec![]), IndexMapper { index: 0 });
    node.set_layer(Layer::Secondary);
    assert_eq!(node.layer(), Layer::Secondary);
    assert_eq!(node.widget.layer, Layer::Secondary);
}

#[test]
fn map_translates_overlay_messages() {
    let mut inner = leaf(1, vec![]);
    inner.overlay_at = Some(Point { x: 4, y: 5 });
    inner.overlay_messages = vec![1, 2];
    let node = CosmicMap::new(inner, IndexMapper { index: 3 });
    let slot = Tree::new(1, 0);
    let layout = node.layout(&limits());
    let overlay = node.overlay(&slot, &layout).expect("overlay expected");
    assert_eq!(overlay.position, Point { x: 4, y: 5 });
    assert_eq!(
        overlay.messages,
        vec![Indexed { index: 3, message: 1 }, Indexed { index: 3, message: 2 }]
    );
}

#[test]
fn map_without_overlay_yields_none() {
    let node = CosmicMap::new(leaf(1, vec![]), IndexMapper { index: 3 });
    let slot = Tree::new(1, 0);
    let layout = node.layout(&limits());
    assert!(node.overlay(&slot, &layout).is_none());
}

#[test]
fn operate_tallies_the_same_through_a_map() {
    let direct = column(9);
    let node = CosmicMap::new(column(9), IndexMapper { index: 0 });
    let slot = Tree::new(9, 0);
    let layout = direct.layout(&limits());
    let a: Tally = direct.operate(&slot, &layout, Tally::new());
    let b: Tally = node.operate(&slot, &layout, Tally::new());
    assert_eq!(a, b);
    assert_eq!(a.containers, 1);
    assert_eq!(a.focusables, 2);
    assert_eq!(a.scrollables, 0);
    assert_eq!(a.text_inputs, 0);
}

#[test]
fn container_layout_stacks_children() {
    let w = column(9);
    let node = w.layout(&limits());
    assert_eq!(node.bounds, Rectangle { x: 0, y: 0, width: 100, height: 100 });
    assert_eq!(node.children.len(), 2);
    assert_eq!(node.children[0].bounds, Rectangle { x: 0, y: 0, width: 10, height: 20 });
    assert_eq!(node.children[1].bounds, Rectangle { x: 0, y: 20, width: 10, height: 20 });
}

#[test]
fn container_set_layer_promotes_children() {
    let mut w = column(9);
    w.set_layer(Layer::Primary);
    assert_eq!(w.layer(), Layer::Primary);
    assert_eq!(w.children[0].layer, Layer::Secondary);
    assert_eq!(w.children[1].layer, Layer::Secondary);
    assert_eq!(w.child_layer(), Layer::Secondary);
}

#[test]
fn container_children_report_fresh_slots() {
    let w = column(9);
    let slots = w.children();
    assert_eq!(slots, vec![Tree { tag: 1, state: 0 }, Tree { tag: 2, state: 0 }]);
}

#[test]
fn explain_draw_appends_one_outline_per_layout_node() {
    let color = Color { r: 255, g: 0, b: 0, a: 255 };
    let element = CosmicElement::new(column(9));
    let explained = element.explain(color);
    let node = explained.widget;
    let slot = Tree::new(9, 0);
    let layout = node.layout(&limits());

    let mut renderer = Renderer::new();
    node.draw(
        &slot,
        &mut renderer,
        &style(),
        &layout,
        Point { x: 0, y: 0 },
        &Rectangle { x: 0, y: 0, width: 100, height: 100 },
    );
    // the container itself paints nothing, so only the outlines remain:
    // one per node of the geometry tree (the root and its two children)
    let commands = renderer.commands();
    assert_eq!(commands.len(), 3);
    for quad in commands.iter() {
        assert_eq!(quad.border_color, color);
        assert_eq!(quad.border_width, 1);
        assert_eq!(quad.fill, Color { r: 0, g: 0, b: 0, a: 0 });
    }
    assert_eq!(commands[0].bounds, Rectangle { x: 0, y: 0, width: 100, height: 100 });
    assert_eq!(commands[1].bounds, Rectangle { x: 0, y: 0, width: 10, height: 20 });
    assert_eq!(commands[2].bounds, Rectangle { x: 0, y: 20, width: 10, height: 20 });
}

#[test]
fn explain_keeps_the_wrapped_draw_output_first() {
    let color = Color { r: 0, g: 255, b: 0, a: 255 };
    let plain = leaf(1, vec![]);
    let mut plain_renderer = Renderer::new();
    let slot = Tree::new(1, 0);
    let layout = plain.layout(&limits());
    plain.draw(
        &slot,
        &mut plain_renderer,
        &style(),
        &layout,
        Point { x: 0, y: 0 },
        &Rectangle { x: 0, y: 0, width: 100, height: 100 },
    );

    let explained = CosmicElement::new(leaf(1, vec![])).explain(color);
    let node = explained.widget;
    let mut renderer = Renderer::new();
    node.draw(
        &slot,
        &mut renderer,
        &style(),
        &layout,
        Point { x: 0, y: 0 },
        &Rectangle { x: 0, y: 0, width: 100, height: 100 },
    );

    let plain_commands = plain_renderer.commands();
    let commands = renderer.commands();
    assert_eq!(commands.len(), plain_commands.len() + 1);
    assert_eq!(&commands[..plain_commands.len()], &plain_commands[..]);
    assert_eq!(commands[plain_commands.len()].border_color, color);
}

#[test]
fn explain_is_a_pure_decoration() {
    let plain = leaf(1, vec![7, 8]);
    let explained = CosmicElement::new(leaf(1, vec![7, 8])).explain(Color {
        r: 1,
        g: 2,
        b: 3,
        a: 4,
    });
    let mut node = explained.widget;
    assert_eq!(node.tag(), plain.tag());
    assert_eq!(node.state(), plain.state());
    assert_eq!(node.children(), plain.children());
    assert_eq!(node.layer(), plain.layer());
    assert!(!node.is_container());
    let a = node.layout(&limits());
    let b = plain.layout(&limits());
    assert_eq!(a.bounds, b.bounds);
    assert_eq!(a.children.len(), b.children.len());

    let mut slot = Tree::new(1, 0);
    let mut shell: Shell<u64> = Shell::new();
    let status = node.on_event(
        &mut slot,
        Event { code: TRIGGER },
        &a,
        Point { x: 0, y: 0 },
        &mut shell,
    );
    assert_eq!(status, Status::Captured);
    assert_eq!(shell.into_messages(), vec![7, 8]);
}

#[test]
fn explain_round_trips_set_layer() {
    let explained = CosmicElement::new(leaf(1, vec![])).explain(Color { r: 0, g: 0, b: 0, a: 255 });
    let mut node = explained.widget;
    node.set_layer(Layer::Primary);
    assert_eq!(node.layer(), Layer::Primary);
}

#[test]
fn element_exposes_its_widget() {
    let mut element = CosmicElement::new(leaf(4, vec![]));
    assert_eq!(element.as_widget().tag(), 4);
    element.as_widget_mut().set_layer(Layer::Secondary);
    assert_eq!(element.as_widget().layer(), Layer::Secondary);
}

#[test]
fn mapper_values_translate_one_message() {
    assert_eq!(IndexMapper { index: 2 }.map_msg(5u64), Indexed { index: 2, message: 5 });
    assert_eq!(ConstMapper { value: 1u8 }.map_msg(999u64), 1u8);
}
