//! The composition laws of the library, stated over the specification models
//! of the widget capability set and proved once and for all.

use vstd::prelude::*;
use crate::event::Event;
use crate::explain::{outline_quads, outline_quads_seq, CosmicExplain};
use crate::geometry::{Point, Rectangle};
use crate::layer::{spec_child_layer, Layer};
use crate::layout::{node_count, node_count_seq, LayoutModel, Limits};
use crate::map::CosmicMap;
use crate::mapper::MessageMapper;
use crate::renderer::{spec_transparent, Color, Style};
use crate::tree::Tree;
use crate::widget::CosmicWidget;

verus! {

/// For every widget that is not a container, the derived child layer is the
/// widget's own layer, unchanged, whatever that layer is.
pub proof fn law_child_layer_leaf<M, W: CosmicWidget<M>>(w: W)
    requires
        !w.spec_is_container(),
    ensures
        spec_child_layer(w.spec_is_container(), w.spec_layer()) == w.spec_layer(),
{
}

/// For every container, the derived child layer promotes `Background` to
/// `Primary` and `Primary` to `Secondary`, and is idempotent at the ceiling:
/// `Secondary` children stay `Secondary`.
pub proof fn law_child_layer_container<M, W: CosmicWidget<M>>(w: W)
    requires
        w.spec_is_container(),
    ensures
        w.spec_layer() == Layer::Background ==> spec_child_layer(
            w.spec_is_container(),
            w.spec_layer(),
        ) == Layer::Primary,
        w.spec_layer() == Layer::Primary ==> spec_child_layer(
            w.spec_is_container(),
            w.spec_layer(),
        ) == Layer::Secondary,
        w.spec_layer() == Layer::Secondary ==> spec_child_layer(
            w.spec_is_container(),
            w.spec_layer(),
        ) == Layer::Secondary,
{
}

/// A remapping node hands every message of the wrapped widget to its parent
/// translated and in the original order — exactly one output per input, at
/// the same position, even when the translation is not injective — and
/// leaves the status and the state slot untouched.
pub proof fn law_map_preserves_messages<A, B, W: CosmicWidget<A>, F: MessageMapper<A, B>>(
    node: CosmicMap<A, B, W, F>,
    tree: Tree,
    event: Event,
    layout: LayoutModel,
    cursor: Point,
)
    ensures
        ({
            let inner = node.widget.spec_on_event(tree, event, layout, cursor);
            let outer = node.spec_on_event(tree, event, layout, cursor);
            &&& outer.messages.len() == inner.messages.len()
            &&& forall|i: int|
                0 <= i < inner.messages.len() ==> outer.messages[i] == node.mapper.spec_map(
                    #[trigger] inner.messages[i],
                )
            &&& outer.status == inner.status
            &&& outer.state == inner.state
        }),
{
}

/// Mapping twice composes: wrapping a remapping node in a second one hands
/// the parent, for every message `m` of the base widget, the message
/// `g(f(m))`, in the original order.
pub proof fn law_map_compose<
    A,
    B,
    C,
    W: CosmicWidget<A>,
    F: MessageMapper<A, B>,
    G: MessageMapper<B, C>,
>(
    node: CosmicMap<B, C, CosmicMap<A, B, W, F>, G>,
    tree: Tree,
    event: Event,
    layout: LayoutModel,
    cursor: Point,
)
    ensures
        ({
            let base = node.widget.widget.spec_on_event(tree, event, layout, cursor);
            let outer = node.spec_on_event(tree, event, layout, cursor);
            &&& outer.messages.len() == base.messages.len()
            &&& forall|i: int|
                0 <= i < base.messages.len() ==> outer.messages[i] == node.mapper.spec_map(
                    node.widget.mapper.spec_map(#[trigger] base.messages[i]),
                )
            &&& outer.status == base.status
            &&& outer.state == base.state
        }),
{
}

/// Explaining a node decomposes its draw output: first exactly the draw
/// output of the unwrapped node, then the outlines of the layout tree.
pub proof fn law_explain_draw<M, W: CosmicWidget<M>>(
    node: CosmicExplain<M, W>,
    tree: Tree,
    style: Style,
    layout: LayoutModel,
    cursor: Point,
    viewport: Rectangle,
)
    ensures
        node.spec_draw(tree, style, layout, cursor, viewport) == node.element.widget.spec_draw(
            tree,
            style,
            layout,
            cursor,
            viewport,
        ) + outline_quads(layout, node.color),
{
}

/// The outline pass issues exactly one quad per node of the geometry tree,
/// each with the given border color, a one-unit border, and a fully
/// transparent fill.
pub proof fn law_outline_quads(layout: LayoutModel, color: Color)
    ensures
        outline_quads(layout, color).len() == node_count(layout),
        forall|i: int|
            0 <= i < outline_quads(layout, color).len() ==> {
                &&& (#[trigger] outline_quads(layout, color)[i]).border_color == color
                &&& outline_quads(layout, color)[i].border_width == 1
                &&& outline_quads(layout, color)[i].fill == spec_transparent()
            },
    decreases layout,
{
    law_outline_quads_seq(layout.children, color);
}

/// The outline pass over a forest issues exactly one quad per node, each
/// with the given border color, a one-unit border, and a transparent fill.
pub proof fn law_outline_quads_seq(s: Seq<LayoutModel>, color: Color)
    ensures
        outline_quads_seq(s, color).len() == node_count_seq(s),
        forall|i: int|
            0 <= i < outline_quads_seq(s, color).len() ==> {
                &&& (#[trigger] outline_quads_seq(s, color)[i]).border_color == color
                &&& outline_quads_seq(s, color)[i].border_width == 1
                &&& outline_quads_seq(s, color)[i].fill == spec_transparent()
            },
    decreases s,
{
    if s.len() > 0 {
        law_outline_quads(s[0], color);
        law_outline_quads_seq(s.drop_first(), color);
    }
}

/// Explaining a node changes nothing but its drawing: layout, tag, state,
/// children, container flag, layer, event handling, operation traversal and
/// overlay production are those of the unwrapped node.
pub proof fn law_explain_is_pure_decoration<M, W: CosmicWidget<M>>(
    node: CosmicExplain<M, W>,
    tree: Tree,
    event: Event,
    limits: Limits,
    layout: LayoutModel,
    cursor: Point,
)
    ensures
        node.spec_layout(limits) == node.element.widget.spec_layout(limits),
        node.spec_tag() == node.element.widget.spec_tag(),
        node.spec_state() == node.element.widget.spec_state(),
        node.spec_children() == node.element.widget.spec_children(),
        node.spec_is_container() == node.element.widget.spec_is_container(),
        node.spec_layer() == node.element.widget.spec_layer(),
        node.op_visits(tree, layout) == node.element.widget.op_visits(tree, layout),
        node.spec_overlay(tree, layout) == node.element.widget.spec_overlay(tree, layout),
        ({
            let outer = node.spec_on_event(tree, event, layout, cursor);
            let inner = node.element.widget.spec_on_event(tree, event, layout, cursor);
            &&& outer.messages == inner.messages
            &&& outer.status == inner.status
            &&& outer.state == inner.state
            &&& outer.widget.element.widget == inner.widget
            &&& outer.widget.color == node.color
        }),
{
}

/// A remapping node yields an overlay exactly when the wrapped widget does,
/// at the same position, with every overlay message translated by the same
/// mapper, in order.
pub proof fn law_map_overlay<A, B, W: CosmicWidget<A>, F: MessageMapper<A, B>>(
    node: CosmicMap<A, B, W, F>,
    tree: Tree,
    layout: LayoutModel,
)
    ensures
        node.spec_overlay(tree, layout) is Some <==> node.widget.spec_overlay(tree, layout)
            is Some,
        node.widget.spec_overlay(tree, layout) is Some ==> ({
            let outer = node.spec_overlay(tree, layout)->Some_0;
            let inner = node.widget.spec_overlay(tree, layout)->Some_0;
            &&& outer.position == inner.position
            &&& outer.messages.len() == inner.messages.len()
            &&& forall|i: int|
                0 <= i < inner.messages.len() ==> outer.messages[i] == node.mapper.spec_map(
                    #[trigger] inner.messages[i],
                )
        }),
{
}

} // verus!
