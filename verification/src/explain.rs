//! The explain decorator: forwards every operation to the wrapped element
//! and, after the normal draw pass, outlines every region of the computed
//! geometry tree in a fixed color, to make the layout visible.

use vstd::prelude::*;
use crate::element::CosmicElement;
use crate::event::{Event, Shell, Status};
use crate::geometry::{Length, Point, Rectangle};
use crate::layer::Layer;
use crate::layout::{lemma_layout_model_seq, lemma_node_count_child, node_count, LayoutModel, LayoutNode, Limits};
use crate::operation::{OpVisit, Operation};
use crate::renderer::{spec_transparent, Color, Interaction, Quad, Renderer, Style};
use crate::tree::Tree;
use crate::widget::{CosmicWidget, EventResult, Overlay, OverlayModel};

verus! {

/// The one-unit-wide, unfilled outline drawn around one layout region.
pub open spec fn outline_quad(bounds: Rectangle, color: Color) -> Quad {
    Quad { bounds, border_color: color, border_width: 1, fill: spec_transparent() }
}

/// The outlines of a whole geometry tree, depth first: the node's own
/// outline, then its children's, in order.
pub open spec fn outline_quads(n: LayoutModel, color: Color) -> Seq<Quad>
    decreases n,
{
    seq![outline_quad(n.bounds, color)] + outline_quads_seq(n.children, color)
}

/// The outlines of a forest of geometry trees, in order.
pub open spec fn outline_quads_seq(s: Seq<LayoutModel>, color: Color) -> Seq<Quad>
    decreases s,
{
    if s.len() == 0 {
        Seq::empty()
    } else {
        outline_quads(s[0], color) + outline_quads_seq(s.drop_first(), color)
    }
}

/// Outlining a forest split in two legs outlines the legs one after the
/// other.
pub proof fn lemma_outline_quads_seq_append(a: Seq<LayoutModel>, b: Seq<LayoutModel>, color: Color)
    ensures
        outline_quads_seq(a + b, color) == outline_quads_seq(a, color) + outline_quads_seq(
            b,
            color,
        ),
    decreases a.len(),
{
    if a.len() == 0 {
        assert(a + b =~= b);
        assert(outline_quads_seq(a, color) + outline_quads_seq(b, color) =~= outline_quads_seq(
            b,
            color,
        ));
    } else {
        assert((a + b)[0] == a[0]);
        assert((a + b).drop_first() =~= a.drop_first() + b);
        lemma_outline_quads_seq_append(a.drop_first(), b, color);
        assert(outline_quads_seq(a + b, color) =~= outline_quads_seq(a, color)
            + outline_quads_seq(b, color));
    }
}

/// Draws a one-unit-wide, transparent-filled outline around every node of
/// the geometry tree, the node itself first, then its children depth first.
pub fn explain_layout(renderer: &mut Renderer, color: Color, layout: &LayoutNode)
    ensures
        final(renderer)@ == old(renderer)@ + outline_quads(layout@, color),
    decreases node_count(layout@),
{
    let ghost base = renderer@;
    let ghost model_children = layout@.children;
    renderer.fill_quad(
        Quad {
            bounds: layout.bounds,
            border_color: color,
            border_width: 1,
            fill: Color::transparent(),
        },
    );
    let mut i: usize = 0;
    while i < layout.children.len()
        invariant
            i <= layout.children.len(),
            model_children == layout@.children,
            renderer@ =~= base + seq![outline_quad(layout.bounds, color)] + outline_quads_seq(
                model_children.take(i as int),
                color,
            ),
        decreases layout.children.len() - i,
    {
        proof {
            lemma_layout_model_seq(layout.children@);
            lemma_node_count_child(model_children, i as int);
            assert(node_count(layout.children@[i as int]@) < node_count(layout@));
        }
        explain_layout(renderer, color, &layout.children[i]);
        proof {
            lemma_layout_model_seq(layout.children@);
            let s = model_children;
            assert(s.take(i + 1) =~= s.take(i as int) + seq![s[i as int]]);
            lemma_outline_quads_seq_append(s.take(i as int), seq![s[i as int]], color);
            assert(seq![s[i as int]].drop_first() =~= Seq::<LayoutModel>::empty());
            assert(outline_quads_seq(seq![s[i as int]], color) =~= outline_quads(
                s[i as int],
                color,
            ) + outline_quads_seq(Seq::<LayoutModel>::empty(), color));
            assert(renderer@ =~= base + seq![outline_quad(layout.bounds, color)]
                + outline_quads_seq(s.take(i + 1), color));
        }
        i += 1;
    }
    proof {
        lemma_layout_model_seq(layout.children@);
        assert(model_children.take(layout.children@.len() as int) =~= model_children);
        assert(renderer@ =~= base + outline_quads(layout@, color));
    }
}

/// A node marked as to-be-explained: the wrapped element plus the color its
/// layout regions are outlined in.
pub struct CosmicExplain<M, W: CosmicWidget<M>> {
    /// The explained element.
    pub element: CosmicElement<M, W>,
    /// The outline color.
    pub color: Color,
}

impl<M, W: CosmicWidget<M>> CosmicExplain<M, W> {
    /// Wraps an element for explaining.
    pub fn new(element: CosmicElement<M, W>, color: Color) -> (e: Self)
        ensures
            e.element == element,
            e.color == color,
    {
        CosmicExplain { element, color }
    }
}

impl<M, W: CosmicWidget<M>> CosmicWidget<M> for CosmicExplain<M, W> {
    open spec fn spec_is_container(&self) -> bool {
        self.element.widget.spec_is_container()
    }

    open spec fn spec_layer(&self) -> Layer {
        self.element.widget.spec_layer()
    }

    open spec fn spec_width(&self) -> Length {
        self.element.widget.spec_width()
    }

    open spec fn spec_height(&self) -> Length {
        self.element.widget.spec_height()
    }

    open spec fn spec_tag(&self) -> u64 {
        self.element.widget.spec_tag()
    }

    open spec fn spec_state(&self) -> u64 {
        self.element.widget.spec_state()
    }

    open spec fn spec_children(&self) -> Seq<Tree> {
        self.element.widget.spec_children()
    }

    open spec fn spec_diff(&self, tree: Tree) -> Tree {
        self.element.widget.spec_diff(tree)
    }

    open spec fn spec_layout(&self, limits: Limits) -> LayoutModel {
        self.element.widget.spec_layout(limits)
    }

    open spec fn op_visits(&self, tree: Tree, layout: LayoutModel) -> Seq<OpVisit> {
        self.element.widget.op_visits(tree, layout)
    }

    open spec fn spec_on_event(&self, tree: Tree, event: Event, layout: LayoutModel, cursor: Point)
        -> EventResult<Self, M> {
        let r = self.element.widget.spec_on_event(tree, event, layout, cursor);
        EventResult {
            widget: CosmicExplain {
                element: CosmicElement { widget: r.widget, marker: self.element.marker },
                color: self.color,
            },
            state: r.state,
            messages: r.messages,
            status: r.status,
        }
    }

    open spec fn spec_draw(
        &self,
        tree: Tree,
        style: Style,
        layout: LayoutModel,
        cursor: Point,
        viewport: Rectangle,
    ) -> Seq<Quad> {
        self.element.widget.spec_draw(tree, style, layout, cursor, viewport) + outline_quads(
            layout,
            self.color,
        )
    }

    open spec fn spec_mouse_interaction(&self, tree: Tree, layout: LayoutModel, cursor: Point)
        -> Interaction {
        self.element.widget.spec_mouse_interaction(tree, layout, cursor)
    }

    open spec fn spec_overlay(&self, tree: Tree, layout: LayoutModel) -> Option<OverlayModel<M>> {
        self.element.widget.spec_overlay(tree, layout)
    }

    fn is_container(&self) -> (b: bool) {
        self.element.widget.is_container()
    }

    fn layer(&self) -> (l: Layer) {
        self.element.widget.layer()
    }

    fn set_layer(&mut self, layer: Layer) {
        self.element.as_widget_mut().set_layer(layer);
    }

    fn width(&self) -> (w: Length) {
        self.element.widget.width()
    }

    fn height(&self) -> (h: Length) {
        self.element.widget.height()
    }

    fn tag(&self) -> (t: u64) {
        self.element.widget.tag()
    }

    fn state(&self) -> (s: u64) {
        self.element.widget.state()
    }

    fn children(&self) -> (c: Vec<Tree>) {
        self.element.widget.children()
    }

    fn diff(&self, tree: &mut Tree) {
        self.element.widget.diff(tree);
    }

    fn layout(&self, limits: &Limits) -> (n: LayoutNode) {
        self.element.widget.layout(limits)
    }

    fn operate<O: Operation<M>>(&self, tree: &Tree, layout: &LayoutNode, operation: O) -> (r: O) {
        self.element.widget.operate(tree, layout, operation)
    }

    fn on_event(
        &mut self,
        tree: &mut Tree,
        event: Event,
        layout: &LayoutNode,
        cursor: Point,
        shell: &mut Shell<M>,
    ) -> (st: Status) {
        self.element.widget.on_event(tree, event, layout, cursor, shell)
    }

    fn draw(
        &self,
        tree: &Tree,
        renderer: &mut Renderer,
        style: &Style,
        layout: &LayoutNode,
        cursor: Point,
        viewport: &Rectangle,
    ) {
        let ghost base = renderer@;
        self.element.widget.draw(tree, renderer, style, layout, cursor, viewport);
        explain_layout(renderer, self.color, layout);
        proof {
            assert(renderer@ =~= base + self.spec_draw(*tree, *style, layout@, cursor, *viewport));
        }
    }

    fn mouse_interaction(&self, tree: &Tree, layout: &LayoutNode, cursor: Point) -> (i:
        Interaction) {
        self.element.widget.mouse_interaction(tree, layout, cursor)
    }

    fn overlay(&self, tree: &Tree, layout: &LayoutNode) -> (r: Option<Overlay<M>>) {
        self.element.widget.overlay(tree, layout)
    }
}

} // verus!
