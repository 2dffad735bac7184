//! Concrete widgets of the capability set: a leaf that emits its configured
//! messages when its trigger event arrives, and a container that stacks its
//! children in a column and promotes their layer. They give the composition
//! layer something to wrap, and the host traversal something to drive.

use vstd::prelude::*;
use core::marker::PhantomData;
use crate::event::{Event, Shell, Status};
use crate::geometry::{spec_sat_add, sat_add, Length, Point, Rectangle};
use crate::layer::{child_layer_from, Layer};
use crate::layout::{
    layout_model, layout_model_seq, lemma_layout_model_seq_append, resolve, spec_resolve,
    LayoutModel, LayoutNode, Limits,
};
use crate::operation::{
    apply_visit, apply_visits, lemma_apply_visits_append, FocusState, OpVisit, Operation,
};
use crate::renderer::{Color, Interaction, Quad, Renderer, Style};
use crate::tree::Tree;
use crate::widget::{CosmicWidget, EventResult, Overlay, OverlayModel};

verus! {

/// A leaf widget: fixed geometry, one fill color, and a list of messages it
/// publishes, in order, whenever the event with its trigger code arrives.
pub struct LeafWidget<M> {
    /// The widget's own rendering layer.
    pub layer: Layer,
    pub width: Length,
    pub height: Length,
    /// Distinguishes this node kind in the state tree.
    pub tag: u64,
    /// The initial state blob of a fresh state slot.
    pub state: u64,
    /// The color the leaf paints its bounds with.
    pub fill: Color,
    /// The event code the leaf reacts to.
    pub trigger: u64,
    /// What the leaf publishes when triggered, oldest first.
    pub messages: Vec<M>,
    /// Where the leaf's overlay floats, if it has one.
    pub overlay_at: Option<Point>,
    /// What the overlay will emit when activated.
    pub overlay_messages: Vec<M>,
}

/// The fresh state slot a widget asks for.
pub open spec fn fresh_slot<M, W: CosmicWidget<M>>(w: W) -> Tree {
    Tree { tag: w.spec_tag(), state: w.spec_state() }
}

/// Copies a vector of plain messages.
fn copy_messages<M: Copy>(v: &Vec<M>) -> (r: Vec<M>)
    ensures
        r@ == v@,
{
    let mut r: Vec<M> = Vec::new();
    let mut i: usize = 0;
    while i < v.len()
        invariant
            i <= v.len(),
            r@ =~= v@.take(i as int),
        decreases v.len() - i,
    {
        r.push(v[i]);
        proof {
            assert(v@.take(i + 1) =~= v@.take(i as int).push(v@[i as int]));
        }
        i += 1;
    }
    proof {
        assert(v@.take(v@.len() as int) =~= v@);
    }
    r
}

impl<M: Copy> CosmicWidget<M> for LeafWidget<M> {
    open spec fn spec_is_container(&self) -> bool {
        false
    }

    open spec fn spec_layer(&self) -> Layer {
        self.layer
    }

    open spec fn spec_width(&self) -> Length {
        self.width
    }

    open spec fn spec_height(&self) -> Length {
        self.height
    }

    open spec fn spec_tag(&self) -> u64 {
        self.tag
    }

    open spec fn spec_state(&self) -> u64 {
        self.state
    }

    open spec fn spec_children(&self) -> Seq<Tree> {
        Seq::empty()
    }

    open spec fn spec_diff(&self, tree: Tree) -> Tree {
        if tree.tag == self.tag {
            tree
        } else {
            Tree { tag: self.tag, state: self.state }
        }
    }

    open spec fn spec_layout(&self, limits: Limits) -> LayoutModel {
        LayoutModel {
            bounds: spec_resolve(limits, self.width, self.height),
            children: Seq::empty(),
        }
    }

    open spec fn op_visits(&self, tree: Tree, layout: LayoutModel) -> Seq<OpVisit> {
        seq![
            OpVisit::Focusable {
                state: FocusState { focused: tree.state != 0 },
                id: Some(self.tag),
            },
        ]
    }

    open spec fn spec_on_event(&self, tree: Tree, event: Event, layout: LayoutModel, cursor: Point)
        -> EventResult<Self, M> {
        if event.code == self.trigger {
            EventResult {
                widget: *self,
                state: tree,
                messages: self.messages@,
                status: Status::Captured,
            }
        } else {
            EventResult { widget: *self, state: tree, messages: Seq::empty(), status: Status::Ignored }
        }
    }

    open spec fn spec_draw(
        &self,
        tree: Tree,
        style: Style,
        layout: LayoutModel,
        cursor: Point,
        viewport: Rectangle,
    ) -> Seq<Quad> {
        seq![
            Quad {
                bounds: layout.bounds,
                border_color: self.fill,
                border_width: 0,
                fill: self.fill,
            },
        ]
    }

    open spec fn spec_mouse_interaction(&self, tree: Tree, layout: LayoutModel, cursor: Point)
        -> Interaction {
        if layout.bounds.spec_contains(cursor) {
            Interaction::Pointer
        } else {
            Interaction::Idle
        }
    }

    open spec fn spec_overlay(&self, tree: Tree, layout: LayoutModel) -> Option<OverlayModel<M>> {
        match self.overlay_at {
            Some(p) => Some(OverlayModel { position: p, messages: self.overlay_messages@ }),
            None => None,
        }
    }

    fn is_container(&self) -> (b: bool) {
        false
    }

    fn layer(&self) -> (l: Layer) {
        self.layer
    }

    fn set_layer(&mut self, layer: Layer) {
        self.layer = layer;
    }

    fn width(&self) -> (w: Length) {
        self.width
    }

    fn height(&self) -> (h: Length) {
        self.height
    }

    fn tag(&self) -> (t: u64) {
        self.tag
    }

    fn state(&self) -> (s: u64) {
        self.state
    }

    fn children(&self) -> (c: Vec<Tree>) {
        let c: Vec<Tree> = Vec::new();
        proof {
            assert(c@ =~= self.spec_children());
        }
        c
    }

    fn diff(&self, tree: &mut Tree) {
        if tree.tag != self.tag {
            *tree = Tree { tag: self.tag, state: self.state };
        }
    }

    fn layout(&self, limits: &Limits) -> (n: LayoutNode) {
        let n = LayoutNode { bounds: resolve(limits, self.width, self.height), children: Vec::new() };
        proof {
            assert(n@.children =~= Seq::<LayoutModel>::empty());
        }
        n
    }

    fn operate<O: Operation<M>>(&self, tree: &Tree, layout: &LayoutNode, operation: O) -> (r: O) {
        let ghost op0 = operation;
        let ghost vs = self.op_visits(*tree, layout@);
        let mut op = operation;
        op.focusable(FocusState { focused: tree.state != 0 }, Some(self.tag));
        proof {
            assert(vs.drop_first() =~= Seq::<OpVisit>::empty());
            assert(apply_visits::<M, O>(op0, vs) == apply_visits::<M, O>(
                apply_visit::<M, O>(op0, vs[0]),
                vs.drop_first(),
            ));
        }
        op
    }

    fn on_event(
        &mut self,
        tree: &mut Tree,
        event: Event,
        layout: &LayoutNode,
        cursor: Point,
        shell: &mut Shell<M>,
    ) -> (st: Status) {
        let ghost base = shell@;
        if event.code == self.trigger {
            let mut i: usize = 0;
            while i < self.messages.len()
                invariant
                    i <= self.messages.len(),
                    shell@ =~= base + self.messages@.take(i as int),
                decreases self.messages.len() - i,
            {
                shell.publish(self.messages[i]);
                proof {
                    assert(self.messages@.take(i + 1) =~= self.messages@.take(i as int).push(
                        self.messages@[i as int],
                    ));
                }
                i += 1;
            }
            proof {
                assert(self.messages@.take(self.messages@.len() as int) =~= self.messages@);
            }
            Status::Captured
        } else {
            proof {
                assert(base + Seq::<M>::empty() =~= base);
            }
            Status::Ignored
        }
    }

    fn draw(
        &self,
        tree: &Tree,
        renderer: &mut Renderer,
        style: &Style,
        layout: &LayoutNode,
        cursor: Point,
        viewport: &Rectangle,
    ) {
        let ghost base = renderer@;
        renderer.fill_quad(
            Quad { bounds: layout.bounds, border_color: self.fill, border_width: 0, fill: self.fill },
        );
        proof {
            assert(renderer@ =~= base + self.spec_draw(*tree, *style, layout@, cursor, *viewport));
        }
    }

    fn mouse_interaction(&self, tree: &Tree, layout: &LayoutNode, cursor: Point) -> (i:
        Interaction) {
        if layout.bounds.contains(cursor) {
            Interaction::Pointer
        } else {
            Interaction::Idle
        }
    }

    fn overlay(&self, tree: &Tree, layout: &LayoutNode) -> (r: Option<Overlay<M>>) {
        match self.overlay_at {
            Some(p) => Some(Overlay { position: p, messages: copy_messages(&self.overlay_messages) }),
            None => None,
        }
    }
}

/// The geometry of a column of widgets: each child is laid out under the
/// same limits and placed below the previous one, positions saturating at
/// the edge.
pub open spec fn column_models<M, W: CosmicWidget<M>>(ws: Seq<W>, limits: Limits, y: u32)
    -> Seq<LayoutModel>
    decreases ws.len(),
{
    if ws.len() == 0 {
        Seq::empty()
    } else {
        let n = ws[0].spec_layout(limits);
        let placed = LayoutModel {
            bounds: Rectangle { x: n.bounds.x, y, width: n.bounds.width, height: n.bounds.height },
            children: n.children,
        };
        seq![placed] + column_models(ws.drop_first(), limits, spec_sat_add(y, n.bounds.height))
    }
}

/// The visits a traversal makes over a row of children, each handed a fresh
/// state slot, in order.
pub open spec fn children_visits<M, W: CosmicWidget<M>>(ws: Seq<W>, layout: LayoutModel)
    -> Seq<OpVisit>
    decreases ws.len(),
{
    if ws.len() == 0 {
        Seq::empty()
    } else {
        ws[0].op_visits(fresh_slot::<M, W>(ws[0]), layout) + children_visits(
            ws.drop_first(),
            layout,
        )
    }
}

/// A container widget: owns a column of children, stacks them in its layout,
/// and propagates its promoted layer to them when its own layer is set.
/// Event dispatch and drawing of the children are driven by the host
/// traversal over the computed geometry, not by the container itself.
pub struct ContainerWidget<M, W: CosmicWidget<M>> {
    /// The container's own rendering layer.
    pub layer: Layer,
    pub width: Length,
    pub height: Length,
    /// Distinguishes this node kind in the state tree.
    pub tag: u64,
    /// The initial state blob of a fresh state slot.
    pub state: u64,
    /// The children, top to bottom.
    pub children: Vec<W>,
    pub marker: PhantomData<M>,
}

impl<M, W: CosmicWidget<M>> CosmicWidget<M> for ContainerWidget<M, W> {
    open spec fn spec_is_container(&self) -> bool {
        true
    }

    open spec fn spec_layer(&self) -> Layer {
        self.layer
    }

    open spec fn spec_width(&self) -> Length {
        self.width
    }

    open spec fn spec_height(&self) -> Length {
        self.height
    }

    open spec fn spec_tag(&self) -> u64 {
        self.tag
    }

    open spec fn spec_state(&self) -> u64 {
        self.state
    }

    open spec fn spec_children(&self) -> Seq<Tree> {
        self.children@.map_values(|c: W| fresh_slot::<M, W>(c))
    }

    open spec fn spec_diff(&self, tree: Tree) -> Tree {
        if tree.tag == self.tag {
            tree
        } else {
            Tree { tag: self.tag, state: self.state }
        }
    }

    open spec fn spec_layout(&self, limits: Limits) -> LayoutModel {
        LayoutModel {
            bounds: spec_resolve(limits, self.width, self.height),
            children: column_models(self.children@, limits, 0),
        }
    }

    open spec fn op_visits(&self, tree: Tree, layout: LayoutModel) -> Seq<OpVisit> {
        seq![OpVisit::Container { id: Some(self.tag) }] + children_visits(self.children@, layout)
    }

    open spec fn spec_on_event(&self, tree: Tree, event: Event, layout: LayoutModel, cursor: Point)
        -> EventResult<Self, M> {
        EventResult { widget: *self, state: tree, messages: Seq::empty(), status: Status::Ignored }
    }

    open spec fn spec_draw(
        &self,
        tree: Tree,
        style: Style,
        layout: LayoutModel,
        cursor: Point,
        viewport: Rectangle,
    ) -> Seq<Quad> {
        Seq::empty()
    }

    open spec fn spec_mouse_interaction(&self, tree: Tree, layout: LayoutModel, cursor: Point)
        -> Interaction {
        Interaction::Idle
    }

    open spec fn spec_overlay(&self, tree: Tree, layout: LayoutModel) -> Option<OverlayModel<M>> {
        None
    }

    fn is_container(&self) -> (b: bool) {
        true
    }

    fn layer(&self) -> (l: Layer) {
        self.layer
    }

    fn set_layer(&mut self, layer: Layer) {
        self.layer = layer;
        let promoted = child_layer_from(true, layer);
        let n = self.children.len();
        let mut i: usize = 0;
        while i < n
            invariant
                i <= n,
                self.children.len() == n,
                self.layer == layer,
            decreases n - i,
        {
            let mut c = self.children.remove(0);
            c.set_layer(promoted);
            self.children.push(c);
            i += 1;
        }
    }

    fn width(&self) -> (w: Length) {
        self.width
    }

    fn height(&self) -> (h: Length) {
        self.height
    }

    fn tag(&self) -> (t: u64) {
        self.tag
    }

    fn state(&self) -> (s: u64) {
        self.state
    }

    fn children(&self) -> (c: Vec<Tree>) {
        let ghost f = |c: W| fresh_slot::<M, W>(c);
        let mut out: Vec<Tree> = Vec::new();
        let mut i: usize = 0;
        while i < self.children.len()
            invariant
                i <= self.children.len(),
                out@ =~= self.children@.take(i as int).map_values(|c: W| fresh_slot::<M, W>(c)),
            decreases self.children.len() - i,
        {
            let c = &self.children[i];
            out.push(Tree { tag: c.tag(), state: c.state() });
            proof {
                assert(self.children@.take(i + 1).map_values(|c: W| fresh_slot::<M, W>(c))
                    =~= self.children@.take(i as int).map_values(|c: W| fresh_slot::<M, W>(c)).push(
                    fresh_slot::<M, W>(self.children@[i as int]),
                ));
            }
            i += 1;
        }
        proof {
            assert(self.children@.take(self.children@.len() as int) =~= self.children@);
        }
        out
    }

    fn diff(&self, tree: &mut Tree) {
        if tree.tag != self.tag {
            *tree = Tree { tag: self.tag, state: self.state };
        }
    }

    fn layout(&self, limits: &Limits) -> (n: LayoutNode) {
        let bounds = resolve(limits, self.width, self.height);
        let mut nodes: Vec<LayoutNode> = Vec::new();
        let mut y: u32 = 0;
        let mut i: usize = 0;
        proof {
            assert(self.children@.skip(0) =~= self.children@);
            assert(layout_model_seq(nodes@) =~= Seq::<LayoutModel>::empty());
        }
        while i < self.children.len()
            invariant
                i <= self.children.len(),
                layout_model_seq(nodes@) + column_models::<M, W>(
                    self.children@.skip(i as int),
                    *limits,
                    y,
                ) =~= column_models::<M, W>(self.children@, *limits, 0),
            decreases self.children.len() - i,
        {
            let ghost nodes_before = nodes@;
            let ghost y_before = y;
            let child_node = self.children[i].layout(limits);
            let h = child_node.bounds.height;
            let placed = LayoutNode {
                bounds: Rectangle {
                    x: child_node.bounds.x,
                    y,
                    width: child_node.bounds.width,
                    height: child_node.bounds.height,
                },
                children: child_node.children,
            };
            nodes.push(placed);
            proof {
                let rest = self.children@.skip(i as int);
                assert(rest[0] == self.children@[i as int]);
                assert(rest.drop_first() =~= self.children@.skip(i + 1));
                assert(nodes@ =~= nodes_before.push(placed));
                assert(nodes@ =~= nodes_before + seq![placed]);
                lemma_layout_model_seq_append(nodes_before, seq![placed]);
                assert(seq![placed].drop_first() =~= Seq::<LayoutNode>::empty());
                assert(seq![placed][0] == placed);
                assert(layout_model_seq(seq![placed]) =~= seq![layout_model(placed)]
                    + layout_model_seq(Seq::<LayoutNode>::empty()));
                assert(layout_model_seq(seq![placed]) =~= seq![placed@]);
                assert(placed@.children =~= child_node@.children);
                assert(layout_model_seq(nodes@) + column_models::<M, W>(
                    self.children@.skip(i + 1),
                    *limits,
                    spec_sat_add(y_before, h),
                ) =~= column_models::<M, W>(self.children@, *limits, 0));
            }
            y = sat_add(y, h);
            i += 1;
        }
        proof {
            assert(self.children@.skip(self.children@.len() as int)
                =~= Seq::<W>::empty());
            assert(layout_model_seq(nodes@) =~= column_models::<M, W>(
                self.children@,
                *limits,
                0,
            ));
        }
        let n = LayoutNode { bounds, children: nodes };
        proof {
            assert(n@ == self.spec_layout(*limits));
        }
        n
    }

    fn operate<O: Operation<M>>(&self, tree: &Tree, layout: &LayoutNode, operation: O) -> (r: O) {
        let ghost op0 = operation;
        let ghost total = self.op_visits(*tree, layout@);
        let mut op = operation;
        op.container(Some(self.tag));
        proof {
            let rest = children_visits(self.children@, layout@);
            assert(total[0] == OpVisit::Container { id: Some(self.tag) });
            assert(total.drop_first() =~= rest);
            assert(apply_visits::<M, O>(op0, total) == apply_visits::<M, O>(
                apply_visit::<M, O>(op0, total[0]),
                total.drop_first(),
            ));
            assert(apply_visit::<M, O>(op0, total[0]) == op);
            assert(self.children@.skip(0) =~= self.children@);
        }
        let mut i: usize = 0;
        while i < self.children.len()
            invariant
                i <= self.children.len(),
                apply_visits::<M, O>(
                    op,
                    children_visits(self.children@.skip(i as int), layout@),
                ) == apply_visits::<M, O>(op0, total),
            decreases self.children.len() - i,
        {
            let ghost op_before = op;
            let c = &self.children[i];
            let slot = Tree { tag: c.tag(), state: c.state() };
            op = c.operate(&slot, layout, op);
            proof {
                let rest = self.children@.skip(i as int);
                assert(rest[0] == self.children@[i as int]);
                assert(rest.drop_first() =~= self.children@.skip(i + 1));
                let head_visits = self.children@[i as int].op_visits(
                    fresh_slot::<M, W>(self.children@[i as int]),
                    layout@,
                );
                assert(children_visits(rest, layout@) =~= head_visits + children_visits(
                    self.children@.skip(i + 1),
                    layout@,
                ));
                lemma_apply_visits_append::<M, O>(
                    op_before,
                    head_visits,
                    children_visits(self.children@.skip(i + 1), layout@),
                );
            }
            i += 1;
        }
        proof {
            assert(self.children@.skip(self.children@.len() as int) =~= Seq::<W>::empty());
        }
        op
    }

    fn on_event(
        &mut self,
        tree: &mut Tree,
        event: Event,
        layout: &LayoutNode,
        cursor: Point,
        shell: &mut Shell<M>,
    ) -> (st: Status) {
        let ghost base = shell@;
        proof {
            assert(base + Seq::<M>::empty() =~= base);
        }
        Status::Ignored
    }

    fn draw(
        &self,
        tree: &Tree,
        renderer: &mut Renderer,
        style: &Style,
        layout: &LayoutNode,
        cursor: Point,
        viewport: &Rectangle,
    ) {
        let ghost base = renderer@;
        proof {
            assert(base + Seq::<Quad>::empty() =~= base);
        }
    }

    fn mouse_interaction(&self, tree: &Tree, layout: &LayoutNode, cursor: Point) -> (i:
        Interaction) {
        Interaction::Idle
    }

    fn overlay(&self, tree: &Tree, layout: &LayoutNode) -> (r: Option<Overlay<M>>) {
        None
    }
}

} // verus!
