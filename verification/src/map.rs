//! The remapping node: lets a subtree that emits messages of type `A` be
//! embedded, unmodified, inside a parent that expects message type `B`.
//! Everything that carries no message payload is forwarded verbatim; emitted
//! messages, overlays and tree operations are translated.

use vstd::prelude::*;
use core::marker::PhantomData;
use crate::event::{Event, Shell, Status};
use crate::geometry::{Length, Point, Rectangle};
use crate::layer::Layer;
use crate::layout::{LayoutModel, LayoutNode, Limits};
use crate::mapper::{map_vec, MessageMapper};
use crate::operation::{apply_visit, apply_visits, FocusState, OpVisit, Operation, ScrollState, TextState};
use crate::renderer::{Interaction, Quad, Renderer, Style};
use crate::tree::Tree;
use crate::widget::{CosmicWidget, EventResult, Overlay, OverlayModel};

verus! {

/// A widget over message type `A` together with a pure translation of its
/// messages into type `B`.
pub struct CosmicMap<A, B, W: CosmicWidget<A>, F: MessageMapper<A, B>> {
    /// The widget whose messages are translated.
    pub widget: W,
    /// The translation applied to every emitted message.
    pub mapper: F,
    pub marker_a: PhantomData<A>,
    pub marker_b: PhantomData<B>,
}

impl<A, B, W: CosmicWidget<A>, F: MessageMapper<A, B>> CosmicMap<A, B, W, F> {
    /// Wraps a widget and the translation of its messages.
    pub fn new(widget: W, mapper: F) -> (m: CosmicMap<A, B, W, F>)
        ensures
            m.widget == widget,
            m.mapper == mapper,
    {
        CosmicMap { widget, mapper, marker_a: PhantomData, marker_b: PhantomData }
    }
}

/// A `B`-typed operation exposed to an `A`-typed subtree: every visit is
/// forwarded to the wrapped operation unchanged, since visits carry no
/// message-typed payload.
pub struct MapOperation<B, O: Operation<B>> {
    pub operation: O,
    pub marker: PhantomData<B>,
}

impl<T, B, O: Operation<B>> Operation<T> for MapOperation<B, O> {
    open spec fn spec_container(&self, id: Option<u64>) -> Self {
        MapOperation { operation: self.operation.spec_container(id), marker: self.marker }
    }

    open spec fn spec_focusable(&self, state: FocusState, id: Option<u64>) -> Self {
        MapOperation { operation: self.operation.spec_focusable(state, id), marker: self.marker }
    }

    open spec fn spec_scrollable(&self, state: ScrollState, id: Option<u64>) -> Self {
        MapOperation { operation: self.operation.spec_scrollable(state, id), marker: self.marker }
    }

    open spec fn spec_text_input(&self, state: TextState, id: Option<u64>) -> Self {
        MapOperation { operation: self.operation.spec_text_input(state, id), marker: self.marker }
    }

    fn container(&mut self, id: Option<u64>) {
        self.operation.container(id);
    }

    fn focusable(&mut self, state: FocusState, id: Option<u64>) {
        self.operation.focusable(state, id);
    }

    fn scrollable(&mut self, state: ScrollState, id: Option<u64>) {
        self.operation.scrollable(state, id);
    }

    fn text_input(&mut self, state: TextState, id: Option<u64>) {
        self.operation.text_input(state, id);
    }
}

/// Running any visits through the adapter runs them, unchanged and in order,
/// through the wrapped operation.
pub proof fn lemma_apply_visits_map_operation<T, B, O: Operation<B>>(
    w: MapOperation<B, O>,
    vs: Seq<OpVisit>,
)
    ensures
        apply_visits::<T, MapOperation<B, O>>(w, vs).operation == apply_visits::<B, O>(
            w.operation,
            vs,
        ),
    decreases vs.len(),
{
    if vs.len() > 0 {
        lemma_apply_visits_map_operation::<T, B, O>(
            apply_visit::<T, MapOperation<B, O>>(w, vs[0]),
            vs.drop_first(),
        );
    }
}

impl<A, B, W: CosmicWidget<A>, F: MessageMapper<A, B>> CosmicWidget<B> for CosmicMap<
    A,
    B,
    W,
    F,
> {
    open spec fn spec_is_container(&self) -> bool {
        self.widget.spec_is_container()
    }

    open spec fn spec_layer(&self) -> Layer {
        self.widget.spec_layer()
    }

    open spec fn spec_width(&self) -> Length {
        self.widget.spec_width()
    }

    open spec fn spec_height(&self) -> Length {
        self.widget.spec_height()
    }

    open spec fn spec_tag(&self) -> u64 {
        self.widget.spec_tag()
    }

    open spec fn spec_state(&self) -> u64 {
        self.widget.spec_state()
    }

    open spec fn spec_children(&self) -> Seq<Tree> {
        self.widget.spec_children()
    }

    open spec fn spec_diff(&self, tree: Tree) -> Tree {
        self.widget.spec_diff(tree)
    }

    open spec fn spec_layout(&self, limits: Limits) -> LayoutModel {
        self.widget.spec_layout(limits)
    }

    open spec fn op_visits(&self, tree: Tree, layout: LayoutModel) -> Seq<OpVisit> {
        self.widget.op_visits(tree, layout)
    }

    open spec fn spec_on_event(&self, tree: Tree, event: Event, layout: LayoutModel, cursor: Point)
        -> EventResult<Self, B> {
        let r = self.widget.spec_on_event(tree, event, layout, cursor);
        EventResult {
            widget: CosmicMap {
                widget: r.widget,
                mapper: self.mapper,
                marker_a: self.marker_a,
                marker_b: self.marker_b,
            },
            state: r.state,
            messages: r.messages.map_values(|a: A| self.mapper.spec_map(a)),
            status: r.status,
        }
    }

    open spec fn spec_draw(
        &self,
        tree: Tree,
        style: Style,
        layout: LayoutModel,
        cursor: Point,
        viewport: Rectangle,
    ) -> Seq<Quad> {
        self.widget.spec_draw(tree, style, layout, cursor, viewport)
    }

    open spec fn spec_mouse_interaction(&self, tree: Tree, layout: LayoutModel, cursor: Point)
        -> Interaction {
        self.widget.spec_mouse_interaction(tree, layout, cursor)
    }

    open spec fn spec_overlay(&self, tree: Tree, layout: LayoutModel) -> Option<OverlayModel<B>> {
        match self.widget.spec_overlay(tree, layout) {
            Some(m) => Some(
                OverlayModel {
                    position: m.position,
                    messages: m.messages.map_values(|a: A| self.mapper.spec_map(a)),
                },
            ),
            None => None,
        }
    }

    fn is_container(&self) -> (b: bool) {
        self.widget.is_container()
    }

    fn layer(&self) -> (l: Layer) {
        self.widget.layer()
    }

    fn set_layer(&mut self, layer: Layer) {
        self.widget.set_layer(layer);
    }

    fn width(&self) -> (w: Length) {
        self.widget.width()
    }

    fn height(&self) -> (h: Length) {
        self.widget.height()
    }

    fn tag(&self) -> (t: u64) {
        self.widget.tag()
    }

    fn state(&self) -> (s: u64) {
        self.widget.state()
    }

    fn children(&self) -> (c: Vec<Tree>) {
        self.widget.children()
    }

    fn diff(&self, tree: &mut Tree) {
        self.widget.diff(tree);
    }

    fn layout(&self, limits: &Limits) -> (n: LayoutNode) {
        self.widget.layout(limits)
    }

    fn operate<O: Operation<B>>(&self, tree: &Tree, layout: &LayoutNode, operation: O) -> (r: O) {
        let wrapped = MapOperation { operation, marker: PhantomData };
        let ghost wrapped0 = wrapped;
        let wrapped = self.widget.operate(tree, layout, wrapped);
        proof {
            lemma_apply_visits_map_operation::<A, B, O>(
                wrapped0,
                self.widget.op_visits(*tree, layout@),
            );
        }
        wrapped.operation
    }

    fn on_event(
        &mut self,
        tree: &mut Tree,
        event: Event,
        layout: &LayoutNode,
        cursor: Point,
        shell: &mut Shell<B>,
    ) -> (st: Status) {
        let ghost w0 = *self;
        let ghost t0 = *tree;
        let ghost base = shell@;
        let mut local_shell: Shell<A> = Shell::new();
        let status = self.widget.on_event(tree, event, layout, cursor, &mut local_shell);
        proof {
            let r = w0.widget.spec_on_event(t0, event, layout@, cursor);
            assert(local_shell@ =~= r.messages);
        }
        shell.merge(local_shell, &self.mapper);
        proof {
            let rr = w0.spec_on_event(t0, event, layout@, cursor);
            assert(shell@ =~= base + rr.messages);
        }
        status
    }

    fn draw(
        &self,
        tree: &Tree,
        renderer: &mut Renderer,
        style: &Style,
        layout: &LayoutNode,
        cursor: Point,
        viewport: &Rectangle,
    ) {
        self.widget.draw(tree, renderer, style, layout, cursor, viewport);
    }

    fn mouse_interaction(&self, tree: &Tree, layout: &LayoutNode, cursor: Point) -> (i:
        Interaction) {
        self.widget.mouse_interaction(tree, layout, cursor)
    }

    fn overlay(&self, tree: &Tree, layout: &LayoutNode) -> (r: Option<Overlay<B>>) {
        match self.widget.overlay(tree, layout) {
            None => None,
            Some(o) => {
                let translated = map_vec(o.messages, &self.mapper);
                proof {
                    let m = self.widget.spec_overlay(*tree, layout@)->Some_0;
                    assert(translated@ =~= m.messages.map_values(|a: A| self.mapper.spec_map(a)));
                }
                Some(Overlay { position: o.position, messages: translated })
            },
        }
    }
}

} // verus!
