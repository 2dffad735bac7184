//! The capability set a widget offers: the host toolkit's widget contract
//! (geometry, identity, state, layout, events, drawing, operations, overlay)
//! extended with the layer queries. Every method's behaviour is pinned to a
//! specification model, so decorators that forward or translate operations
//! can be proved to do exactly that.

use vstd::prelude::*;
use crate::event::{Event, Shell, Status};
use crate::geometry::{Length, Point, Rectangle};
use crate::layer::{spec_child_layer, child_layer_from, Layer};
use crate::layout::{LayoutModel, LayoutNode, Limits};
use crate::operation::{apply_visits, OpVisit, Operation};
use crate::renderer::{Interaction, Quad, Renderer, Style};
use crate::tree::Tree;

verus! {

/// What one event-handling call produces: the widget and state slot after
/// the call, the messages emitted (oldest first), and whether the event was
/// consumed.
pub struct EventResult<W, M> {
    pub widget: W,
    pub state: Tree,
    pub messages: Seq<M>,
    pub status: Status,
}

/// A transient floating widget rendered above the normal tree, together with
/// the messages it will emit when activated.
#[derive(Clone, Debug, PartialEq, Eq)]
pub struct Overlay<M> {
    pub position: Point,
    pub messages: Vec<M>,
}

/// The specification-level picture of an overlay.
pub struct OverlayModel<M> {
    pub position: Point,
    pub messages: Seq<M>,
}

/// The capability set of a widget over message type `M`.
///
/// Every executable method is tied to a specification model of the same
/// operation, so wrapping nodes can state exactly how they forward,
/// translate, or decorate the wrapped widget's behaviour.
pub trait CosmicWidget<M>: Sized {
    /// Whether the widget is a container.
    spec fn spec_is_container(&self) -> bool;

    /// The UI layer of the widget.
    spec fn spec_layer(&self) -> Layer;

    /// The width strategy of the widget.
    spec fn spec_width(&self) -> Length;

    /// The height strategy of the widget.
    spec fn spec_height(&self) -> Length;

    /// The tag distinguishing this node's kind.
    spec fn spec_tag(&self) -> u64;

    /// The initial state blob of a fresh node of this kind.
    spec fn spec_state(&self) -> u64;

    /// The state slots of the widget's children, in order.
    spec fn spec_children(&self) -> Seq<Tree>;

    /// How the widget reconciles an existing state slot: kept if the tag
    /// matches, replaced by a fresh slot otherwise.
    spec fn spec_diff(&self, tree: Tree) -> Tree;

    /// The geometry the widget computes under the given limits.
    spec fn spec_layout(&self, limits: Limits) -> LayoutModel;

    /// The visits a tree operation makes when it runs over this widget.
    spec fn op_visits(&self, tree: Tree, layout: LayoutModel) -> Seq<OpVisit>;

    /// What handling an event produces.
    spec fn spec_on_event(&self, tree: Tree, event: Event, layout: LayoutModel, cursor: Point)
        -> EventResult<Self, M>;

    /// The primitives one draw pass issues, in order.
    spec fn spec_draw(
        &self,
        tree: Tree,
        style: Style,
        layout: LayoutModel,
        cursor: Point,
        viewport: Rectangle,
    ) -> Seq<Quad>;

    /// The cursor shape over the widget.
    spec fn spec_mouse_interaction(&self, tree: Tree, layout: LayoutModel, cursor: Point)
        -> Interaction;

    /// The overlay the widget yields, if any.
    spec fn spec_overlay(&self, tree: Tree, layout: LayoutModel) -> Option<OverlayModel<M>>;

    /// Indicates if the widget is a container.
    fn is_container(&self) -> (b: bool)
        ensures
            b == self.spec_is_container(),
    ;

    /// The UI layer of the widget.
    fn layer(&self) -> (l: Layer)
        ensures
            l == self.spec_layer(),
    ;

    /// Sets the layer for the widget and its children.
    fn set_layer(&mut self, layer: Layer)
        ensures
            final(self).spec_layer() == layer,
    ;

    /// The UI layer of the widget's children: containers promote their own
    /// layer one step, every other widget hands its layer down unchanged.
    fn child_layer(&self) -> (l: Layer)
        ensures
            l == spec_child_layer(self.spec_is_container(), self.spec_layer()),
    {
        child_layer_from(self.is_container(), self.layer())
    }

    /// The width strategy of the widget.
    fn width(&self) -> (w: Length)
        ensures
            w == self.spec_width(),
    ;

    /// The height strategy of the widget.
    fn height(&self) -> (h: Length)
        ensures
            h == self.spec_height(),
    ;

    /// The tag distinguishing this node's kind.
    fn tag(&self) -> (t: u64)
        ensures
            t == self.spec_tag(),
    ;

    /// The initial state blob of a fresh node of this kind.
    fn state(&self) -> (s: u64)
        ensures
            s == self.spec_state(),
    ;

    /// The state slots of the widget's children, in order.
    fn children(&self) -> (c: Vec<Tree>)
        ensures
            c@ == self.spec_children(),
    ;

    /// Reconciles an existing state slot with this widget.
    fn diff(&self, tree: &mut Tree)
        ensures
            *final(tree) == self.spec_diff(*old(tree)),
    ;

    /// Computes the widget's geometry under the given limits.
    fn layout(&self, limits: &Limits) -> (n: LayoutNode)
        ensures
            n@ == self.spec_layout(*limits),
    ;

    /// Runs a tree operation over the widget and gives it back.
    fn operate<O: Operation<M>>(&self, tree: &Tree, layout: &LayoutNode, operation: O) -> (r: O)
        ensures
            r == apply_visits::<M, O>(operation, self.op_visits(*tree, layout@)),
    ;

    /// Handles one event, publishing any output messages into the shell, in
    /// order, after everything already there.
    fn on_event(
        &mut self,
        tree: &mut Tree,
        event: Event,
        layout: &LayoutNode,
        cursor: Point,
        shell: &mut Shell<M>,
    ) -> (st: Status)
        ensures
            ({
                let r = old(self).spec_on_event(*old(tree), event, layout@, cursor);
                &&& *final(self) == r.widget
                &&& *final(tree) == r.state
                &&& final(shell)@ == old(shell)@ + r.messages
                &&& st == r.status
            }),
    ;

    /// Draws the widget, appending its primitives to the renderer.
    fn draw(
        &self,
        tree: &Tree,
        renderer: &mut Renderer,
        style: &Style,
        layout: &LayoutNode,
        cursor: Point,
        viewport: &Rectangle,
    )
        ensures
            final(renderer)@ == old(renderer)@ + self.spec_draw(
                *tree,
                *style,
                layout@,
                cursor,
                *viewport,
            ),
    ;

    /// The cursor shape over the widget.
    fn mouse_interaction(&self, tree: &Tree, layout: &LayoutNode, cursor: Point) -> (i:
        Interaction)
        ensures
            i == self.spec_mouse_interaction(*tree, layout@, cursor),
    ;

    /// The overlay the widget yields, if any.
    fn overlay(&self, tree: &Tree, layout: &LayoutNode) -> (r: Option<Overlay<M>>)
        ensures
            ({
                let m = self.spec_overlay(*tree, layout@);
                match r {
                    Some(o) => {
                        &&& m is Some
                        &&& o.position == m->Some_0.position
                        &&& o.messages@ == m->Some_0.messages
                    },
                    None => m is None,
                }
            }),
    ;
}

} // verus!
