//! The computed geometry tree: what a layout pass returns, the limits it
//! runs under, and the specification-level picture of that tree.

use vstd::prelude::*;
use crate::geometry::{Length, Rectangle};

verus! {

/// The constraints one layout pass runs under: inclusive bounds on the width
/// and height a widget may take.
#[derive(Clone, Copy, Debug, PartialEq, Eq, Structural)]
pub struct Limits {
    pub min_width: u32,
    pub max_width: u32,
    pub min_height: u32,
    pub max_height: u32,
}

/// Clamps `v` into the inclusive range `lo ..= hi` (for `lo <= hi`; below
/// `lo` wins otherwise).
pub open spec fn spec_clamp(v: u32, lo: u32, hi: u32) -> u32 {
    if v < lo {
        lo
    } else if v > hi {
        hi
    } else {
        v
    }
}

/// Resolves a length strategy against the limits of one axis.
pub open spec fn spec_resolve_axis(len: Length, min: u32, max: u32) -> u32 {
    match len {
        Length::Fill => max,
        Length::FillPortion(_) => max,
        Length::Shrink => min,
        Length::Units(u) => spec_clamp(u as u32, min, max),
    }
}

/// Resolves a length strategy against the limits of one axis: filling takes
/// the maximum, shrinking the minimum, and a fixed length is clamped in.
pub fn resolve_axis(len: Length, min: u32, max: u32) -> (r: u32)
    ensures
        r == spec_resolve_axis(len, min, max),
{
    match len {
        Length::Fill => max,
        Length::FillPortion(_) => max,
        Length::Shrink => min,
        Length::Units(u) => {
            let v = u as u32;
            if v < min {
                min
            } else if v > max {
                max
            } else {
                v
            }
        },
    }
}

/// The bounds a widget with the given length strategies takes under the given
/// limits, positioned at the origin of its parent.
pub open spec fn spec_resolve(limits: Limits, width: Length, height: Length) -> Rectangle {
    Rectangle {
        x: 0,
        y: 0,
        width: spec_resolve_axis(width, limits.min_width, limits.max_width),
        height: spec_resolve_axis(height, limits.min_height, limits.max_height),
    }
}

/// Computes the bounds a widget takes under the given limits.
pub fn resolve(limits: &Limits, width: Length, height: Length) -> (r: Rectangle)
    ensures
        r == spec_resolve(*limits, width, height),
{
    Rectangle {
        x: 0,
        y: 0,
        width: resolve_axis(width, limits.min_width, limits.max_width),
        height: resolve_axis(height, limits.min_height, limits.max_height),
    }
}

/// One node of the computed geometry tree. Bounds are relative to the parent
/// node; children are the geometry of the widget's children, in order.
#[derive(Debug)]
pub struct LayoutNode {
    pub bounds: Rectangle,
    pub children: Vec<LayoutNode>,
}

/// The specification-level picture of a geometry tree.
pub struct LayoutModel {
    pub bounds: Rectangle,
    pub children: Seq<LayoutModel>,
}

/// The picture of one geometry node.
pub open spec fn layout_model(n: LayoutNode) -> LayoutModel
    decreases n,
{
    LayoutModel { bounds: n.bounds, children: layout_model_seq(n.children@) }
}

/// The picture of a forest of geometry nodes, in order.
pub open spec fn layout_model_seq(s: Seq<LayoutNode>) -> Seq<LayoutModel>
    decreases s,
{
    if s.len() == 0 {
        Seq::empty()
    } else {
        seq![layout_model(s[0])] + layout_model_seq(s.drop_first())
    }
}

impl View for LayoutNode {
    type V = LayoutModel;

    open spec fn view(&self) -> LayoutModel {
        layout_model(*self)
    }
}

/// The picture of a forest keeps its length and pictures each tree in place.
pub proof fn lemma_layout_model_seq(s: Seq<LayoutNode>)
    ensures
        layout_model_seq(s).len() == s.len(),
        forall|i: int| 0 <= i < s.len() ==> #[trigger] layout_model_seq(s)[i] == layout_model(s[i]),
    decreases s.len(),
{
    if s.len() > 0 {
        lemma_layout_model_seq(s.drop_first());
        assert forall|i: int| 0 <= i < s.len() implies #[trigger] layout_model_seq(s)[i]
            == layout_model(s[i]) by {
            if i > 0 {
                assert(layout_model_seq(s)[i] == layout_model_seq(s.drop_first())[i - 1]);
                assert(s.drop_first()[i - 1] == s[i]);
            }
        }
    }
}

/// The total number of nodes in a geometry tree, the node itself included.
pub open spec fn node_count(n: LayoutModel) -> nat
    decreases n,
{
    1 + node_count_seq(n.children)
}

/// The total number of nodes in a forest of geometry trees.
pub open spec fn node_count_seq(s: Seq<LayoutModel>) -> nat
    decreases s,
{
    if s.len() == 0 {
        0
    } else {
        node_count(s[0]) + node_count_seq(s.drop_first())
    }
}

/// Every tree in a forest counts no more nodes than the whole forest.
pub proof fn lemma_node_count_child(s: Seq<LayoutModel>, i: int)
    requires
        0 <= i < s.len(),
    ensures
        node_count(s[i]) <= node_count_seq(s),
    decreases s.len(),
{
    if i > 0 {
        lemma_node_count_child(s.drop_first(), i - 1);
    }
}

/// Picturing a forest split in two legs pictures the legs one after the
/// other.
pub proof fn lemma_layout_model_seq_append(a: Seq<LayoutNode>, b: Seq<LayoutNode>)
    ensures
        layout_model_seq(a + b) == layout_model_seq(a) + layout_model_seq(b),
    decreases a.len(),
{
    if a.len() == 0 {
        assert(a + b =~= b);
        assert(layout_model_seq(a) + layout_model_seq(b) =~= layout_model_seq(b));
    } else {
        assert((a + b)[0] == a[0]);
        assert((a + b).drop_first() =~= a.drop_first() + b);
        lemma_layout_model_seq_append(a.drop_first(), b);
        assert(layout_model_seq(a + b) =~= layout_model_seq(a) + layout_model_seq(b));
    }
}

} // verus!
