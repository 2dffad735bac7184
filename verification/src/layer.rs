//! The layer model: a totally ordered, three-valued rendering classification
//! with a deterministic promotion rule for the children of containers.

use vstd::prelude::*;

verus! {

/// Rendering-order classification of a widget.
///
/// The order is `Background < Primary < Secondary`. A container's children
/// live one layer above the container itself; promotion saturates silently at
/// `Secondary`.
#[derive(Clone, Copy, Debug, PartialEq, Eq, Hash, Structural)]
pub enum Layer {
    Background,
    Primary,
    Secondary,
}

impl Layer {
    /// Position of the layer in the `Background < Primary < Secondary` order.
    pub open spec fn rank(self) -> int {
        match self {
            Layer::Background => 0,
            Layer::Primary => 1,
            Layer::Secondary => 2,
        }
    }

    /// The layer one step up the order, saturating at `Secondary`.
    pub open spec fn spec_promote(self) -> Layer {
        match self {
            Layer::Background => Layer::Primary,
            Layer::Primary => Layer::Secondary,
            Layer::Secondary => Layer::Secondary,
        }
    }

    /// Promotes the layer one step, saturating at `Secondary`.
    pub fn promote(self) -> (l: Layer)
        ensures
            l == self.spec_promote(),
    {
        match self {
            Layer::Background => Layer::Primary,
            Layer::Primary => Layer::Secondary,
            Layer::Secondary => Layer::Secondary,
        }
    }
}

impl Default for Layer {
    /// The default layer is `Background`.
    fn default() -> (l: Layer)
        ensures
            l == Layer::Background,
    {
        Layer::Background
    }
}

/// The layer of a widget's children, derived from whether the widget is a
/// container and from the widget's own layer: containers promote one step,
/// all other widgets hand their own layer down unchanged.
pub open spec fn spec_child_layer(is_container: bool, layer: Layer) -> Layer {
    if is_container {
        layer.spec_promote()
    } else {
        layer
    }
}

/// Computes the layer of a widget's children from the widget's container
/// flag and its own layer.
pub fn child_layer_from(is_container: bool, layer: Layer) -> (l: Layer)
    ensures
        l == spec_child_layer(is_container, layer),
{
    if is_container {
        layer.promote()
    } else {
        layer
    }
}

/// Promotion moves every layer below `Secondary` exactly one rank up and is
/// idempotent at the ceiling: `Secondary` stays `Secondary`.
pub proof fn lemma_promote_saturates(l: Layer)
    ensures
        l != Layer::Secondary ==> l.spec_promote().rank() == l.rank() + 1,
        l == Layer::Secondary ==> l.spec_promote() == l,
{
}

impl PartialOrd for Layer {
    /// Layers compare by their rank; the order is total.
    fn partial_cmp(&self, other: &Layer) -> (r: Option<core::cmp::Ordering>) {
        let a = match self {
            Layer::Background => 0u8,
            Layer::Primary => 1u8,
            Layer::Secondary => 2u8,
        };
        let b = match other {
            Layer::Background => 0u8,
            Layer::Primary => 1u8,
            Layer::Secondary => 2u8,
        };
        if a < b {
            Some(core::cmp::Ordering::Less)
        } else if a == b {
            Some(core::cmp::Ordering::Equal)
        } else {
            Some(core::cmp::Ordering::Greater)
        }
    }
}

impl vstd::std_specs::cmp::PartialOrdSpecImpl for Layer {
    open spec fn obeys_partial_cmp_spec() -> bool {
        true
    }

    open spec fn partial_cmp_spec(&self, other: &Layer) -> Option<core::cmp::Ordering> {
        if self.rank() < other.rank() {
            Some(core::cmp::Ordering::Less)
        } else if self.rank() == other.rank() {
            Some(core::cmp::Ordering::Equal)
        } else {
            Some(core::cmp::Ordering::Greater)
        }
    }
}

} // verus!
