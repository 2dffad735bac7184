//! The polymorphic node container: exclusively owns one widget of the
//! capability set and composes it by wrapping — message remapping and the
//! explain decoration are pure structural wrapping, no traversal happens at
//! call time.

use vstd::prelude::*;
use core::marker::PhantomData;
use crate::explain::CosmicExplain;
use crate::map::CosmicMap;
use crate::mapper::MessageMapper;
use crate::renderer::Color;
use crate::widget::CosmicWidget;

verus! {

/// A generic widget node: the owner of one widget of the capability set.
pub struct CosmicElement<M, W: CosmicWidget<M>> {
    /// The owned widget.
    pub widget: W,
    pub marker: PhantomData<M>,
}

impl<M, W: CosmicWidget<M>> CosmicElement<M, W> {
    /// Creates a new element containing the given widget; always succeeds.
    pub fn new(widget: W) -> (e: Self)
        ensures
            e.widget == widget,
    {
        CosmicElement { widget, marker: PhantomData }
    }

    /// Returns a reference to the widget of the element.
    pub fn as_widget(&self) -> (w: &W)
        ensures
            *w == self.widget,
    {
        &self.widget
    }

    /// Returns a mutable reference to the widget of the element.
    pub fn as_widget_mut(&mut self) -> (w: &mut W)
        ensures
            *w == old(self).widget,
            final(self).widget == *final(w),
            final(self).marker == old(self).marker,
    {
        &mut self.widget
    }

    /// Applies a translation to the messages the element produces, so a
    /// subtree over one message type composes into a parent over another.
    /// Pure structural wrapping: nothing is traversed at call time.
    pub fn map<B, F: MessageMapper<M, B>>(self, mapper: F) -> (e: CosmicElement<
        B,
        CosmicMap<M, B, W, F>,
    >)
        ensures
            e.widget.widget == self.widget,
            e.widget.mapper == mapper,
    {
        CosmicElement::new(CosmicMap::new(self.widget, mapper))
    }

    /// Marks the element as to-be-explained: after its normal draw pass, the
    /// renderer outlines every region of its computed layout in the given
    /// color.
    pub fn explain(self, color: Color) -> (e: CosmicElement<M, CosmicExplain<M, W>>)
        ensures
            e.widget.element.widget == self.widget,
            e.widget.color == color,
    {
        CosmicElement { widget: CosmicExplain::new(self, color), marker: PhantomData }
    }
}

} // verus!
