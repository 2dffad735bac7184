//! A layered-composition and message-remapping layer for a tree of
//! polymorphic, mutable UI nodes.
//!
//! Widgets carry a rendering [`layer::Layer`]; containers promote the layer of
//! their children one step. A [`element::CosmicElement`] owns one widget of
//! the capability set [`widget::CosmicWidget`]; it can be wrapped in a
//! [`map::CosmicMap`], which translates every message the subtree emits
//! through a pure mapping function, or in an [`explain::CosmicExplain`], which
//! outlines every computed layout region after the normal draw pass.

pub mod element;
pub mod event;
pub mod explain;
pub mod geometry;
pub mod layer;
pub mod laws;
pub mod layout;
pub mod map;
pub mod mapper;
pub mod operation;
pub mod widget;
pub mod widgets;
pub mod renderer;
pub mod tree;
