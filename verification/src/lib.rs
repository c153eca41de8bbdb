//! A tab strip container widget: an ordered-slot model with a fluent builder
//! and a pure composition step that turns a finished model into a concrete
//! visual-container tree, branching on the bar's orientation.
//!
//! The embedding UI layer owns the actual renderable elements and the real
//! scroll handle; this crate works with opaque keys standing for them, and
//! hands back a tree description for the renderer to paint.

pub mod bar;
pub mod compose;
pub mod laws;
pub mod position;
pub mod slot;

pub use bar::{ElementId, ScrollHandle, TabBar, TabBarView};
pub use compose::{
    Axis, AuxiliaryRow, ComposedTabBar, ComposedView, Sizing, TabList, Theme, Underlay,
};
pub use position::TabBarPosition;
pub use slot::ElementKey;
