//! The composed visual tree of the tab bar.
//!
//! Composition turns a finished model into a fixed-shape container tree for
//! the rendering collaborator to paint: an outer wrapper of constant height,
//! an inner wrapper carrying a decorative underlay, and the scrollable tab
//! list whose first child is the auxiliary-controls row followed by the main
//! slot's elements. Everything that varies does so only with the model's
//! orientation, slots, scroll binding and the theme colors passed in.

use vstd::prelude::*;
use crate::position::TabBarPosition;
use crate::bar::{ElementId, ScrollHandle, TabBarView};
use crate::slot::ElementKey;

verus! {

/// The fixed cross-axis height of the bar, in pixels. The bar does not yet
/// scale with density settings, so the height is a constant.
pub const TAB_BAR_HEIGHT_PX: u64 = 29;

/// The block axis of a flex container.
#[derive(Clone, Copy, Debug, PartialEq, Eq, Structural)]
pub enum Axis {
    Horizontal,
    Vertical,
}

/// How a container fills the axis it does not scroll along.
#[derive(Clone, Copy, Debug, PartialEq, Eq, Structural)]
pub enum Sizing {
    FullWidth,
    FullHeight,
}

/// The theme colors composition reads, passed in explicitly. Colors are
/// packed RGBA values; the renderer interprets them.
#[derive(Clone, Copy, Debug, PartialEq, Eq, Structural)]
pub struct Theme {
    /// Border color, used by the underlay and the auxiliary row.
    pub border: u32,
    /// Background fill of the whole bar.
    pub tab_bar_background: u32,
}

/// The decorative layer beneath the tab list: absolutely positioned, full
/// size, drawing only a bottom border.
#[derive(Clone, Copy, Debug, PartialEq, Eq, Structural)]
pub struct Underlay {
    pub border_bottom: u32,
}

/// The auxiliary-controls row: leading elements first, and — only in the
/// `Right` orientation, and only when it is non-empty — the trailing slot
/// appended after them. Always a horizontal row with a bottom and left
/// border.
#[derive(Clone, Debug, PartialEq, Eq)]
pub struct AuxiliaryRow {
    pub border: u32,
    pub items: Vec<ElementKey>,
}

/// The scrollable tab list: the auxiliary row as its first child, then the
/// main slot's elements in order. Bound to the model's scroll handle when
/// one was attached. The renderer addresses this container under a fixed,
/// well-known name for scrolling and hit-testing; only the outer wrapper
/// carries a per-instance identity.
#[derive(Clone, Debug, PartialEq, Eq)]
pub struct TabList {
    pub axis: Axis,
    pub scroll: Option<ScrollHandle>,
    pub auxiliary_row: AuxiliaryRow,
    pub items: Vec<ElementKey>,
}

/// The assembled tree: the outer wrapper's identity, sizing, constant
/// height and background, the inner wrapper's axis, the underlay, and the
/// tab list.
#[derive(Clone, Debug, PartialEq, Eq)]
pub struct ComposedTabBar {
    pub id: ElementId,
    pub sizing: Sizing,
    pub height_px: u64,
    pub background: u32,
    pub wrapper_axis: Axis,
    pub underlay: Underlay,
    pub tab_list: TabList,
}

/// The mathematical shape of a composed tree, with the two child lists as
/// sequences.
pub struct ComposedView {
    pub id: ElementId,
    pub sizing: Sizing,
    pub height_px: u64,
    pub background: u32,
    pub wrapper_axis: Axis,
    pub underlay_border: u32,
    pub list_axis: Axis,
    pub scroll: Option<ScrollHandle>,
    pub aux_border: u32,
    pub aux_items: Seq<ElementKey>,
    pub main_items: Seq<ElementKey>,
}

impl View for ComposedTabBar {
    type V = ComposedView;

    open spec fn view(&self) -> ComposedView {
        ComposedView {
            id: self.id,
            sizing: self.sizing,
            height_px: self.height_px,
            background: self.background,
            wrapper_axis: self.wrapper_axis,
            underlay_border: self.underlay.border_bottom,
            list_axis: self.tab_list.axis,
            scroll: self.tab_list.scroll,
            aux_border: self.auxiliary_border(),
            aux_items: self.tab_list.auxiliary_row.items@,
            main_items: self.tab_list.items@,
        }
    }
}

impl ComposedTabBar {
    /// The border color of the auxiliary row.
    pub open spec fn auxiliary_border(&self) -> u32 {
        self.tab_list.auxiliary_row.border
    }
}

/// The contents of the auxiliary-controls row: the leading elements, with
/// the trailing elements after them only in the `Right` orientation and only
/// when the trailing slot is non-empty. In the `Top` orientation trailing
/// elements are never placed here, a gap kept for compatibility with the
/// bar's earlier behavior.
pub open spec fn aux_row_items(
    position: TabBarPosition,
    start: Seq<ElementKey>,
    end: Seq<ElementKey>,
) -> Seq<ElementKey> {
    if position == TabBarPosition::Right && end.len() > 0 {
        start + end
    } else {
        start
    }
}

/// The outer wrapper fills the width of a `Top` bar and the height of a
/// `Right` bar.
pub open spec fn outer_sizing(position: TabBarPosition) -> Sizing {
    match position {
        TabBarPosition::Top => Sizing::FullWidth,
        TabBarPosition::Right => Sizing::FullHeight,
    }
}

/// The block axis of the inner wrapper and the tab list: horizontal for a
/// `Top` bar, vertical for a `Right` bar.
pub open spec fn block_axis(position: TabBarPosition) -> Axis {
    match position {
        TabBarPosition::Top => Axis::Horizontal,
        TabBarPosition::Right => Axis::Vertical,
    }
}

/// The whole composition, as a function of the model and the theme: every
/// part of the tree is determined by the two.
pub open spec fn compose_spec(v: TabBarView, t: Theme) -> ComposedView {
    ComposedView {
        id: v.id,
        sizing: outer_sizing(v.position),
        height_px: TAB_BAR_HEIGHT_PX,
        background: t.tab_bar_background,
        wrapper_axis: block_axis(v.position),
        underlay_border: t.border,
        list_axis: block_axis(v.position),
        scroll: v.scroll,
        aux_border: t.border,
        aux_items: aux_row_items(v.position, v.start, v.end),
        main_items: v.main,
    }
}

} // verus!
