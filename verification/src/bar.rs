//! The tab bar model: three ordered slots, an orientation, an optional
//! scroll binding and an identity, built up through a fluent API and
//! consumed once by composition.

use vstd::prelude::*;
use crate::position::TabBarPosition;
use crate::slot::{ElementKey, Slot, slot_elems};
use crate::compose::{
    Axis, AuxiliaryRow, ComposedTabBar, Sizing, TabList, Theme, Underlay,
    TAB_BAR_HEIGHT_PX, aux_row_items, compose_spec,
};

verus! {

/// The identity token of a bar instance: opaque here, used by the rendering
/// collaborator for diffing, focus and hit-testing.
#[derive(Clone, Copy, Debug, PartialEq, Eq, Structural, Hash)]
pub struct ElementId(pub u64);

/// A non-owning token standing for an externally owned scroll-position
/// handle. The model only carries it; binding and offset traffic are the
/// rendering collaborator's business.
#[derive(Clone, Copy, Debug, PartialEq, Eq, Structural, Hash)]
pub struct ScrollHandle(pub u64);

/// The mathematical shape of a model: the three slots as sequences, plus
/// orientation, scroll binding and identity.
pub struct TabBarView {
    pub id: ElementId,
    pub start: Seq<ElementKey>,
    pub main: Seq<ElementKey>,
    pub end: Seq<ElementKey>,
    pub scroll: Option<ScrollHandle>,
    pub position: TabBarPosition,
}

impl TabBarView {
    /// A fresh model: all slots empty, no scroll binding, `Top` orientation.
    pub open spec fn init(id: ElementId) -> TabBarView {
        TabBarView {
            id,
            start: Seq::empty(),
            main: Seq::empty(),
            end: Seq::empty(),
            scroll: None,
            position: TabBarPosition::Top,
        }
    }

    /// The model with the scroll binding replaced.
    pub open spec fn with_scroll(self, h: ScrollHandle) -> TabBarView {
        TabBarView { scroll: Some(h), ..self }
    }

    /// The model with the orientation replaced.
    pub open spec fn with_position(self, p: TabBarPosition) -> TabBarView {
        TabBarView { position: p, ..self }
    }

    /// The model with one element appended to the leading slot.
    pub open spec fn push_start(self, k: ElementKey) -> TabBarView {
        TabBarView { start: self.start.push(k), ..self }
    }

    /// The model with a batch appended to the leading slot, in order.
    pub open spec fn extend_start(self, ks: Seq<ElementKey>) -> TabBarView {
        TabBarView { start: self.start + ks, ..self }
    }

    /// The model with one element appended to the trailing slot.
    pub open spec fn push_end(self, k: ElementKey) -> TabBarView {
        TabBarView { end: self.end.push(k), ..self }
    }

    /// The model with a batch appended to the trailing slot, in order.
    pub open spec fn extend_end(self, ks: Seq<ElementKey>) -> TabBarView {
        TabBarView { end: self.end + ks, ..self }
    }

    /// The model with a batch appended to the main slot, in order.
    pub open spec fn extend_main(self, ks: Seq<ElementKey>) -> TabBarView {
        TabBarView { main: self.main + ks, ..self }
    }
}

/// The tab bar model. Built fresh each render pass through the fluent API,
/// then handed to `render` exactly once.
pub struct TabBar {
    id: ElementId,
    start_children: Slot,
    children: Slot,
    end_children: Slot,
    scroll_handle: Option<ScrollHandle>,
    position: TabBarPosition,
}

impl View for TabBar {
    type V = TabBarView;

    closed spec fn view(&self) -> TabBarView {
        TabBarView {
            id: self.id,
            start: slot_elems(self.start_children),
            main: slot_elems(self.children),
            end: slot_elems(self.end_children),
            scroll: self.scroll_handle,
            position: self.position,
        }
    }
}

impl TabBar {
    /// A fresh model under the given identity: every slot empty, no scroll
    /// binding, `Top` orientation.
    pub fn new(id: ElementId) -> (r: Self)
        ensures
            r@ == TabBarView::init(id),
    {
        TabBar {
            id,
            start_children: Slot::new(),
            children: Slot::new(),
            end_children: Slot::new(),
            scroll_handle: None,
            position: TabBarPosition::Top,
        }
    }

    /// Attaches a scroll handle for the tab list to be bound to; a later
    /// call replaces an earlier one.
    pub fn track_scroll(self, scroll_handle: ScrollHandle) -> (r: Self)
        ensures
            r@ == self@.with_scroll(scroll_handle),
    {
        TabBar { scroll_handle: Some(scroll_handle), ..self }
    }

    /// Borrows the leading slot for direct mutation.
    pub fn start_children_mut(&mut self) -> (r: &mut Slot)
        ensures
            slot_elems(*r) == old(self)@.start,
            final(self)@ == (TabBarView { start: slot_elems(*final(r)), ..old(self)@ }),
    {
        &mut self.start_children
    }

    /// Appends one element to the leading slot.
    pub fn start_child(self, start_child: ElementKey) -> (r: Self)
        ensures
            r@ == self@.push_start(start_child),
    {
        let mut this = self;
        this.start_children.push(start_child);
        this
    }

    /// Appends a batch of elements to the leading slot, in order.
    pub fn start_children(self, start_children: Vec<ElementKey>) -> (r: Self)
        ensures
            r@ == self@.extend_start(start_children@),
    {
        let mut this = self;
        this.start_children.extend_from(&start_children);
        this
    }

    /// Borrows the trailing slot for direct mutation.
    pub fn end_children_mut(&mut self) -> (r: &mut Slot)
        ensures
            slot_elems(*r) == old(self)@.end,
            final(self)@ == (TabBarView { end: slot_elems(*final(r)), ..old(self)@ }),
    {
        &mut self.end_children
    }

    /// Appends one element to the trailing slot.
    pub fn end_child(self, end_child: ElementKey) -> (r: Self)
        ensures
            r@ == self@.push_end(end_child),
    {
        let mut this = self;
        this.end_children.push(end_child);
        this
    }

    /// Appends a batch of elements to the trailing slot, in order.
    pub fn end_children(self, end_children: Vec<ElementKey>) -> (r: Self)
        ensures
            r@ == self@.extend_end(end_children@),
    {
        let mut this = self;
        this.end_children.extend_from(&end_children);
        this
    }

    /// Sets the orientation; a later call replaces an earlier one.
    pub fn position(self, position: TabBarPosition) -> (r: Self)
        ensures
            r@ == self@.with_position(position),
    {
        let mut this = self;
        this.position = position;
        this
    }

    /// Appends a batch of elements to the main slot, in order: the widget's
    /// primary content-accumulation path.
    pub fn extend(&mut self, elements: Vec<ElementKey>)
        ensures
            final(self)@ == old(self)@.extend_main(elements@),
    {
        self.children.extend_from(&elements);
    }

    /// Composes the finished model into its visual tree, reading colors from
    /// the theme passed in. Total and deterministic: the result is exactly
    /// `compose_spec` of the model.
    pub fn render(self, theme: &Theme) -> (r: ComposedTabBar)
        ensures
            r@ == compose_spec(self@, *theme),
    {
        let ghost v = self@;
        let mut aux_items = self.start_children.to_vec();
        if self.position == TabBarPosition::Right && self.end_children.len() > 0 {
            let mut end_items = self.end_children.to_vec();
            aux_items.append(&mut end_items);
        }
        proof {
            assert(aux_items@ == aux_row_items(v.position, v.start, v.end));
        }
        let main_items = self.children.to_vec();
        let (sizing, axis) = match self.position {
            TabBarPosition::Top => (Sizing::FullWidth, Axis::Horizontal),
            TabBarPosition::Right => (Sizing::FullHeight, Axis::Vertical),
        };
        ComposedTabBar {
            id: self.id,
            sizing,
            height_px: TAB_BAR_HEIGHT_PX,
            background: theme.tab_bar_background,
            wrapper_axis: axis,
            underlay: Underlay { border_bottom: theme.border },
            tab_list: TabList {
                axis,
                scroll: self.scroll_handle,
                auxiliary_row: AuxiliaryRow { border: theme.border, items: aux_items },
                items: main_items,
            },
        }
    }
}

} // verus!
