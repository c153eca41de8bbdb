//! The laws the tab bar keeps: order preservation of the main slot through
//! composition, determinism of composition, the orientation-dependent shape
//! of the tree, and last-write-wins of the two overwriting builder steps.

use vstd::prelude::*;
use crate::bar::{ScrollHandle, TabBarView};
use crate::compose::{Axis, ComposedView, Sizing, Theme, compose_spec};
use crate::position::TabBarPosition;
use crate::slot::ElementKey;

verus! {

/// The model after a whole sequence of main-slot appends, one batch per
/// call, in call order.
pub open spec fn appended_all(v: TabBarView, batches: Seq<Seq<ElementKey>>) -> TabBarView
    decreases batches.len(),
{
    if batches.len() == 0 {
        v
    } else {
        appended_all(v.extend_main(batches[0]), batches.drop_first())
    }
}

/// However many calls append to the main slot, the composed tab list holds
/// the prior contents followed by every batch, flattened in call order: no
/// reordering, deduplication or sorting ever happens.
pub proof fn lemma_main_slot_order(v: TabBarView, batches: Seq<Seq<ElementKey>>, t: Theme)
    ensures
        compose_spec(appended_all(v, batches), t).main_items == v.main + batches.flatten(),
    decreases batches.len(),
{
    if batches.len() == 0 {
        assert(v.main + batches.flatten() =~= v.main);
    } else {
        lemma_main_slot_order(v.extend_main(batches[0]), batches.drop_first(), t);
        assert((v.main + batches[0]) + batches.drop_first().flatten()
            =~= v.main + (batches[0] + batches.drop_first().flatten()));
    }
}

/// Composition is deterministic: two compositions of one model under one
/// theme are structurally identical.
pub proof fn lemma_compose_deterministic(
    v: TabBarView,
    t: Theme,
    first: ComposedView,
    second: ComposedView,
)
    requires
        first == compose_spec(v, t),
        second == compose_spec(v, t),
    ensures
        first == second,
{
}

/// In the `Top` orientation the outer wrapper fills the width, the tab list
/// runs horizontally, and the auxiliary row holds the leading slot alone:
/// trailing elements never appear in it.
pub proof fn lemma_compose_top(v: TabBarView, t: Theme)
    requires
        v.position == TabBarPosition::Top,
    ensures
        compose_spec(v, t).sizing == Sizing::FullWidth,
        compose_spec(v, t).list_axis == Axis::Horizontal,
        compose_spec(v, t).aux_items == v.start,
{
}

/// In the `Right` orientation the outer wrapper fills the height, the tab
/// list runs vertically, and a non-empty trailing slot follows the leading
/// slot in the auxiliary row, in trailing-slot order.
pub proof fn lemma_compose_right(v: TabBarView, t: Theme)
    requires
        v.position == TabBarPosition::Right,
    ensures
        compose_spec(v, t).sizing == Sizing::FullHeight,
        compose_spec(v, t).list_axis == Axis::Vertical,
        v.end.len() > 0 ==> compose_spec(v, t).aux_items == v.start + v.end,
        v.end.len() == 0 ==> compose_spec(v, t).aux_items == v.start,
{
}

/// Setting the orientation twice before composition is setting it once with
/// the later value.
pub proof fn lemma_position_last_write_wins(
    v: TabBarView,
    first: TabBarPosition,
    second: TabBarPosition,
)
    ensures
        v.with_position(first).with_position(second) == v.with_position(second),
{
}

/// Attaching a scroll handle twice before composition is attaching the later
/// one once.
pub proof fn lemma_track_scroll_last_write_wins(
    v: TabBarView,
    first: ScrollHandle,
    second: ScrollHandle,
)
    ensures
        v.with_scroll(first).with_scroll(second) == v.with_scroll(second),
{
}

} // verus!
