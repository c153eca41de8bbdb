use tab_bar::{
    Axis, ElementId, ScrollHandle, Sizing, TabBar, TabBarPosition, Theme,
};

fn theme() -> Theme {
    Theme { border: 0x4444_44ff, tab_bar_background: 0x2222_22ff }
}

#[test]
fn scenario_top_leading_and_tabs() {
    let mut bar = TabBar::new(ElementId(7)).start_child(1);
    bar.extend(vec![10, 11]);
    let tree = bar.render(&theme());
    assert_eq!(tree.tab_list.auxiliary_row.items, vec![1]);
    assert_eq!(tree.tab_list.items, vec![10, 11]);
    assert_eq!(tree.sizing, Sizing::FullWidth);
    assert_eq!(tree.tab_list.axis, Axis::Horizontal);
    assert_eq!(tree.wrapper_axis, Axis::Horizontal);
    assert_eq!(tree.id, ElementId(7));
}

#[test]
fn scenario_right_with_trailing() {
    let mut bar = TabBar::new(ElementId(7))
        .start_child(1)
        .end_child(2)
        .position(TabBarPosition::Right);
    bar.extend(vec![10, 11]);
    let tree = bar.render(&theme());
    assert_eq!(tree.tab_list.auxiliary_row.items, vec![1, 2]);
    assert_eq!(tree.tab_list.items, vec![10, 11]);
    assert_eq!(tree.sizing, Sizing::FullHeight);
    assert_eq!(tree.tab_list.axis, Axis::Vertical);
    assert_eq!(tree.wrapper_axis, Axis::Vertical);
}

#[test]
fn scenario_all_slots_empty() {
    let bar = TabBar::new(ElementId(0));
    let tree = bar.render(&theme());
    assert!(tree.tab_list.auxiliary_row.items.is_empty());
    assert!(tree.tab_list.items.is_empty());
    assert_eq!(tree.sizing, Sizing::FullWidth);
    assert_eq!(tree.height_px, 29);
    assert_eq!(tree.background, 0x2222_22ff);
    assert_eq!(tree.underlay.border_bottom, 0x4444_44ff);
    assert_eq!(tree.tab_list.auxiliary_row.border, 0x4444_44ff);
    assert_eq!(tree.tab_list.scroll, None);
}

#[test]
fn compose_is_deterministic() {
    let mut first = TabBar::new(ElementId(3))
        .start_child(1)
        .end_child(2)
        .position(TabBarPosition::Right)
        .track_scroll(ScrollHandle(5));
    first.extend(vec![10, 11, 12]);
    let mut second = TabBar::new(ElementId(3))
        .start_child(1)
        .end_child(2)
        .position(TabBarPosition::Right)
        .track_scroll(ScrollHandle(5));
    second.extend(vec![10, 11, 12]);
    assert_eq!(first.render(&theme()), second.render(&theme()));
}

#[test]
fn main_slot_order_follows_call_order() {
    let mut bar = TabBar::new(ElementId(1));
    bar.extend(vec![10, 11]);
    bar.extend(vec![]);
    bar.extend(vec![12]);
    let tree = bar.render(&theme());
    assert_eq!(tree.tab_list.items, vec![10, 11, 12]);
}

#[test]
fn leading_slot_order_follows_call_order() {
    let bar = TabBar::new(ElementId(1))
        .start_child(1)
        .start_child(2)
        .start_children(vec![3, 4]);
    let tree = bar.render(&theme());
    assert_eq!(tree.tab_list.auxiliary_row.items, vec![1, 2, 3, 4]);
}

#[test]
fn trailing_slot_order_follows_call_order() {
    let bar = TabBar::new(ElementId(1))
        .end_children(vec![5, 6])
        .end_child(7)
        .position(TabBarPosition::Right);
    let tree = bar.render(&theme());
    assert_eq!(tree.tab_list.auxiliary_row.items, vec![5, 6, 7]);
}

#[test]
fn trailing_slot_never_shown_for_top() {
    let bar = TabBar::new(ElementId(1)).start_child(1).end_child(2);
    let tree = bar.render(&theme());
    assert_eq!(tree.tab_list.auxiliary_row.items, vec![1]);
}

#[test]
fn position_last_write_wins() {
    let bar = TabBar::new(ElementId(1))
        .position(TabBarPosition::Right)
        .position(TabBarPosition::Top);
    let tree = bar.render(&theme());
    assert_eq!(tree.sizing, Sizing::FullWidth);
    assert_eq!(tree.tab_list.axis, Axis::Horizontal);
}

#[test]
fn track_scroll_last_write_wins() {
    let bar = TabBar::new(ElementId(1))
        .track_scroll(ScrollHandle(1))
        .track_scroll(ScrollHandle(2));
    let tree = bar.render(&theme());
    assert_eq!(tree.tab_list.scroll, Some(ScrollHandle(2)));
}

#[test]
fn mut_accessors_reach_the_slots() {
    let mut bar = TabBar::new(ElementId(1)).position(TabBarPosition::Right);
    bar.start_children_mut().push(8);
    bar.end_children_mut().push(9);
    let tree = bar.render(&theme());
    assert_eq!(tree.tab_list.auxiliary_row.items, vec![8, 9]);
}

#[test]
fn config_name_of_each_position() {
    assert_eq!(TabBarPosition::Top.config_name(), "top");
    assert_eq!(TabBarPosition::Right.config_name(), "right");
}

#[test]
fn config_name_round_trip() {
    assert_eq!(
        TabBarPosition::from_config_name(TabBarPosition::Top.config_name()),
        TabBarPosition::Top
    );
    assert_eq!(
        TabBarPosition::from_config_name(TabBarPosition::Right.config_name()),
        TabBarPosition::Right
    );
}

#[test]
fn unknown_config_name_defaults_to_top() {
    assert_eq!(TabBarPosition::from_config_name("sideways"), TabBarPosition::Top);
    assert_eq!(TabBarPosition::from_config_name(""), TabBarPosition::Top);
}

#[test]
fn absent_config_value_defaults_to_top() {
    assert_eq!(TabBarPosition::from_config(None), TabBarPosition::Top);
    assert_eq!(
        TabBarPosition::from_config(Some("right")),
        TabBarPosition::Right
    );
}

#[test]
fn default_position_is_top() {
    assert_eq!(TabBarPosition::default(), TabBarPosition::Top);
}
