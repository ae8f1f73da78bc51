use dashboard_core::controller::Tab;
use dashboard_core::tabs::{AsVec, TabsState};

fn four_tabs() -> Vec<Tab> {
    vec![Tab::Welcome, Tab::Monitor, Tab::Console, Tab::Settings]
}

#[test]
fn new_uses_full_enumeration() {
    let tabs: TabsState<Tab> = TabsState::new(Tab::Monitor);
    assert_eq!(tabs.titles, four_tabs());
    assert_eq!(tabs.index, 0);
    assert_eq!(tabs.current, Tab::Monitor);
}

#[test]
fn as_vec_lists_every_variant_in_order() {
    assert_eq!(Tab::as_vec(), four_tabs());
}

#[test]
fn from_starts_at_zero_with_default() {
    let tabs = TabsState::from(vec![Tab::Console, Tab::Settings], Tab::Settings);
    assert_eq!(tabs.index, 0);
    assert_eq!(tabs.current, Tab::Settings);
    assert_eq!(tabs.titles.len(), 2);
}

#[test]
fn advance_full_cycle_returns_to_start() {
    let mut tabs = TabsState::from(four_tabs(), Tab::Welcome);
    let start = tabs.index;
    for _ in 0..4 {
        tabs.next();
        assert_eq!(tabs.current, tabs.titles[tabs.index]);
    }
    assert_eq!(tabs.index, start);
}

#[test]
fn advance_full_cycle_single_title() {
    let mut tabs = TabsState::from(vec![Tab::Welcome], Tab::Welcome);
    tabs.next();
    assert_eq!(tabs.index, 0);
    assert_eq!(tabs.current, Tab::Welcome);
}

#[test]
fn retreat_from_zero_wraps_to_last() {
    let mut tabs = TabsState::from(four_tabs(), Tab::Welcome);
    tabs.previous();
    assert_eq!(tabs.index, 3);
    assert_eq!(tabs.current, Tab::Settings);
}

#[test]
fn advance_from_last_wraps_to_zero() {
    let mut tabs = TabsState::from(four_tabs(), Tab::Welcome);
    tabs.previous();
    assert_eq!(tabs.index, 3);
    tabs.next();
    assert_eq!(tabs.index, 0);
    assert_eq!(tabs.current, Tab::Welcome);
}

#[test]
fn advance_then_retreat_is_identity() {
    let mut tabs = TabsState::from(four_tabs(), Tab::Welcome);
    tabs.next();
    tabs.previous();
    assert_eq!(tabs.index, 0);
    assert_eq!(tabs.current, Tab::Welcome);
}
