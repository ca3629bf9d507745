use editor_core::focus::{Focus, FocusSlot};
use editor_core::selection::SelectionSet;

#[test]
fn toggle_without_modifier_replaces_selection() {
    let mut sel = SelectionSet::new();
    sel.toggle(10, true);
    sel.toggle(20, true);
    sel.toggle(30, true);
    // An ordinary click on a new object replaces the whole selection.
    sel.toggle(99, false);
    assert_eq!(sel.elements(), vec![99]);
}

#[test]
fn toggle_with_modifier_builds_multi_selection_in_order() {
    let mut sel = SelectionSet::new();
    sel.toggle(10, false);
    sel.toggle(20, true);
    sel.toggle(30, true);
    assert_eq!(sel.elements(), vec![10, 20, 30]);
    assert_eq!(sel.len(), 3);
    assert!(sel.contains(20));
    assert!(!sel.contains(40));
}

#[test]
fn toggle_selected_object_removes_it_preserving_order() {
    let mut sel = SelectionSet::new();
    sel.toggle(10, false);
    sel.toggle(20, true);
    sel.toggle(30, true);
    // Removing the middle member shifts nothing else out of order.
    sel.toggle(20, true);
    assert_eq!(sel.elements(), vec![10, 30]);
}

#[test]
fn toggle_selected_object_removes_even_without_modifier() {
    let mut sel = SelectionSet::new();
    sel.toggle(10, false);
    sel.toggle(10, false);
    assert_eq!(sel.elements(), Vec::<u64>::new());
}

#[test]
fn clear_empties_the_selection() {
    let mut sel = SelectionSet::new();
    sel.toggle(1, false);
    sel.toggle(2, true);
    sel.clear();
    assert_eq!(sel.len(), 0);
    assert_eq!(sel.elements(), Vec::<u64>::new());
}

#[test]
fn pop_all_drains_most_recent_first() {
    let mut sel = SelectionSet::new();
    sel.toggle(1, false);
    sel.toggle(2, true);
    sel.toggle(3, true);
    let drained = sel.pop_all();
    assert_eq!(drained, vec![3, 2, 1]);
    assert_eq!(sel.len(), 0);
}

#[test]
fn pop_all_on_empty_selection_yields_nothing() {
    let mut sel = SelectionSet::new();
    assert_eq!(sel.pop_all(), Vec::<u64>::new());
}

#[test]
fn fresh_slot_is_free_and_grants_any_claim() {
    let mut slot = FocusSlot::new();
    assert_eq!(slot.current, Focus::Idle);
    assert!(slot.try_claim(Focus::Transform));
    assert_eq!(slot.current, Focus::Transform);
}

#[test]
fn camera_focus_rejects_transform_claim() {
    let mut slot = FocusSlot::new();
    assert!(slot.try_claim(Focus::Camera));
    // Camera outranks Transform, so the claim is rejected this frame.
    assert!(!slot.try_claim(Focus::Transform));
    assert_eq!(slot.current, Focus::Camera);
}

#[test]
fn camera_claim_evicts_lower_priority_holder() {
    let mut slot = FocusSlot::new();
    slot.gui_hover(true);
    assert_eq!(slot.current, Focus::Gui);
    assert!(slot.try_claim(Focus::Camera));
    assert_eq!(slot.current, Focus::Camera);
}

#[test]
fn gui_hover_claim_rejected_while_transform_holds() {
    let mut slot = FocusSlot::new();
    assert!(slot.try_claim(Focus::Transform));
    slot.gui_hover(true);
    assert_eq!(slot.current, Focus::Transform);
    // Once Transform releases, the hover claim goes through.
    slot.release(Focus::Transform);
    slot.gui_hover(true);
    assert_eq!(slot.current, Focus::Gui);
}

#[test]
fn gui_hover_releases_only_its_own_claim() {
    let mut slot = FocusSlot::new();
    slot.gui_hover(true);
    assert_eq!(slot.current, Focus::Gui);
    slot.gui_hover(false);
    assert_eq!(slot.current, Focus::Idle);
    // Leaving the panels must not clear another consumer's claim.
    assert!(slot.try_claim(Focus::Camera));
    slot.gui_hover(false);
    assert_eq!(slot.current, Focus::Camera);
}

#[test]
fn release_ignores_a_claim_held_by_another_consumer() {
    let mut slot = FocusSlot::new();
    assert!(slot.try_claim(Focus::QuickSearch));
    assert!(!slot.release(Focus::Transform));
    assert_eq!(slot.current, Focus::QuickSearch);
    assert!(slot.release(Focus::QuickSearch));
    assert_eq!(slot.current, Focus::Idle);
}

#[test]
fn idempotent_reclaim_is_granted() {
    let mut slot = FocusSlot::new();
    assert!(slot.try_claim(Focus::Transform));
    assert!(slot.try_claim(Focus::Transform));
    assert_eq!(slot.current, Focus::Transform);
}
