use sycadrop::action::apply_all_to_element;
use sycadrop::component::draggable_end_actions;
use sycadrop::component::draggable_start_actions;
use sycadrop::component::drop_target_drop_actions;
use sycadrop::component::drop_target_enter_actions;
use sycadrop::component::drop_target_leave_actions;
use sycadrop::component::drop_target_over_actions;
use sycadrop::DomAction;
use sycadrop::DropEffect;
use sycadrop::ElementState;

#[test]
fn component_drag_start_stamps_writes_and_marks() {
    assert_eq!(
        draggable_start_actions("dragging", DropEffect::Move),
        vec![
            DomAction::SetEffectAllowed("move".to_string()),
            DomAction::RunCustomWriter,
            DomAction::AddClass("dragging".to_string()),
        ]
    );
}

#[test]
fn component_drag_end_removes_the_class() {
    assert_eq!(
        draggable_end_actions("dragging"),
        vec![DomAction::RemoveClass("dragging".to_string())]
    );
}

#[test]
fn component_drag_cycle_restores_the_element() {
    let mut e = ElementState::new();
    apply_all_to_element(&mut e, &draggable_start_actions("dragging", DropEffect::All));
    assert!(e.has_class("dragging"));
    apply_all_to_element(&mut e, &draggable_end_actions("dragging"));
    assert!(!e.has_class("dragging"));
    assert_eq!(e.get_attribute("data-dragging"), None);
}

#[test]
fn component_enter_accepts_every_drag() {
    assert_eq!(
        drop_target_enter_actions("drag-over"),
        vec![DomAction::AddClass("drag-over".to_string())]
    );
}

#[test]
fn component_leave_removes_the_hover_class() {
    assert_eq!(
        drop_target_leave_actions("drag-over"),
        vec![DomAction::RemoveClass("drag-over".to_string())]
    );
}

#[test]
fn component_over_always_allows_the_drop() {
    assert_eq!(drop_target_over_actions(), vec![DomAction::PreventDefault]);
}

#[test]
fn component_drop_delivers_before_removing_the_class() {
    assert_eq!(
        drop_target_drop_actions(true, "drag-over"),
        vec![
            DomAction::InvokeOnDrop,
            DomAction::RemoveClass("drag-over".to_string()),
        ]
    );
}

#[test]
fn component_drop_without_callback_only_removes_the_class() {
    assert_eq!(
        drop_target_drop_actions(false, "drag-over"),
        vec![DomAction::RemoveClass("drag-over".to_string())]
    );
}

#[test]
fn component_hover_cycle_restores_the_element() {
    let mut e = ElementState::new();
    apply_all_to_element(&mut e, &drop_target_enter_actions("drag-over"));
    assert!(e.has_class("drag-over"));
    apply_all_to_element(&mut e, &drop_target_leave_actions("drag-over"));
    assert!(!e.has_class("drag-over"));
}

#[test]
fn component_drop_clears_the_hover_class() {
    let mut e = ElementState::new();
    apply_all_to_element(&mut e, &drop_target_enter_actions("drag-over"));
    apply_all_to_element(&mut e, &drop_target_drop_actions(true, "drag-over"));
    assert!(!e.has_class("drag-over"));
}
