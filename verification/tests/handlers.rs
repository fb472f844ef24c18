use sycadrop::action::apply_all_to_element;
use sycadrop::action::apply_all_to_transfer;
use sycadrop::create_draggable;
use sycadrop::create_droppable;
use sycadrop::DataTransfer;
use sycadrop::DomAction;
use sycadrop::DropEffect;
use sycadrop::ElementState;

#[test]
fn mount_marks_the_element_draggable() {
    let b = create_draggable();
    let acts = b.mount_actions();
    assert_eq!(
        acts,
        vec![DomAction::SetAttribute("draggable".to_string(), "true".to_string())]
    );
}

#[test]
fn drag_start_with_data_publishes_it() {
    let b = create_draggable()
        .data("3".to_string())
        .dragging_class("dragging".to_string())
        .allowed_effect(DropEffect::Move);
    let acts = b.drag_start_actions();
    assert_eq!(
        acts,
        vec![
            DomAction::SetEffectAllowed("move".to_string()),
            DomAction::WriteData("data/json".to_string(), "3".to_string()),
            DomAction::AddClass("dragging".to_string()),
            DomAction::SetAttribute("data-dragging".to_string(), "".to_string()),
        ]
    );
}

#[test]
fn drag_start_without_payload_publishes_null() {
    let b = create_draggable().dragging_class("dragging".to_string());
    let acts = b.drag_start_actions();
    assert_eq!(
        acts,
        vec![
            DomAction::SetEffectAllowed("all".to_string()),
            DomAction::WriteData("data/json".to_string(), "null".to_string()),
            DomAction::AddClass("dragging".to_string()),
            DomAction::SetAttribute("data-dragging".to_string(), "".to_string()),
        ]
    );
}

#[test]
fn drag_start_with_custom_writer_runs_it_and_skips_the_fallback() {
    let b = create_draggable().set_data();
    let acts = b.drag_start_actions();
    assert_eq!(
        acts,
        vec![
            DomAction::SetEffectAllowed("all".to_string()),
            DomAction::RunCustomWriter,
            DomAction::AddClass("".to_string()),
            DomAction::SetAttribute("data-dragging".to_string(), "".to_string()),
        ]
    );
}

#[test]
fn drag_start_anchors_the_drag_image() {
    let b = create_draggable().data("1".to_string()).drag_image(5, 7);
    let acts = b.drag_start_actions();
    assert_eq!(
        acts,
        vec![
            DomAction::SetEffectAllowed("all".to_string()),
            DomAction::WriteData("data/json".to_string(), "1".to_string()),
            DomAction::SetDragImage(5, 7),
            DomAction::AddClass("".to_string()),
            DomAction::SetAttribute("data-dragging".to_string(), "".to_string()),
        ]
    );
}

#[test]
fn drag_end_takes_the_dragging_mark_off() {
    let b = create_draggable().dragging_class("dragging".to_string());
    let acts = b.drag_end_actions();
    assert_eq!(
        acts,
        vec![
            DomAction::RemoveClass("dragging".to_string()),
            DomAction::RemoveAttribute("data-dragging".to_string()),
        ]
    );
}

#[test]
fn drag_start_actions_fill_the_transfer() {
    let b = create_draggable()
        .data("42".to_string())
        .allowed_effect(DropEffect::Copy);
    let acts = b.drag_start_actions();
    let mut t = DataTransfer::new();
    apply_all_to_transfer(&mut t, &acts);
    assert_eq!(t.get_data("data/json"), Some("42".to_string()));
    assert_eq!(t.effect_allowed(), "copy".to_string());
}

#[test]
fn drag_cycle_restores_the_element() {
    let b = create_draggable().dragging_class("dragging".to_string());
    let mut e = ElementState::new();
    apply_all_to_element(&mut e, &b.drag_start_actions());
    assert!(e.has_class("dragging"));
    assert_eq!(e.get_attribute("data-dragging"), Some("".to_string()));
    apply_all_to_element(&mut e, &b.drag_end_actions());
    assert!(!e.has_class("dragging"));
    assert_eq!(e.get_attribute("data-dragging"), None);
}

#[test]
fn enter_without_predicate_accepts_everything() {
    let d = create_droppable().hovering_class("drag-over".to_string());
    let acts = d.drag_enter_actions(false, false);
    assert_eq!(
        acts,
        vec![
            DomAction::PreventDefault,
            DomAction::AddClass("drag-over".to_string()),
        ]
    );
}

#[test]
fn enter_with_predicate_needs_a_parsed_payload_and_a_yes() {
    let d = create_droppable().accept().hovering_class("drag-over".to_string());
    assert_eq!(d.drag_enter_actions(false, true), vec![DomAction::PreventDefault]);
    assert_eq!(d.drag_enter_actions(true, false), vec![DomAction::PreventDefault]);
    assert_eq!(
        d.drag_enter_actions(true, true),
        vec![
            DomAction::PreventDefault,
            DomAction::AddClass("drag-over".to_string()),
        ]
    );
}

#[test]
fn leave_takes_the_hovering_mark_off() {
    let d = create_droppable().hovering_class("drag-over".to_string());
    assert_eq!(
        d.drag_leave_actions(),
        vec![
            DomAction::PreventDefault,
            DomAction::RemoveClass("drag-over".to_string()),
        ]
    );
}

#[test]
fn over_prevents_the_default_exactly_for_accepted_payloads() {
    let plain = create_droppable();
    assert_eq!(plain.drag_over_actions(false, false), vec![DomAction::PreventDefault]);
    let picky = create_droppable().accept();
    assert_eq!(picky.drag_over_actions(true, false), Vec::<DomAction>::new());
    assert_eq!(picky.drag_over_actions(true, true), vec![DomAction::PreventDefault]);
}

#[test]
fn drop_delivers_only_with_a_callback_and_a_parsed_payload() {
    let silent = create_droppable().hovering_class("drag-over".to_string());
    assert_eq!(
        silent.drop_actions(true, true),
        vec![DomAction::RemoveClass("drag-over".to_string())]
    );
    let wired = create_droppable().on_drop().hovering_class("drag-over".to_string());
    assert_eq!(
        wired.drop_actions(false, false),
        vec![DomAction::RemoveClass("drag-over".to_string())]
    );
    assert_eq!(
        wired.drop_actions(true, false),
        vec![
            DomAction::RemoveClass("drag-over".to_string()),
            DomAction::PreventDefault,
            DomAction::InvokeOnDrop,
        ]
    );
}

#[test]
fn drop_with_predicate_respects_its_verdict() {
    let d = create_droppable().on_drop().accept();
    assert_eq!(
        d.drop_actions(true, false),
        vec![DomAction::RemoveClass("".to_string())]
    );
    assert_eq!(
        d.drop_actions(true, true),
        vec![
            DomAction::RemoveClass("".to_string()),
            DomAction::PreventDefault,
            DomAction::InvokeOnDrop,
        ]
    );
}

#[test]
fn hover_cycle_restores_the_element() {
    let d = create_droppable().hovering_class("drag-over".to_string());
    let mut e = ElementState::new();
    apply_all_to_element(&mut e, &d.drag_enter_actions(true, true));
    assert!(e.has_class("drag-over"));
    apply_all_to_element(&mut e, &d.drag_leave_actions());
    assert!(!e.has_class("drag-over"));
}

#[test]
fn drop_clears_the_hovering_mark() {
    let d = create_droppable().on_drop().hovering_class("drag-over".to_string());
    let mut e = ElementState::new();
    apply_all_to_element(&mut e, &d.drag_enter_actions(true, true));
    assert!(e.has_class("drag-over"));
    apply_all_to_element(&mut e, &d.drop_actions(true, true));
    assert!(!e.has_class("drag-over"));
}

#[test]
fn published_payload_reaches_the_drop_side() {
    // one full hand-off: the draggable side fills the transfer, the
    // droppable side reads the payload back out of it
    let source = create_draggable().data("{\"id\":1}".to_string());
    let mut t = DataTransfer::new();
    apply_all_to_transfer(&mut t, &source.drag_start_actions());
    let back: Option<String> = sycadrop::FromTransfer::from_transfer(&t);
    assert_eq!(back, Some("{\"id\":1}".to_string()));
}
