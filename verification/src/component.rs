//! The plans of the two plain components.
//!
//! The `Draggable` and `DropTarget` components do less than the builders:
//! the draggable side stamps the allowed effect, runs its writer and
//! toggles the dragging class, with no fallback payload and no attribute
//! mark; the drop side accepts every drag, hands the raw transfer to its
//! callback, and prevents the default only on `dragover`.  On `drop` the
//! callback runs first and the hovering class comes off afterwards.

use crate::action::acts_view;
use crate::action::element_steps;
use crate::action::lemma_element_steps_one;
use crate::action::lemma_element_steps_snoc;
use crate::action::spec_delivers_drop;
use crate::action::spec_prevents_default;
use crate::action::ActionView;
use crate::action::DomAction;
use crate::effect::effect_js;
use crate::effect::DropEffect;
use crate::element::ElementView;
use vstd::prelude::*;

verus! {

/// The component's `dragstart` plan: stamp the allowed effect, run the
/// writer, and put the dragging class on.
pub open spec fn spec_draggable_start(class: Seq<char>, effect: DropEffect) -> Seq<ActionView> {
    seq![
        ActionView::SetEffectAllowed(effect_js(effect)),
        ActionView::RunCustomWriter,
        ActionView::AddClass(class),
    ]
}

/// The component's `dragend` plan: take the dragging class off again.
pub open spec fn spec_draggable_end(class: Seq<char>) -> Seq<ActionView> {
    seq![ActionView::RemoveClass(class)]
}

/// The actions the `Draggable` component's `dragstart` handler performs.
pub fn draggable_start_actions(class: &str, effect: DropEffect) -> (acts: Vec<DomAction>)
    ensures
        acts_view(acts@) == spec_draggable_start(class@, effect),
{
    let mut acts: Vec<DomAction> = Vec::new();
    acts.push(DomAction::SetEffectAllowed(effect.as_js().to_owned()));
    acts.push(DomAction::RunCustomWriter);
    acts.push(DomAction::AddClass(class.to_owned()));
    proof {
        assert(acts_view(acts@) =~~= spec_draggable_start(class@, effect));
    }
    acts
}

/// The actions the `Draggable` component's `dragend` handler performs.
pub fn draggable_end_actions(class: &str) -> (acts: Vec<DomAction>)
    ensures
        acts_view(acts@) == spec_draggable_end(class@),
{
    let mut acts: Vec<DomAction> = Vec::new();
    acts.push(DomAction::RemoveClass(class.to_owned()));
    proof {
        assert(acts_view(acts@) =~~= spec_draggable_end(class@));
    }
    acts
}

/// The component's `dragenter` plan: every drag is accepted, so the
/// hovering class goes straight on.
pub open spec fn spec_drop_target_enter(class: Seq<char>) -> Seq<ActionView> {
    seq![ActionView::AddClass(class)]
}

/// The component's `dragleave` plan: take the hovering class off.
pub open spec fn spec_drop_target_leave(class: Seq<char>) -> Seq<ActionView> {
    seq![ActionView::RemoveClass(class)]
}

/// The component's `dragover` plan: unconditionally allow the drop.
pub open spec fn spec_drop_target_over() -> Seq<ActionView> {
    seq![ActionView::PreventDefault]
}

/// The component's `drop` plan: hand the raw transfer to the callback where
/// one is configured, and take the hovering class off afterwards.
pub open spec fn spec_drop_target_drop(has_on_drop: bool, class: Seq<char>) -> Seq<ActionView> {
    if has_on_drop {
        seq![ActionView::InvokeOnDrop, ActionView::RemoveClass(class)]
    } else {
        seq![ActionView::RemoveClass(class)]
    }
}

/// The actions the `DropTarget` component's `dragenter` handler performs.
pub fn drop_target_enter_actions(class: &str) -> (acts: Vec<DomAction>)
    ensures
        acts_view(acts@) == spec_drop_target_enter(class@),
{
    let mut acts: Vec<DomAction> = Vec::new();
    acts.push(DomAction::AddClass(class.to_owned()));
    proof {
        assert(acts_view(acts@) =~~= spec_drop_target_enter(class@));
    }
    acts
}

/// The actions the `DropTarget` component's `dragleave` handler performs.
pub fn drop_target_leave_actions(class: &str) -> (acts: Vec<DomAction>)
    ensures
        acts_view(acts@) == spec_drop_target_leave(class@),
{
    let mut acts: Vec<DomAction> = Vec::new();
    acts.push(DomAction::RemoveClass(class.to_owned()));
    proof {
        assert(acts_view(acts@) =~~= spec_drop_target_leave(class@));
    }
    acts
}

/// The actions the `DropTarget` component's `dragover` handler performs.
pub fn drop_target_over_actions() -> (acts: Vec<DomAction>)
    ensures
        acts_view(acts@) == spec_drop_target_over(),
{
    let mut acts: Vec<DomAction> = Vec::new();
    acts.push(DomAction::PreventDefault);
    proof {
        assert(acts_view(acts@) =~~= spec_drop_target_over());
    }
    acts
}

/// The actions the `DropTarget` component's `drop` handler performs: the
/// delivery, where one happens, precedes the class removal.
pub fn drop_target_drop_actions(has_on_drop: bool, class: &str) -> (acts: Vec<DomAction>)
    ensures
        acts_view(acts@) == spec_drop_target_drop(has_on_drop, class@),
{
    let mut acts: Vec<DomAction> = Vec::new();
    if has_on_drop {
        acts.push(DomAction::InvokeOnDrop);
    }
    acts.push(DomAction::RemoveClass(class.to_owned()));
    proof {
        assert(acts_view(acts@) =~~= spec_drop_target_drop(has_on_drop, class@));
    }
    acts
}

/// The component's `drop` plan delivers exactly when a callback is
/// configured, the delivery comes before anything else, and the default is
/// never prevented.
pub proof fn lemma_drop_target_drop_shape(has_on_drop: bool, class: Seq<char>)
    ensures
        spec_delivers_drop(spec_drop_target_drop(has_on_drop, class)) == has_on_drop,
        !spec_prevents_default(spec_drop_target_drop(has_on_drop, class)),
        has_on_drop ==> spec_drop_target_drop(has_on_drop, class)[0] == ActionView::InvokeOnDrop,
{
    let s = spec_drop_target_drop(has_on_drop, class);
    if has_on_drop {
        assert(s[0] == ActionView::InvokeOnDrop);
        assert(s[1] == ActionView::RemoveClass(class));
    } else {
        assert(s[0] == ActionView::RemoveClass(class));
    }
    assert forall|i: int| 0 <= i < s.len() implies s[i] != ActionView::PreventDefault by {
        if has_on_drop {
            if i == 0 {
                assert(s[i] == ActionView::InvokeOnDrop);
            } else {
                assert(s[i] == ActionView::RemoveClass(class));
            }
        } else {
            assert(s[i] == ActionView::RemoveClass(class));
        }
    }
}

/// A drag cycle through the component restores the element: `dragstart`
/// puts the dragging class on, `dragend` takes it off again.
pub proof fn lemma_draggable_cycle_restores_element(
    class: Seq<char>,
    effect: DropEffect,
    e: ElementView,
)
    requires
        !e.classes.contains(class),
    ensures
        element_steps(
            element_steps(e, spec_draggable_start(class, effect)),
            spec_draggable_end(class),
        ) == e,
{
    let se = ActionView::SetEffectAllowed(effect_js(effect));
    let rw = ActionView::RunCustomWriter;
    let ac = ActionView::AddClass(class);
    assert(spec_draggable_start(class, effect) =~= seq![se].push(rw).push(ac));
    lemma_element_steps_one(e, se);
    lemma_element_steps_snoc(e, seq![se], rw);
    lemma_element_steps_snoc(e, seq![se].push(rw), ac);
    let e1 = element_steps(e, spec_draggable_start(class, effect));
    lemma_element_steps_one(e1, ActionView::RemoveClass(class));
    let e2 = element_steps(e1, spec_draggable_end(class));
    assert(e2.classes =~= e.classes);
    assert(e2 == (ElementView { classes: e2.classes, attributes: e2.attributes }));
    assert(e == (ElementView { classes: e.classes, attributes: e.attributes }));
}

/// A hover cycle through the component restores the element: `dragenter`
/// puts the hovering class on, `dragleave` takes it off again.
pub proof fn lemma_drop_target_cycle_restores_element(class: Seq<char>, e: ElementView)
    requires
        !e.classes.contains(class),
    ensures
        element_steps(
            element_steps(e, spec_drop_target_enter(class)),
            spec_drop_target_leave(class),
        ) == e,
{
    lemma_element_steps_one(e, ActionView::AddClass(class));
    let e1 = element_steps(e, spec_drop_target_enter(class));
    lemma_element_steps_one(e1, ActionView::RemoveClass(class));
    let e2 = element_steps(e1, spec_drop_target_leave(class));
    assert(e2.classes =~= e.classes);
    assert(e2 == (ElementView { classes: e2.classes, attributes: e2.attributes }));
    assert(e == (ElementView { classes: e.classes, attributes: e.attributes }));
}

/// After the component's `drop` plan the element no longer carries the
/// hovering class, and its attributes are untouched.
pub proof fn lemma_drop_target_drop_clears_hover(
    has_on_drop: bool,
    class: Seq<char>,
    e: ElementView,
)
    ensures
        element_steps(e, spec_drop_target_drop(has_on_drop, class)) == (ElementView {
            classes: e.classes.remove(class),
            attributes: e.attributes,
        }),
{
    let io = ActionView::InvokeOnDrop;
    let rc = ActionView::RemoveClass(class);
    if has_on_drop {
        assert(spec_drop_target_drop(has_on_drop, class) =~= seq![io].push(rc));
        lemma_element_steps_one(e, io);
        lemma_element_steps_snoc(e, seq![io], rc);
    } else {
        lemma_element_steps_one(e, rc);
    }
    let e1 = element_steps(e, spec_drop_target_drop(has_on_drop, class));
    assert(e1 == (ElementView { classes: e1.classes, attributes: e1.attributes }));
}

} // verus!
