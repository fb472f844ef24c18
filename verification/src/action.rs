//! The actions a drag-and-drop event handler decides on.
//!
//! Handlers never touch the browser themselves: they return a list of
//! [`DomAction`] values, and the host glue replays the list against the real
//! element, transfer object and event.  The replay semantics on the models
//! — [`transfer_steps`] and [`element_steps`] — is what the handler
//! contracts and the library's round-trip laws are stated over.

use crate::element::ElementState;
use crate::element::ElementView;
use crate::transfer::DataTransfer;
use crate::transfer::TransferView;
use vstd::prelude::*;

verus! {

/// One step a handler asks the host to perform.
#[derive(Debug, PartialEq, Eq)]
pub enum DomAction {
    /// Stamp this `effectAllowed` string onto the transfer object.
    SetEffectAllowed(String),
    /// Store data under a format key in the transfer object.
    WriteData(String, String),
    /// Run the user's custom writer against the transfer object.
    RunCustomWriter,
    /// Show the configured drag image, anchored at this x/y offset.
    SetDragImage(i32, i32),
    /// Put a class onto the element.
    AddClass(String),
    /// Take a class off the element.
    RemoveClass(String),
    /// Bind an attribute of the element.
    SetAttribute(String, String),
    /// Drop an attribute of the element.
    RemoveAttribute(String),
    /// Call `preventDefault` on the event being handled.
    PreventDefault,
    /// Hand the payload read from the transfer to the user's drop callback.
    InvokeOnDrop,
}

/// A [`DomAction`] with its strings taken as character sequences.
pub enum ActionView {
    SetEffectAllowed(Seq<char>),
    WriteData(Seq<char>, Seq<char>),
    RunCustomWriter,
    SetDragImage(int, int),
    AddClass(Seq<char>),
    RemoveClass(Seq<char>),
    SetAttribute(Seq<char>, Seq<char>),
    RemoveAttribute(Seq<char>),
    PreventDefault,
    InvokeOnDrop,
}

impl View for DomAction {
    type V = ActionView;

    open spec fn view(&self) -> ActionView {
        match self {
            DomAction::SetEffectAllowed(e) => ActionView::SetEffectAllowed(e@),
            DomAction::WriteData(k, v) => ActionView::WriteData(k@, v@),
            DomAction::RunCustomWriter => ActionView::RunCustomWriter,
            DomAction::SetDragImage(x, y) => ActionView::SetDragImage(*x as int, *y as int),
            DomAction::AddClass(c) => ActionView::AddClass(c@),
            DomAction::RemoveClass(c) => ActionView::RemoveClass(c@),
            DomAction::SetAttribute(k, v) => ActionView::SetAttribute(k@, v@),
            DomAction::RemoveAttribute(k) => ActionView::RemoveAttribute(k@),
            DomAction::PreventDefault => ActionView::PreventDefault,
            DomAction::InvokeOnDrop => ActionView::InvokeOnDrop,
        }
    }
}

/// The views of a list of actions.
pub open spec fn acts_view(s: Seq<DomAction>) -> Seq<ActionView> {
    s.map_values(|a: DomAction| a@)
}

/// How one action changes the transfer object.  A custom writer's effect is
/// the user's, not the library's, so the model leaves the transfer unchanged
/// for it; actions aimed at the element or the event do so as well.
pub open spec fn transfer_step(t: TransferView, a: ActionView) -> TransferView {
    match a {
        ActionView::SetEffectAllowed(e) => TransferView { data: t.data, effect_allowed: e },
        ActionView::WriteData(k, v) => TransferView {
            data: t.data.insert(k, v),
            effect_allowed: t.effect_allowed,
        },
        _ => t,
    }
}

/// The transfer object after a whole list of actions.
pub open spec fn transfer_steps(t: TransferView, s: Seq<ActionView>) -> TransferView
    decreases s.len(),
{
    if s.len() == 0 {
        t
    } else {
        transfer_steps(transfer_step(t, s[0]), s.drop_first())
    }
}

/// How one action changes the element; actions aimed at the transfer object
/// or the event leave it alone.
pub open spec fn element_step(e: ElementView, a: ActionView) -> ElementView {
    match a {
        ActionView::AddClass(c) => ElementView {
            classes: e.classes.insert(c),
            attributes: e.attributes,
        },
        ActionView::RemoveClass(c) => ElementView {
            classes: e.classes.remove(c),
            attributes: e.attributes,
        },
        ActionView::SetAttribute(k, v) => ElementView {
            classes: e.classes,
            attributes: e.attributes.insert(k, v),
        },
        ActionView::RemoveAttribute(k) => ElementView {
            classes: e.classes,
            attributes: e.attributes.remove(k),
        },
        _ => e,
    }
}

/// The element after a whole list of actions.
pub open spec fn element_steps(e: ElementView, s: Seq<ActionView>) -> ElementView
    decreases s.len(),
{
    if s.len() == 0 {
        e
    } else {
        element_steps(element_step(e, s[0]), s.drop_first())
    }
}

/// Whether the list asks the host to call `preventDefault`.
pub open spec fn spec_prevents_default(s: Seq<ActionView>) -> bool {
    exists|i: int| 0 <= i < s.len() && s[i] == ActionView::PreventDefault
}

/// Whether the list asks the host to run the drop callback.
pub open spec fn spec_delivers_drop(s: Seq<ActionView>) -> bool {
    exists|i: int| 0 <= i < s.len() && s[i] == ActionView::InvokeOnDrop
}

/// A single action steps the transfer once.
pub proof fn lemma_transfer_steps_one(t: TransferView, a: ActionView)
    ensures
        transfer_steps(t, seq![a]) == transfer_step(t, a),
{
    let emp = Seq::<ActionView>::empty();
    assert(seq![a].drop_first() =~= emp);
    assert(seq![a][0] == a);
    assert(transfer_steps(transfer_step(t, a), emp) == transfer_step(t, a));
    assert(transfer_steps(t, seq![a]) == transfer_steps(
        transfer_step(t, seq![a][0]),
        seq![a].drop_first(),
    ));
}

/// A single action steps the element once.
pub proof fn lemma_element_steps_one(e: ElementView, a: ActionView)
    ensures
        element_steps(e, seq![a]) == element_step(e, a),
{
    let emp = Seq::<ActionView>::empty();
    assert(seq![a].drop_first() =~= emp);
    assert(seq![a][0] == a);
    assert(element_steps(element_step(e, a), emp) == element_step(e, a));
    assert(element_steps(e, seq![a]) == element_steps(
        element_step(e, seq![a][0]),
        seq![a].drop_first(),
    ));
}

/// Appending one action steps the transfer once more.
pub proof fn lemma_transfer_steps_snoc(t: TransferView, s: Seq<ActionView>, a: ActionView)
    ensures
        transfer_steps(t, s.push(a)) == transfer_step(transfer_steps(t, s), a),
    decreases s.len(),
{
    if s.len() == 0 {
        assert(s.push(a)[0] == a);
        assert(s.push(a).drop_first() =~= Seq::<ActionView>::empty());
        assert(transfer_steps(t, s.push(a)) == transfer_steps(
            transfer_step(t, a),
            s.push(a).drop_first(),
        ));
        assert(transfer_steps(transfer_step(t, a), Seq::<ActionView>::empty()) == transfer_step(
            t,
            a,
        ));
    } else {
        assert(s.push(a)[0] == s[0]);
        assert(s.push(a).drop_first() =~= s.drop_first().push(a));
        assert(transfer_steps(t, s.push(a)) == transfer_steps(
            transfer_step(t, s[0]),
            s.drop_first().push(a),
        ));
        lemma_transfer_steps_snoc(transfer_step(t, s[0]), s.drop_first(), a);
    }
}

/// Appending one action steps the element once more.
pub proof fn lemma_element_steps_snoc(e: ElementView, s: Seq<ActionView>, a: ActionView)
    ensures
        element_steps(e, s.push(a)) == element_step(element_steps(e, s), a),
    decreases s.len(),
{
    if s.len() == 0 {
        assert(s.push(a)[0] == a);
        assert(s.push(a).drop_first() =~= Seq::<ActionView>::empty());
        assert(element_steps(e, s.push(a)) == element_steps(
            element_step(e, a),
            s.push(a).drop_first(),
        ));
        assert(element_steps(element_step(e, a), Seq::<ActionView>::empty()) == element_step(
            e,
            a,
        ));
    } else {
        assert(s.push(a)[0] == s[0]);
        assert(s.push(a).drop_first() =~= s.drop_first().push(a));
        assert(element_steps(e, s.push(a)) == element_steps(
            element_step(e, s[0]),
            s.drop_first().push(a),
        ));
        lemma_element_steps_snoc(element_step(e, s[0]), s.drop_first(), a);
    }
}

/// Replays one action against the transfer model.
pub fn apply_to_transfer(transfer: &mut DataTransfer, action: &DomAction)
    requires
        old(transfer).wf(),
    ensures
        final(transfer).wf(),
        final(transfer)@ == transfer_step(old(transfer)@, action@),
{
    match action {
        DomAction::SetEffectAllowed(e) => {
            transfer.set_effect_allowed(e.as_str());
        },
        DomAction::WriteData(k, v) => {
            transfer.set_data(k.as_str(), v.as_str());
        },
        _ => {
        },
    }
    proof {
        let t0 = old(transfer)@;
        let t1 = transfer@;
        assert(t1 == TransferView { data: t1.data, effect_allowed: t1.effect_allowed });
        assert(t0 == TransferView { data: t0.data, effect_allowed: t0.effect_allowed });
    }
}

/// Replays a whole list of actions against the transfer model.
pub fn apply_all_to_transfer(transfer: &mut DataTransfer, actions: &Vec<DomAction>)
    requires
        old(transfer).wf(),
    ensures
        final(transfer).wf(),
        final(transfer)@ == transfer_steps(old(transfer)@, acts_view(actions@)),
{
    let n = actions.len();
    proof {
        assert(acts_view(actions@.subrange(0, 0)) =~= Seq::<ActionView>::empty());
    }
    for i in 0..n
        invariant
            n == actions@.len(),
            transfer.wf(),
            transfer@ == transfer_steps(old(transfer)@, acts_view(actions@.subrange(0, i as int))),
    {
        apply_to_transfer(transfer, &actions[i]);
        proof {
            lemma_transfer_steps_snoc(
                old(transfer)@,
                acts_view(actions@.subrange(0, i as int)),
                actions@[i as int]@,
            );
            assert(acts_view(actions@.subrange(0, i as int + 1)) =~= acts_view(
                actions@.subrange(0, i as int),
            ).push(actions@[i as int]@));
        }
    }
    proof {
        assert(actions@.subrange(0, n as int) =~= actions@);
    }
}

/// Replays one action against the element model.
pub fn apply_to_element(element: &mut ElementState, action: &DomAction)
    requires
        old(element).wf(),
    ensures
        final(element).wf(),
        final(element)@ == element_step(old(element)@, action@),
{
    match action {
        DomAction::AddClass(c) => {
            element.add_class(c.as_str());
        },
        DomAction::RemoveClass(c) => {
            element.remove_class(c.as_str());
        },
        DomAction::SetAttribute(k, v) => {
            element.set_attribute(k.as_str(), v.as_str());
        },
        DomAction::RemoveAttribute(k) => {
            element.remove_attribute(k.as_str());
        },
        _ => {
        },
    }
    proof {
        let e0 = old(element)@;
        let e1 = element@;
        assert(e1 == ElementView { classes: e1.classes, attributes: e1.attributes });
        assert(e0 == ElementView { classes: e0.classes, attributes: e0.attributes });
    }
}

/// Replays a whole list of actions against the element model.
pub fn apply_all_to_element(element: &mut ElementState, actions: &Vec<DomAction>)
    requires
        old(element).wf(),
    ensures
        final(element).wf(),
        final(element)@ == element_steps(old(element)@, acts_view(actions@)),
{
    let n = actions.len();
    proof {
        assert(acts_view(actions@.subrange(0, 0)) =~= Seq::<ActionView>::empty());
    }
    for i in 0..n
        invariant
            n == actions@.len(),
            element.wf(),
            element@ == element_steps(old(element)@, acts_view(actions@.subrange(0, i as int))),
    {
        apply_to_element(element, &actions[i]);
        proof {
            lemma_element_steps_snoc(
                old(element)@,
                acts_view(actions@.subrange(0, i as int)),
                actions@[i as int]@,
            );
            assert(acts_view(actions@.subrange(0, i as int + 1)) =~= acts_view(
                actions@.subrange(0, i as int),
            ).push(actions@[i as int]@));
        }
    }
    proof {
        assert(actions@.subrange(0, n as int) =~= actions@);
    }
}

} // verus!
