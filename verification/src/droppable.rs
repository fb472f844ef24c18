//! The droppable side: configuring a drop zone and deciding what its
//! `dragenter`, `dragleave`, `dragover` and `drop` handlers do.
//!
//! Whether the hovering payload could be read, and what the user's
//! acceptance predicate said about it, is decided outside this library: the
//! host parses the transfer and runs the predicate, then hands the two
//! outcomes in as `parsed` and `verdict`.  `verdict` only matters when a
//! predicate is configured and the payload was read.

use crate::action::acts_view;
use crate::action::element_step;
use crate::action::element_steps;
use crate::action::lemma_element_steps_one;
use crate::action::lemma_element_steps_snoc;
use crate::action::spec_delivers_drop;
use crate::action::spec_prevents_default;
use crate::action::ActionView;
use crate::action::DomAction;
use crate::element::ElementView;
use vstd::prelude::*;

verus! {

/// What a droppable element has been configured with.
pub struct DroppableConfig {
    /// Whether a drop callback is configured.
    pub has_on_drop: bool,
    /// Whether an acceptance predicate is configured.
    pub has_accept: bool,
    /// The class the element carries while an accepted payload hovers.
    pub hovering_class: Seq<char>,
}

/// The builder used to configure a droppable element.
pub struct DroppableBuilder {
    has_on_drop: bool,
    has_accept: bool,
    hovering_class: String,
}

impl View for DroppableBuilder {
    type V = DroppableConfig;

    closed spec fn view(&self) -> DroppableConfig {
        DroppableConfig {
            has_on_drop: self.has_on_drop,
            has_accept: self.has_accept,
            hovering_class: self.hovering_class@,
        }
    }
}

/// Starts configuring a droppable element: no drop callback, no acceptance
/// predicate, no hovering class.
pub fn create_droppable() -> (r: DroppableBuilder)
    ensures
        r@ == (DroppableConfig {
            has_on_drop: false,
            has_accept: false,
            hovering_class: Seq::<char>::empty(),
        }),
{
    DroppableBuilder::new()
}

impl DroppableBuilder {
    fn new() -> (r: Self)
        ensures
            r@ == (DroppableConfig {
                has_on_drop: false,
                has_accept: false,
                hovering_class: Seq::<char>::empty(),
            }),
    {
        DroppableBuilder { has_on_drop: false, has_accept: false, hovering_class: String::new() }
    }

    /// Records that a drop callback is configured; the host holds the
    /// callback itself and runs it when the plan says so.
    pub fn on_drop(self) -> (r: Self)
        ensures
            r@ == (DroppableConfig { has_on_drop: true, ..self@ }),
    {
        DroppableBuilder { has_on_drop: true, ..self }
    }

    /// Records that an acceptance predicate is configured; the host holds
    /// the predicate itself and hands its verdict to the handlers.
    pub fn accept(self) -> (r: Self)
        ensures
            r@ == (DroppableConfig { has_accept: true, ..self@ }),
    {
        DroppableBuilder { has_accept: true, ..self }
    }

    /// Sets the class carried while an accepted payload hovers over the
    /// element; it is removed when the payload leaves or is dropped.
    pub fn hovering_class(self, class: String) -> (r: Self)
        ensures
            r@ == (DroppableConfig { hovering_class: class@, ..self@ }),
    {
        DroppableBuilder { hovering_class: class, ..self }
    }

    /// Whether the hovering payload is accepted: without a predicate
    /// everything is, with one the payload must have been read and the
    /// predicate must have said yes.
    pub fn should_accept(&self, parsed: bool, verdict: bool) -> (r: bool)
        ensures
            r == spec_should_accept(self@, parsed, verdict),
    {
        if self.has_accept {
            parsed && verdict
        } else {
            true
        }
    }

    /// The actions a `dragenter` handler performs.
    pub fn drag_enter_actions(&self, parsed: bool, verdict: bool) -> (acts: Vec<DomAction>)
        ensures
            acts_view(acts@) == spec_drag_enter(self@, parsed, verdict),
    {
        let mut acts: Vec<DomAction> = Vec::new();
        acts.push(DomAction::PreventDefault);
        if self.should_accept(parsed, verdict) {
            acts.push(DomAction::AddClass(self.hovering_class.clone()));
        }
        proof {
            assert(acts_view(acts@) =~~= spec_drag_enter(self@, parsed, verdict));
        }
        acts
    }

    /// The actions a `dragleave` handler performs.
    pub fn drag_leave_actions(&self) -> (acts: Vec<DomAction>)
        ensures
            acts_view(acts@) == spec_drag_leave(self@),
    {
        let mut acts: Vec<DomAction> = Vec::new();
        acts.push(DomAction::PreventDefault);
        acts.push(DomAction::RemoveClass(self.hovering_class.clone()));
        proof {
            assert(acts_view(acts@) =~~= spec_drag_leave(self@));
        }
        acts
    }

    /// The actions a `dragover` handler performs: the browser only allows a
    /// drop where the default is prevented, so the plan prevents it exactly
    /// for an accepted payload.
    pub fn drag_over_actions(&self, parsed: bool, verdict: bool) -> (acts: Vec<DomAction>)
        ensures
            acts_view(acts@) == spec_drag_over(self@, parsed, verdict),
    {
        let mut acts: Vec<DomAction> = Vec::new();
        if self.should_accept(parsed, verdict) {
            acts.push(DomAction::PreventDefault);
        }
        proof {
            assert(acts_view(acts@) =~~= spec_drag_over(self@, parsed, verdict));
        }
        acts
    }

    /// The actions a `drop` handler performs: the hovering class comes off,
    /// and the payload is delivered to the drop callback exactly when one is
    /// configured, the payload was read, and no configured predicate said
    /// no.
    pub fn drop_actions(&self, parsed: bool, verdict: bool) -> (acts: Vec<DomAction>)
        ensures
            acts_view(acts@) == spec_drop(self@, parsed, verdict),
    {
        let mut acts: Vec<DomAction> = Vec::new();
        acts.push(DomAction::RemoveClass(self.hovering_class.clone()));
        if self.has_on_drop && parsed && (!self.has_accept || verdict) {
            acts.push(DomAction::PreventDefault);
            acts.push(DomAction::InvokeOnDrop);
        }
        proof {
            assert(acts_view(acts@) =~~= spec_drop(self@, parsed, verdict));
        }
        acts
    }
}

/// Whether the droppable element accepts the hovering payload.
pub open spec fn spec_should_accept(c: DroppableConfig, parsed: bool, verdict: bool) -> bool {
    if c.has_accept {
        parsed && verdict
    } else {
        true
    }
}

/// Whether a drop delivers the payload to the drop callback.
pub open spec fn spec_delivers_payload(c: DroppableConfig, parsed: bool, verdict: bool) -> bool {
    c.has_on_drop && parsed && (!c.has_accept || verdict)
}

/// The `dragenter` plan: prevent the default, and mark the element as
/// hovered over exactly when the payload is accepted.
pub open spec fn spec_drag_enter(c: DroppableConfig, parsed: bool, verdict: bool) -> Seq<
    ActionView,
> {
    if spec_should_accept(c, parsed, verdict) {
        seq![ActionView::PreventDefault, ActionView::AddClass(c.hovering_class)]
    } else {
        seq![ActionView::PreventDefault]
    }
}

/// The `dragleave` plan: prevent the default and take the hovering mark off.
pub open spec fn spec_drag_leave(c: DroppableConfig) -> Seq<ActionView> {
    seq![ActionView::PreventDefault, ActionView::RemoveClass(c.hovering_class)]
}

/// The `dragover` plan: prevent the default exactly when the payload is
/// accepted.
pub open spec fn spec_drag_over(c: DroppableConfig, parsed: bool, verdict: bool) -> Seq<
    ActionView,
> {
    if spec_should_accept(c, parsed, verdict) {
        seq![ActionView::PreventDefault]
    } else {
        Seq::<ActionView>::empty()
    }
}

/// The `drop` plan: take the hovering mark off, and deliver the payload
/// when it is owed.
pub open spec fn spec_drop(c: DroppableConfig, parsed: bool, verdict: bool) -> Seq<ActionView> {
    if spec_delivers_payload(c, parsed, verdict) {
        seq![
            ActionView::RemoveClass(c.hovering_class),
            ActionView::PreventDefault,
            ActionView::InvokeOnDrop,
        ]
    } else {
        seq![ActionView::RemoveClass(c.hovering_class)]
    }
}

/// The `dragover` plan prevents the default exactly when the payload is
/// accepted.
pub proof fn lemma_drag_over_prevents_default(c: DroppableConfig, parsed: bool, verdict: bool)
    ensures
        spec_prevents_default(spec_drag_over(c, parsed, verdict)) == spec_should_accept(
            c,
            parsed,
            verdict,
        ),
{
    let s = spec_drag_over(c, parsed, verdict);
    if spec_should_accept(c, parsed, verdict) {
        assert(s[0] == ActionView::PreventDefault);
    }
}

/// The `drop` plan runs the drop callback exactly when a callback is
/// configured, the payload was read, and no configured predicate said no.
pub proof fn lemma_drop_delivery(c: DroppableConfig, parsed: bool, verdict: bool)
    ensures
        spec_delivers_drop(spec_drop(c, parsed, verdict)) == spec_delivers_payload(
            c,
            parsed,
            verdict,
        ),
{
    let s = spec_drop(c, parsed, verdict);
    if spec_delivers_payload(c, parsed, verdict) {
        assert(s[2] == ActionView::InvokeOnDrop);
    } else {
        assert(forall|i: int| 0 <= i < s.len() ==> s[i] == ActionView::RemoveClass(
            c.hovering_class,
        ));
    }
}

/// What `dragenter` does to the element: the hovering class goes on for an
/// accepted payload, and nothing else changes.
pub proof fn lemma_drag_enter_on_element(
    c: DroppableConfig,
    e: ElementView,
    parsed: bool,
    verdict: bool,
)
    ensures
        element_steps(e, spec_drag_enter(c, parsed, verdict)) == (ElementView {
            classes: if spec_should_accept(c, parsed, verdict) {
                e.classes.insert(c.hovering_class)
            } else {
                e.classes
            },
            attributes: e.attributes,
        }),
{
    let pd = ActionView::PreventDefault;
    let ac = ActionView::AddClass(c.hovering_class);
    if spec_should_accept(c, parsed, verdict) {
        assert(spec_drag_enter(c, parsed, verdict) =~= seq![pd].push(ac));
        lemma_element_steps_one(e, pd);
        lemma_element_steps_snoc(e, seq![pd], ac);
    } else {
        lemma_element_steps_one(e, pd);
    }
    let e1 = element_steps(e, spec_drag_enter(c, parsed, verdict));
    assert(e1 == (ElementView { classes: e1.classes, attributes: e1.attributes }));
}

/// What `dragleave` does to the element: the hovering class comes off, and
/// nothing else changes.
pub proof fn lemma_drag_leave_on_element(c: DroppableConfig, e: ElementView)
    ensures
        element_steps(e, spec_drag_leave(c)) == (ElementView {
            classes: e.classes.remove(c.hovering_class),
            attributes: e.attributes,
        }),
{
    let pd = ActionView::PreventDefault;
    let rc = ActionView::RemoveClass(c.hovering_class);
    assert(spec_drag_leave(c) =~= seq![pd].push(rc));
    lemma_element_steps_one(e, pd);
    lemma_element_steps_snoc(e, seq![pd], rc);
    let e1 = element_steps(e, spec_drag_leave(c));
    assert(e1 == (ElementView { classes: e1.classes, attributes: e1.attributes }));
}

/// A hover cycle leaves the element as it was: whatever `dragenter` decided,
/// `dragleave` takes the hovering mark off again.
pub proof fn lemma_hover_cycle_restores_element(
    c: DroppableConfig,
    e: ElementView,
    parsed: bool,
    verdict: bool,
)
    requires
        !e.classes.contains(c.hovering_class),
    ensures
        element_steps(
            element_steps(e, spec_drag_enter(c, parsed, verdict)),
            spec_drag_leave(c),
        ) == e,
{
    lemma_drag_enter_on_element(c, e, parsed, verdict);
    let e1 = element_steps(e, spec_drag_enter(c, parsed, verdict));
    lemma_drag_leave_on_element(c, e1);
    let e2 = element_steps(e1, spec_drag_leave(c));
    assert(e2.classes =~= e.classes);
    assert(e2 == (ElementView { classes: e2.classes, attributes: e2.attributes }));
    assert(e == (ElementView { classes: e.classes, attributes: e.attributes }));
}

/// After a `drop`, the element no longer carries the hovering class,
/// whether or not the payload was delivered.
pub proof fn lemma_drop_clears_hover(
    c: DroppableConfig,
    e: ElementView,
    parsed: bool,
    verdict: bool,
)
    ensures
        element_steps(e, spec_drop(c, parsed, verdict)) == (ElementView {
            classes: e.classes.remove(c.hovering_class),
            attributes: e.attributes,
        }),
{
    let rc = ActionView::RemoveClass(c.hovering_class);
    let pd = ActionView::PreventDefault;
    let io = ActionView::InvokeOnDrop;
    if spec_delivers_payload(c, parsed, verdict) {
        assert(spec_drop(c, parsed, verdict) =~= seq![rc].push(pd).push(io));
        lemma_element_steps_one(e, rc);
        lemma_element_steps_snoc(e, seq![rc], pd);
        lemma_element_steps_snoc(e, seq![rc].push(pd), io);
    } else {
        lemma_element_steps_one(e, rc);
    }
    let e1 = element_steps(e, spec_drop(c, parsed, verdict));
    assert(e1 == (ElementView { classes: e1.classes, attributes: e1.attributes }));
}

} // verus!
