//! The draggable side: configuring a drag source and deciding what its
//! `dragstart` and `dragend` handlers do.

use crate::action::acts_view;
use crate::action::element_step;
use crate::action::element_steps;
use crate::action::lemma_element_steps_one;
use crate::action::lemma_element_steps_snoc;
use crate::action::lemma_transfer_steps_one;
use crate::action::lemma_transfer_steps_snoc;
use crate::action::transfer_step;
use crate::action::transfer_steps;
use crate::action::ActionView;
use crate::action::DomAction;
use crate::effect::effect_js;
use crate::effect::DropEffect;
use crate::element::ElementView;
use crate::transfer::data_key;
use crate::transfer::FromTransfer;
use crate::transfer::TransferView;
use crate::transfer::DATA_KEY;
use vstd::prelude::*;

verus! {

/// What a draggable element has been configured with.
pub struct DraggableConfig {
    /// The payload written under the payload key when a drag starts.
    pub payload: Option<Seq<char>>,
    /// Whether a custom writer runs against the transfer when a drag starts.
    pub custom_writer: bool,
    /// The class the element carries while it is being dragged.
    pub dragging_class: Seq<char>,
    /// The drop effect the drag source allows.
    pub allowed_effect: DropEffect,
    /// The x/y offset of the configured drag image, if any.
    pub image_offset: Option<(int, int)>,
}

/// The builder used to configure a draggable element.
pub struct DraggableBuilder {
    payload: Option<String>,
    custom_writer: bool,
    dragging_class: String,
    allowed_effect: DropEffect,
    image_offset: Option<(i32, i32)>,
}

impl View for DraggableBuilder {
    type V = DraggableConfig;

    closed spec fn view(&self) -> DraggableConfig {
        DraggableConfig {
            payload: match self.payload {
                Some(p) => Some(p@),
                None => None,
            },
            custom_writer: self.custom_writer,
            dragging_class: self.dragging_class@,
            allowed_effect: self.allowed_effect,
            image_offset: match self.image_offset {
                Some(xy) => Some((xy.0 as int, xy.1 as int)),
                None => None,
            },
        }
    }
}

/// Starts configuring a draggable element: no payload, no custom writer, no
/// dragging class, every effect allowed, no drag image.
pub fn create_draggable() -> (r: DraggableBuilder)
    ensures
        r@ == (DraggableConfig {
            payload: None,
            custom_writer: false,
            dragging_class: Seq::<char>::empty(),
            allowed_effect: DropEffect::All,
            image_offset: None,
        }),
{
    DraggableBuilder::new()
}

impl DraggableBuilder {
    fn new() -> (r: Self)
        ensures
            r@ == (DraggableConfig {
                payload: None,
                custom_writer: false,
                dragging_class: Seq::<char>::empty(),
                allowed_effect: DropEffect::All,
                image_offset: None,
            }),
    {
        DraggableBuilder {
            payload: None,
            custom_writer: false,
            dragging_class: String::new(),
            allowed_effect: DropEffect::default(),
            image_offset: None,
        }
    }

    /// Sets the payload that gets written into the transfer object when a
    /// drag starts.
    pub fn data(self, payload: String) -> (r: Self)
        ensures
            r@ == (DraggableConfig { payload: Some(payload@), ..self@ }),
    {
        DraggableBuilder { payload: Some(payload), ..self }
    }

    /// Records that a custom writer runs against the transfer object every
    /// time a drag starts; the host holds the writer itself.
    pub fn set_data(self) -> (r: Self)
        ensures
            r@ == (DraggableConfig { custom_writer: true, ..self@ }),
    {
        DraggableBuilder { custom_writer: true, ..self }
    }

    /// Sets the class added while the element is being dragged; it is
    /// removed again when the drag ends.
    pub fn dragging_class(self, class: String) -> (r: Self)
        ensures
            r@ == (DraggableConfig { dragging_class: class@, ..self@ }),
    {
        DraggableBuilder { dragging_class: class, ..self }
    }

    /// Sets the drop effect allowed when dropping the element.
    pub fn allowed_effect(self, effect: DropEffect) -> (r: Self)
        ensures
            r@ == (DraggableConfig { allowed_effect: effect, ..self@ }),
    {
        DraggableBuilder { allowed_effect: effect, ..self }
    }

    /// Sets the offset at which the configured drag image is anchored; the
    /// host holds the image element itself.
    pub fn drag_image(self, x_offset: i32, y_offset: i32) -> (r: Self)
        ensures
            r@ == (DraggableConfig {
                image_offset: Some((x_offset as int, y_offset as int)),
                ..self@
            }),
    {
        DraggableBuilder { image_offset: Some((x_offset, y_offset)), ..self }
    }

    /// The actions that mount a draggable element: mark it draggable.
    pub fn mount_actions(&self) -> (acts: Vec<DomAction>)
        ensures
            acts_view(acts@) == seq![ActionView::SetAttribute("draggable"@, "true"@)],
    {
        let mut acts: Vec<DomAction> = Vec::new();
        acts.push(DomAction::SetAttribute("draggable".to_owned(), "true".to_owned()));
        proof {
            assert(acts_view(acts@) =~~= seq![ActionView::SetAttribute("draggable"@, "true"@)]);
        }
        acts
    }

    /// The actions a `dragstart` handler performs for this configuration.
    pub fn drag_start_actions(&self) -> (acts: Vec<DomAction>)
        ensures
            acts_view(acts@) == spec_drag_start(self@),
    {
        let mut acts: Vec<DomAction> = Vec::new();
        acts.push(DomAction::SetEffectAllowed(self.allowed_effect.as_js().to_owned()));
        if let Some(p) = &self.payload {
            acts.push(DomAction::WriteData(DATA_KEY.to_owned(), p.clone()));
        }
        if self.custom_writer {
            acts.push(DomAction::RunCustomWriter);
        }
        if self.payload.is_none() && !self.custom_writer {
            acts.push(DomAction::WriteData(DATA_KEY.to_owned(), "null".to_owned()));
        }
        if let Some(xy) = self.image_offset {
            acts.push(DomAction::SetDragImage(xy.0, xy.1));
        }
        acts.push(DomAction::AddClass(self.dragging_class.clone()));
        acts.push(DomAction::SetAttribute("data-dragging".to_owned(), "".to_owned()));
        proof {
            assert(acts_view(acts@) =~~= spec_drag_start(self@));
        }
        acts
    }

    /// The actions a `dragend` handler performs for this configuration.
    pub fn drag_end_actions(&self) -> (acts: Vec<DomAction>)
        ensures
            acts_view(acts@) == spec_drag_end(self@),
    {
        let mut acts: Vec<DomAction> = Vec::new();
        acts.push(DomAction::RemoveClass(self.dragging_class.clone()));
        acts.push(DomAction::RemoveAttribute("data-dragging".to_owned()));
        proof {
            assert(acts_view(acts@) =~~= spec_drag_end(self@));
        }
        acts
    }
}

/// The `dragstart` plan: stamp the allowed effect, publish the payload (the
/// configured one, or the empty `null` payload when neither data nor a
/// custom writer was given), anchor the drag image, and mark the element as
/// being dragged.
pub open spec fn spec_drag_start(c: DraggableConfig) -> Seq<ActionView> {
    let s = seq![ActionView::SetEffectAllowed(effect_js(c.allowed_effect))];
    let s = match c.payload {
        Some(p) => s.push(ActionView::WriteData(data_key(), p)),
        None => s,
    };
    let s = if c.custom_writer {
        s.push(ActionView::RunCustomWriter)
    } else {
        s
    };
    let s = if c.payload is None && !c.custom_writer {
        s.push(ActionView::WriteData(data_key(), "null"@))
    } else {
        s
    };
    let s = match c.image_offset {
        Some(xy) => s.push(ActionView::SetDragImage(xy.0, xy.1)),
        None => s,
    };
    s.push(ActionView::AddClass(c.dragging_class)).push(
        ActionView::SetAttribute("data-dragging"@, ""@),
    )
}

/// The `dragend` plan: take the dragging mark off the element again.
pub open spec fn spec_drag_end(c: DraggableConfig) -> Seq<ActionView> {
    seq![
        ActionView::RemoveClass(c.dragging_class),
        ActionView::RemoveAttribute("data-dragging"@),
    ]
}

/// A `dragstart` without a custom writer publishes exactly one entry: the
/// configured payload — or `null` in its place — under the payload key, and
/// stamps the allowed effect onto the transfer.
pub proof fn lemma_drag_start_publishes(c: DraggableConfig, t: TransferView)
    requires
        !c.custom_writer,
    ensures
        transfer_steps(t, spec_drag_start(c)) == (TransferView {
            data: t.data.insert(
                data_key(),
                match c.payload {
                    Some(p) => p,
                    None => "null"@,
                },
            ),
            effect_allowed: effect_js(c.allowed_effect),
        }),
{
    let s0 = seq![ActionView::SetEffectAllowed(effect_js(c.allowed_effect))];
    let s1 = match c.payload {
        Some(p) => s0.push(ActionView::WriteData(data_key(), p)),
        None => s0,
    };
    let s2 = if c.payload is None {
        s1.push(ActionView::WriteData(data_key(), "null"@))
    } else {
        s1
    };
    let s3 = match c.image_offset {
        Some(xy) => s2.push(ActionView::SetDragImage(xy.0, xy.1)),
        None => s2,
    };
    let s4 = s3.push(ActionView::AddClass(c.dragging_class));
    let s5 = s4.push(ActionView::SetAttribute("data-dragging"@, ""@));
    assert(spec_drag_start(c) == s5);
    lemma_transfer_steps_one(t, ActionView::SetEffectAllowed(effect_js(c.allowed_effect)));
    match c.payload {
        Some(p) => {
            lemma_transfer_steps_snoc(t, s0, ActionView::WriteData(data_key(), p));
        },
        None => {
            lemma_transfer_steps_snoc(t, s1, ActionView::WriteData(data_key(), "null"@));
        },
    }
    match c.image_offset {
        Some(xy) => {
            lemma_transfer_steps_snoc(t, s2, ActionView::SetDragImage(xy.0, xy.1));
        },
        None => {
        },
    }
    lemma_transfer_steps_snoc(t, s3, ActionView::AddClass(c.dragging_class));
    lemma_transfer_steps_snoc(t, s4, ActionView::SetAttribute("data-dragging"@, ""@));
}

/// The payload a `dragstart` publishes is exactly what the droppable side
/// reads back: after the plan runs against a transfer, a string payload is
/// readable, and it is the configured payload — or `null` where none was
/// configured.
pub proof fn lemma_payload_round_trip(c: DraggableConfig, t: TransferView)
    requires
        !c.custom_writer,
    ensures
        ({
            let t1 = transfer_steps(t, spec_drag_start(c));
            &&& <String as FromTransfer>::readable(t1)
            &&& t1.data[data_key()] == (match c.payload {
                Some(p) => p,
                None => "null"@,
            })
        }),
{
    lemma_drag_start_publishes(c, t);
}

/// A full drag cycle leaves the element as it was: `dragstart` puts the
/// dragging class and mark on, `dragend` takes both off again.
pub proof fn lemma_drag_cycle_restores_element(c: DraggableConfig, e: ElementView)
    requires
        !e.classes.contains(c.dragging_class),
        !e.attributes.contains_key("data-dragging"@),
    ensures
        element_steps(element_steps(e, spec_drag_start(c)), spec_drag_end(c)) == e,
{
    let e1 = element_steps(e, spec_drag_start(c));
    lemma_drag_start_on_element(c, e);
    let rc = ActionView::RemoveClass(c.dragging_class);
    let ra = ActionView::RemoveAttribute("data-dragging"@);
    assert(spec_drag_end(c) =~= seq![rc].push(ra));
    lemma_element_steps_one(e1, rc);
    lemma_element_steps_snoc(e1, seq![rc], ra);
    let e2 = element_steps(e1, spec_drag_end(c));
    assert(e2 == element_step(element_step(e1, rc), ra));
    assert(e2.classes =~= e.classes);
    assert(e2.attributes =~= e.attributes);
    assert(e2 == (ElementView { classes: e2.classes, attributes: e2.attributes }));
    assert(e == (ElementView { classes: e.classes, attributes: e.attributes }));
}

/// What `dragstart` does to the element: it gains the dragging class and
/// the dragging mark, whatever the payload configuration was.
pub proof fn lemma_drag_start_on_element(c: DraggableConfig, e: ElementView)
    ensures
        element_steps(e, spec_drag_start(c)) == (ElementView {
            classes: e.classes.insert(c.dragging_class),
            attributes: e.attributes.insert("data-dragging"@, ""@),
        }),
{
    let s0 = seq![ActionView::SetEffectAllowed(effect_js(c.allowed_effect))];
    let s1 = match c.payload {
        Some(p) => s0.push(ActionView::WriteData(data_key(), p)),
        None => s0,
    };
    let s2 = if c.custom_writer {
        s1.push(ActionView::RunCustomWriter)
    } else {
        s1
    };
    let s3 = if c.payload is None && !c.custom_writer {
        s2.push(ActionView::WriteData(data_key(), "null"@))
    } else {
        s2
    };
    let s4 = match c.image_offset {
        Some(xy) => s3.push(ActionView::SetDragImage(xy.0, xy.1)),
        None => s3,
    };
    let s5 = s4.push(ActionView::AddClass(c.dragging_class));
    let s6 = s5.push(ActionView::SetAttribute("data-dragging"@, ""@));
    assert(spec_drag_start(c) == s6);
    lemma_element_steps_one(e, ActionView::SetEffectAllowed(effect_js(c.allowed_effect)));
    match c.payload {
        Some(p) => {
            lemma_element_steps_snoc(e, s0, ActionView::WriteData(data_key(), p));
        },
        None => {
        },
    }
    if c.custom_writer {
        lemma_element_steps_snoc(e, s1, ActionView::RunCustomWriter);
    }
    if c.payload is None && !c.custom_writer {
        lemma_element_steps_snoc(e, s2, ActionView::WriteData(data_key(), "null"@));
    }
    match c.image_offset {
        Some(xy) => {
            lemma_element_steps_snoc(e, s3, ActionView::SetDragImage(xy.0, xy.1));
        },
        None => {
        },
    }
    assert(element_steps(e, s4) == e);
    lemma_element_steps_snoc(e, s4, ActionView::AddClass(c.dragging_class));
    lemma_element_steps_snoc(e, s5, ActionView::SetAttribute("data-dragging"@, ""@));
}

} // verus!
