//! Declarative helpers for browser drag-and-drop.
//!
//! The library models the two sides of a drag gesture: a draggable element
//! that stamps a payload and an allowed drop effect onto the browser's
//! transfer object when a drag starts, and a droppable element that decides
//! whether to accept the hovering payload and when to deliver it.  Every
//! decision the event handlers make — which classes and attributes to toggle,
//! what to write into the transfer object, whether a drop is delivered — is
//! computed here as a plain value, so the host glue only has to replay the
//! resulting actions against the real DOM.

pub mod action;
pub mod component;
pub mod drag;
pub mod droppable;
pub mod effect;
pub mod element;
pub mod reorder;
pub mod strmap;
pub mod text;
pub mod transfer;

pub use action::DomAction;
pub use drag::create_draggable;
pub use drag::DraggableBuilder;
pub use droppable::create_droppable;
pub use droppable::DroppableBuilder;
pub use effect::DropEffect;
pub use element::ElementState;
pub use reorder::ContentItem;
pub use transfer::AsTransfer;
pub use transfer::DataTransfer;
pub use transfer::FromTransfer;
pub use transfer::RawTransfer;
