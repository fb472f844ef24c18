//! The drop effect a draggable element allows.

use vstd::prelude::*;

verus! {

/// The set of drop effects a drag source allows, mirroring the values the
/// browser accepts for the transfer object's `effectAllowed` property.
///
/// The browser also knows an `uninitialized` value; it behaves the same as
/// `all`, so the default here is [`DropEffect::All`].
#[derive(Clone, Copy, Debug, PartialEq, Eq, Structural)]
pub enum DropEffect {
    NoDrop,
    Copy,
    CopyLink,
    CopyMove,
    Link,
    LinkMove,
    Move,
    All,
}

/// The exact `effectAllowed` string the browser expects for each effect.
pub open spec fn effect_js(e: DropEffect) -> Seq<char> {
    match e {
        DropEffect::NoDrop => "none"@,
        DropEffect::Copy => "copy"@,
        DropEffect::CopyLink => "copyLink"@,
        DropEffect::CopyMove => "copyMove"@,
        DropEffect::Link => "link"@,
        DropEffect::LinkMove => "linkMove"@,
        DropEffect::Move => "move"@,
        DropEffect::All => "all"@,
    }
}

impl DropEffect {
    /// The name under which the browser knows this effect.
    pub fn as_js(&self) -> (r: &'static str)
        ensures
            r@ == effect_js(*self),
    {
        match self {
            DropEffect::NoDrop => "none",
            DropEffect::Copy => "copy",
            DropEffect::CopyLink => "copyLink",
            DropEffect::CopyMove => "copyMove",
            DropEffect::Link => "link",
            DropEffect::LinkMove => "linkMove",
            DropEffect::Move => "move",
            DropEffect::All => "all",
        }
    }
}

impl Default for DropEffect {
    /// A fresh drag source allows every effect, as the browser's
    /// `uninitialized` state does.
    fn default() -> (r: Self)
        ensures
            r == DropEffect::All,
    {
        DropEffect::All
    }
}

} // verus!
