//! A model of the browser's transfer object: the channel that carries a drag
//! payload and the allowed-effect string from a draggable element to a
//! droppable one.

use crate::strmap::StrMap;
use vstd::prelude::*;

verus! {

/// The fixed format key under which a draggable element's payload travels.
pub const DATA_KEY: &'static str = "data/json";

/// The payload key as characters, for contracts.
pub open spec fn data_key() -> Seq<char> {
    "data/json"@
}

/// What a transfer object holds: the format → data store and the
/// `effectAllowed` string.
pub struct TransferView {
    pub data: Map<Seq<char>, Seq<char>>,
    pub effect_allowed: Seq<char>,
}

/// The transfer object's state, as far as this library reads and writes it:
/// a store of data strings keyed by format, and the allowed-effect string a
/// drag source stamps onto it.
pub struct DataTransfer {
    data: StrMap,
    effect_allowed: String,
}

impl View for DataTransfer {
    type V = TransferView;

    closed spec fn view(&self) -> TransferView {
        TransferView { data: self.data@, effect_allowed: self.effect_allowed@ }
    }
}

impl DataTransfer {
    /// The internal store is well formed.
    pub closed spec fn wf(&self) -> bool {
        self.data.wf()
    }

    /// A fresh transfer object: no data, and the browser's initial
    /// `uninitialized` effect.
    pub fn new() -> (r: Self)
        ensures
            r.wf(),
            r@.data == Map::<Seq<char>, Seq<char>>::empty(),
            r@.effect_allowed == "uninitialized"@,
    {
        DataTransfer { data: StrMap::new(), effect_allowed: "uninitialized".to_owned() }
    }

    /// Stores `data` under `format`, replacing whatever that format held.
    pub fn set_data(&mut self, format: &str, data: &str)
        requires
            old(self).wf(),
        ensures
            final(self).wf(),
            final(self)@.data == old(self)@.data.insert(format@, data@),
            final(self)@.effect_allowed == old(self)@.effect_allowed,
    {
        self.data.set(format, data);
    }

    /// Reads the data stored under `format`; `None` when that format holds
    /// nothing.
    pub fn get_data(&self, format: &str) -> (r: Option<String>)
        requires
            self.wf(),
        ensures
            match r {
                Some(v) => self@.data.contains_key(format@) && v@ == self@.data[format@],
                None => !self@.data.contains_key(format@),
            },
    {
        self.data.get(format)
    }

    /// Sets the `effectAllowed` string.
    pub fn set_effect_allowed(&mut self, effect: &str)
        requires
            old(self).wf(),
        ensures
            final(self).wf(),
            final(self)@.data == old(self)@.data,
            final(self)@.effect_allowed == effect@,
    {
        self.effect_allowed = effect.to_owned();
    }

    /// The `effectAllowed` string currently stamped onto the transfer.
    pub fn effect_allowed(&self) -> (r: String)
        ensures
            r@ == self@.effect_allowed,
    {
        self.effect_allowed.clone()
    }
}

impl Clone for DataTransfer {
    /// The copy carries the same data and effect.
    fn clone(&self) -> (r: Self)
        ensures
            r@ == self@,
            r.wf() <==> self.wf(),
    {
        DataTransfer { data: self.data.clone(), effect_allowed: self.effect_allowed.clone() }
    }
}

/// A value that can stamp itself onto a transfer object as the drag payload.
pub trait AsTransfer {
    /// The exact characters this value writes under the payload key.
    spec fn transfer_payload(&self) -> Seq<char>;

    /// Writes the payload under [`DATA_KEY`], leaving the rest of the
    /// transfer as it was.
    fn write_to_transfer(&self, transfer: &mut DataTransfer)
        requires
            old(transfer).wf(),
        ensures
            final(transfer).wf(),
            final(transfer)@.data == old(transfer)@.data.insert(
                data_key(),
                self.transfer_payload(),
            ),
            final(transfer)@.effect_allowed == old(transfer)@.effect_allowed,
    ;
}

/// A string payload travels as its own characters.
impl AsTransfer for String {
    open spec fn transfer_payload(&self) -> Seq<char> {
        self@
    }

    fn write_to_transfer(&self, transfer: &mut DataTransfer) {
        transfer.set_data(DATA_KEY, self.as_str());
    }
}

/// An empty payload: what a draggable element writes when it was given
/// neither data nor a custom writer, so that a droppable element still finds
/// an entry under the payload key.
impl AsTransfer for () {
    open spec fn transfer_payload(&self) -> Seq<char> {
        "null"@
    }

    fn write_to_transfer(&self, transfer: &mut DataTransfer) {
        transfer.set_data(DATA_KEY, "null");
    }
}

/// A value that can be read back out of a transfer object.
pub trait FromTransfer: Sized {
    /// Whether a transfer in state `t` yields a value of this type.
    spec fn readable(t: TransferView) -> bool;

    /// Whether `self` is a value that a read from a transfer in state `t`
    /// returns.
    spec fn read_from(&self, t: TransferView) -> bool;

    /// Reads a value out of the transfer; `None` exactly when the transfer
    /// does not hold one.
    fn from_transfer(transfer: &DataTransfer) -> (r: Option<Self>)
        requires
            transfer.wf(),
        ensures
            r is Some <==> Self::readable(transfer@),
            match r {
                Some(v) => v.read_from(transfer@),
                None => true,
            },
    ;
}

/// A string is read back exactly when the payload key holds an entry.
impl FromTransfer for String {
    open spec fn readable(t: TransferView) -> bool {
        t.data.contains_key(data_key())
    }

    open spec fn read_from(&self, t: TransferView) -> bool {
        t.data.contains_key(data_key()) && self@ == t.data[data_key()]
    }

    fn from_transfer(transfer: &DataTransfer) -> (r: Option<Self>) {
        transfer.get_data(DATA_KEY)
    }
}

/// A passthrough that hands the whole transfer object to the drop callback
/// instead of a parsed payload.
pub struct RawTransfer(DataTransfer);

impl View for RawTransfer {
    type V = TransferView;

    closed spec fn view(&self) -> TransferView {
        self.0@
    }
}

impl RawTransfer {
    /// The wrapped store is well formed.
    pub closed spec fn wf(&self) -> bool {
        self.0.wf()
    }

    /// The transfer object this passthrough wraps.
    pub fn transfer(&self) -> (r: &DataTransfer)
        ensures
            r@ == self@,
            r.wf() <==> self.wf(),
    {
        &self.0
    }
}

/// The passthrough always reads: it copies the transfer as it stands.
impl FromTransfer for RawTransfer {
    open spec fn readable(t: TransferView) -> bool {
        true
    }

    open spec fn read_from(&self, t: TransferView) -> bool {
        self@ == t && self.wf()
    }

    fn from_transfer(transfer: &DataTransfer) -> (r: Option<Self>) {
        Some(RawTransfer(transfer.clone()))
    }
}

} // verus!
