use vstd::prelude::*;

use crate::capability::{weakens_to, Capability};
use crate::registry::Catalog;
use crate::traits::{Any, Display, Error};
use crate::wire::{frame, payload};

verus! {

/// Downcasting bytes held under `selector` to `T` succeeds: the selector is
/// `T`'s own and the bytes read as a `T`.
pub open spec fn downcast_succeeds<T: Any>(selector: u64, value: Seq<u8>) -> bool {
    selector == T::selector_spec() && T::decodable(value)
}

/// An owning erased box: one concrete value, held as its type's selector and
/// its own serialized bytes, seen through one capability interface. The
/// selector is fixed when the value is erased and never changes.
pub struct Box {
    capability: Capability,
    selector: u64,
    value: Vec<u8>,
}

impl Box {
    /// The interface the box is seen through.
    pub closed spec fn capability(&self) -> Capability {
        self.capability
    }

    /// The selector of the concrete type inside.
    pub closed spec fn selector(&self) -> u64 {
        self.selector
    }

    /// The serialized bytes of the concrete value inside.
    pub closed spec fn value(&self) -> Seq<u8> {
        self.value@
    }

    /// A box over bytes already known to be held under `selector`.
    pub(crate) fn from_parts(capability: Capability, selector: u64, value: Vec<u8>) -> (r: Box)
        ensures
            r.capability() == capability,
            r.selector() == selector,
            r.value() == value@,
    {
        Box { capability, selector, value }
    }

    fn erase<T: Any>(t: &T, capability: Capability) -> (r: Box)
        ensures
            r.capability() == capability,
            r.selector() == T::selector_spec(),
            r.value() == t.encoding(),
            T::decodable(r.value()),
    {
        proof {
            T::lemma_decode_encoding(*t);
        }
        Box { capability, selector: T::selector(), value: t.encode_value() }
    }

    /// Erases `t` behind the most general interface.
    pub fn new<T: Any>(t: T) -> (r: Box)
        ensures
            r.capability() == Capability::Introspect,
            r.selector() == T::selector_spec(),
            r.value() == t.encoding(),
            T::decodable(r.value()),
    {
        Box::erase(&t, Capability::Introspect)
    }

    /// Erases `t` behind the displayable interface.
    pub fn new_display<T: Display>(t: T) -> (r: Box)
        ensures
            r.capability() == Capability::Display,
            r.selector() == T::selector_spec(),
            r.value() == t.encoding(),
            T::decodable(r.value()),
    {
        Box::erase(&t, Capability::Display)
    }

    /// Erases `t` behind the debuggable interface.
    pub fn new_debug<T: crate::traits::Debug>(t: T) -> (r: Box)
        ensures
            r.capability() == Capability::Debug,
            r.selector() == T::selector_spec(),
            r.value() == t.encoding(),
            T::decodable(r.value()),
    {
        Box::erase(&t, Capability::Debug)
    }

    /// Erases `t` behind the error-like interface.
    pub fn new_error<T: Error>(t: T) -> (r: Box)
        ensures
            r.capability() == Capability::Error,
            r.selector() == T::selector_spec(),
            r.value() == t.encoding(),
            T::decodable(r.value()),
    {
        Box::erase(&t, Capability::Error)
    }

    /// The interface the box is seen through.
    pub fn interface(&self) -> (r: Capability)
        ensures
            r == self.capability(),
    {
        self.capability
    }

    /// The selector of the concrete type inside.
    pub fn type_selector(&self) -> (r: u64)
        ensures
            r == self.selector(),
    {
        self.selector
    }

    /// The serialized bytes of the concrete value inside.
    pub fn value_bytes(&self) -> (r: &[u8])
        ensures
            r@ == self.value(),
    {
        self.value.as_slice()
    }

    /// Views the box through `to`, where its interface weakens to `to`;
    /// otherwise hands the box back unchanged.
    pub fn weaken(self, to: Capability) -> (r: Result<Box, Box>)
        ensures
            r is Ok <==> weakens_to(self.capability(), to),
            r matches Ok(b) ==> b.capability() == to && b.selector() == self.selector()
                && b.value() == self.value(),
            r matches Err(b) ==> b == self,
    {
        if self.capability.weakens_to(to) {
            Ok(Box { capability: to, selector: self.selector, value: self.value })
        } else {
            Err(self)
        }
    }

    /// Hands the box over as a standard heap box.
    pub fn into_box(self) -> (r: std::boxed::Box<Box>)
        ensures
            *r == self,
    {
        std::boxed::Box::new(self)
    }

    /// Views the box through the most general interface, from which downcast is available.
    pub fn into_any(self) -> (r: Box)
        ensures
            r.capability() == Capability::Introspect,
            r.selector() == self.selector(),
            r.value() == self.value(),
    {
        Box { capability: Capability::Introspect, selector: self.selector, value: self.value }
    }

    /// As `into_any`; a box owns plain data only, so it may move between threads.
    pub fn into_any_send(self) -> (r: Box)
        ensures
            r.capability() == Capability::Introspect,
            r.selector() == self.selector(),
            r.value() == self.value(),
    {
        self.into_any()
    }

    /// As `into_any`; a box owns plain data only, so it may be shared between threads.
    pub fn into_any_sync(self) -> (r: Box)
        ensures
            r.capability() == Capability::Introspect,
            r.selector() == self.selector(),
            r.value() == self.value(),
    {
        self.into_any()
    }

    /// As `into_any`, for a box that is both sent and shared between threads.
    pub fn into_any_send_sync(self) -> (r: Box)
        ensures
            r.capability() == Capability::Introspect,
            r.selector() == self.selector(),
            r.value() == self.value(),
    {
        self.into_any()
    }

    /// The payload of the box: its selector, then the value's bytes.
    pub fn encode(&self) -> (r: Vec<u8>)
        ensures
            r@ == payload(self.selector(), self.value()),
    {
        frame(self.selector, self.value.as_slice())
    }

    /// Recovers the concrete value as a `T`, consuming the box; where the box
    /// holds no `T`, hands it back unchanged.
    pub fn downcast<T: Any>(self) -> (r: Result<T, Box>)
        ensures
            r is Ok <==> downcast_succeeds::<T>(self.selector(), self.value()),
            r matches Ok(v) ==> T::decodes_to(self.value(), v),
            r matches Err(b) ==> b == self,
    {
        if self.selector == T::selector() {
            match T::decode_value(self.value.as_slice()) {
                Some(v) => Ok(v),
                None => Err(self),
            }
        } else {
            Err(self)
        }
    }

    /// Reads the concrete value as a `T` without consuming the box.
    pub fn downcast_ref<T: Any>(&self) -> (r: Option<T>)
        ensures
            r is Some <==> downcast_succeeds::<T>(self.selector(), self.value()),
            r matches Some(v) ==> T::decodes_to(self.value(), v),
    {
        if self.selector == T::selector() {
            T::decode_value(self.value.as_slice())
        } else {
            None
        }
    }

    /// The display text of the value, where the interface offers display:
    /// the catalog `C` formats it by the selector, with no type named here.
    pub fn display<C: Catalog>(&self) -> (r: Option<String>)
        ensures
            r is Some <==> weakens_to(self.capability(), Capability::Display) && C::text_of(
                self.selector(),
                self.value(),
            ) is Some,
            r matches Some(t) ==> C::text_of(self.selector(), self.value()) == Some(t@),
    {
        if self.capability.weakens_to(Capability::Display) {
            C::display(self.selector, self.value.as_slice())
        } else {
            None
        }
    }

    /// The debug text of the value, where the interface offers debug
    /// formatting: the catalog `C` formats it by the selector.
    pub fn debug<C: Catalog>(&self) -> (r: Option<String>)
        ensures
            r is Some <==> weakens_to(self.capability(), Capability::Debug) && C::debug_text_of(
                self.selector(),
                self.value(),
            ) is Some,
            r matches Some(t) ==> C::debug_text_of(self.selector(), self.value()) == Some(t@),
    {
        if self.capability.weakens_to(Capability::Debug) {
            C::debug(self.selector, self.value.as_slice())
        } else {
            None
        }
    }

    /// The error's cause, where the interface is error-like: the catalog `C`
    /// reads it by the selector. `Some(None)` is an error without a cause.
    pub fn source<C: Catalog>(&self) -> (r: Option<Option<String>>)
        ensures
            r is Some <==> self.capability() == Capability::Error && C::source_of(
                self.selector(),
                self.value(),
            ) is Some,
            r matches Some(Some(t)) ==> C::source_of(self.selector(), self.value()) == Some(
                Some(t@),
            ),
            r matches Some(None) ==> C::source_of(self.selector(), self.value()) == Some(
                None::<Seq<char>>,
            ),
    {
        if self.capability == Capability::Error {
            C::source(self.selector, self.value.as_slice())
        } else {
            None
        }
    }
}

} // verus!
