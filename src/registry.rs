use vstd::prelude::*;

use std::marker::PhantomData;

use crate::capability::{weakens_to, Capability};
use crate::erased::Box;
use crate::traits::{debug_of, decimal, Any, Display, Error, STRING_SELECTOR, U64_SELECTOR};
use crate::wire::from_le_bytes;
use vstd::utf8::decode_utf8;
use crate::wire::{read_u64, split_payload, SELECTOR_LEN};

verus! {

/// Why a payload could not be rebuilt into a box.
#[derive(Clone, Copy, Debug, PartialEq, Eq, Structural)]
pub enum DecodeError {
    /// The selector names no type known under the requested interface in this process.
    SelectorMismatch,
    /// The payload is too short to hold a selector, or its value bytes do not
    /// read as a value of the type its selector names.
    PayloadCorrupt,
}

/// The concrete types a program can rebuild, one reading routine per type:
/// given a selector, it runs the reader of the type that selector names.
pub trait Catalog {
    /// `bytes` read as a value of the type that `selector` names.
    spec fn readable(selector: u64, bytes: Seq<u8>) -> bool;

    /// The display text of the value `bytes` hold under `selector`, where
    /// its type is displayable and the bytes read.
    spec fn text_of(selector: u64, bytes: Seq<u8>) -> Option<Seq<char>>;

    /// The debug text of the value `bytes` hold under `selector`, where its
    /// type is debuggable and the bytes read.
    spec fn debug_text_of(selector: u64, bytes: Seq<u8>) -> Option<Seq<char>>;

    /// The cause text of the error `bytes` hold under `selector`, where its
    /// type is error-like and the bytes read.
    spec fn source_of(selector: u64, bytes: Seq<u8>) -> Option<Option<Seq<char>>>;

    /// Runs the reader of the type that `selector` names on `bytes`.
    fn check(selector: u64, bytes: &[u8]) -> (r: bool)
        ensures
            r == Self::readable(selector, bytes@),
    ;

    /// Reads the value and formats it for display.
    fn display(selector: u64, bytes: &[u8]) -> (r: Option<String>)
        ensures
            r is Some <==> Self::text_of(selector, bytes@) is Some,
            r matches Some(t) ==> Self::text_of(selector, bytes@) == Some(t@),
    ;

    /// Reads the value and formats it for debugging.
    fn debug(selector: u64, bytes: &[u8]) -> (r: Option<String>)
        ensures
            r is Some <==> Self::debug_text_of(selector, bytes@) is Some,
            r matches Some(t) ==> Self::debug_text_of(selector, bytes@) == Some(t@),
    ;

    /// Reads the error and gives its cause.
    fn source(selector: u64, bytes: &[u8]) -> (r: Option<Option<String>>)
        ensures
            r is Some <==> Self::source_of(selector, bytes@) is Some,
            r matches Some(Some(t)) ==> Self::source_of(selector, bytes@) == Some(
                Some(t@),
            ),
            r matches Some(None) ==> Self::source_of(selector, bytes@) == Some(
                None::<Seq<char>>,
            ),
    ;
}

/// `C` reads `T`'s selector with `T`'s own reader.
pub open spec fn reads_as<C: Catalog, T: Any>() -> bool {
    forall|b: Seq<u8>| #[trigger] C::readable(T::selector_spec(), b) == T::decodable(b)
}

/// `C` formats what it reads under `T`'s selector with `T`'s own display text.
pub open spec fn displays_as<C: Catalog, T: Display>() -> bool {
    forall|b: Seq<u8>, v: T| #[trigger]
        T::decodes_to(b, v) ==> C::text_of(T::selector_spec(), b) == Some(v.text())
}

/// `C` formats what it reads under `T`'s selector with `T`'s own debug text.
pub open spec fn debugs_as<C: Catalog, T: crate::traits::Debug>() -> bool {
    forall|b: Seq<u8>, v: T| #[trigger]
        T::decodes_to(b, v) ==> C::debug_text_of(T::selector_spec(), b) == Some(v.debug_text())
}

/// `C` gives what it reads under `T`'s selector `T`'s own cause.
pub open spec fn sources_as<C: Catalog, T: Error>() -> bool {
    forall|b: Seq<u8>, v: T| #[trigger]
        T::decodes_to(b, v) ==> C::source_of(T::selector_spec(), b) == Some(v.source_text())
}

/// The catalog of the types this library serializes itself: `u64` and `String`.
pub struct Builtin;

impl Catalog for Builtin {
    open spec fn readable(selector: u64, bytes: Seq<u8>) -> bool {
        (selector == U64_SELECTOR && <u64 as Any>::decodable(bytes)) || (selector
            == STRING_SELECTOR && <String as Any>::decodable(bytes))
    }

    open spec fn text_of(selector: u64, bytes: Seq<u8>) -> Option<Seq<char>> {
        if selector == U64_SELECTOR && <u64 as Any>::decodable(bytes) {
            Some(decimal(from_le_bytes(bytes) as nat))
        } else if selector == STRING_SELECTOR && <String as Any>::decodable(bytes) {
            Some(decode_utf8(bytes))
        } else {
            None
        }
    }

    open spec fn debug_text_of(selector: u64, bytes: Seq<u8>) -> Option<Seq<char>> {
        if selector == U64_SELECTOR && <u64 as Any>::decodable(bytes) {
            Some(decimal(from_le_bytes(bytes) as nat))
        } else if selector == STRING_SELECTOR && <String as Any>::decodable(bytes) {
            Some(debug_of(decode_utf8(bytes)))
        } else {
            None
        }
    }

    open spec fn source_of(selector: u64, bytes: Seq<u8>) -> Option<Option<Seq<char>>> {
        if Self::readable(selector, bytes) {
            Some(None)
        } else {
            None
        }
    }

    fn check(selector: u64, bytes: &[u8]) -> (r: bool) {
        if selector == U64_SELECTOR {
            match <u64 as Any>::decode_value(bytes) {
                Some(_) => true,
                None => false,
            }
        } else if selector == STRING_SELECTOR {
            match <String as Any>::decode_value(bytes) {
                Some(_) => true,
                None => false,
            }
        } else {
            false
        }
    }

    fn display(selector: u64, bytes: &[u8]) -> (r: Option<String>) {
        if selector == U64_SELECTOR {
            match <u64 as Any>::decode_value(bytes) {
                Some(v) => Some(v.display()),
                None => None,
            }
        } else if selector == STRING_SELECTOR {
            match <String as Any>::decode_value(bytes) {
                Some(v) => Some(v.display()),
                None => None,
            }
        } else {
            None
        }
    }

    fn debug(selector: u64, bytes: &[u8]) -> (r: Option<String>) {
        if selector == U64_SELECTOR {
            match <u64 as Any>::decode_value(bytes) {
                Some(v) => Some(crate::traits::Debug::debug(&v)),
                None => None,
            }
        } else if selector == STRING_SELECTOR {
            match <String as Any>::decode_value(bytes) {
                Some(v) => Some(crate::traits::Debug::debug(&v)),
                None => None,
            }
        } else {
            None
        }
    }

    fn source(selector: u64, bytes: &[u8]) -> (r: Option<Option<String>>) {
        if selector == U64_SELECTOR {
            match <u64 as Any>::decode_value(bytes) {
                Some(v) => Some(Error::source(&v)),
                None => None,
            }
        } else if selector == STRING_SELECTOR {
            match <String as Any>::decode_value(bytes) {
                Some(v) => Some(Error::source(&v)),
                None => None,
            }
        } else {
            None
        }
    }
}

/// The built-in catalog serves `u64` and `String` with their own reader,
/// display, debug and cause.
pub proof fn lemma_builtin_serves()
    ensures
        reads_as::<Builtin, u64>(),
        reads_as::<Builtin, String>(),
        displays_as::<Builtin, u64>(),
        displays_as::<Builtin, String>(),
        debugs_as::<Builtin, u64>(),
        debugs_as::<Builtin, String>(),
        sources_as::<Builtin, u64>(),
        sources_as::<Builtin, String>(),
{
}

/// The types this process can rebuild: each selector with the interfaces it
/// was registered under, read through the catalog `C`. Filled once at start,
/// read-only afterwards.
pub struct Registry<C: Catalog> {
    entries: Vec<(u64, Capability)>,
    catalog: PhantomData<C>,
}

/// What decoding payload `p` under interface `c` gives: the selector read from
/// its head and the value bytes after it, or the error.
pub open spec fn decoding<C: Catalog>(reg: &Registry<C>, c: Capability, p: Seq<u8>) -> Result<
    (u64, Seq<u8>),
    DecodeError,
> {
    match split_payload(p) {
        None => Err(DecodeError::PayloadCorrupt),
        Some((s, v)) => if !reg.knows(s, c) {
            Err(DecodeError::SelectorMismatch)
        } else if !C::readable(s, v) {
            Err(DecodeError::PayloadCorrupt)
        } else {
            Ok((s, v))
        },
    }
}

impl<C: Catalog> Registry<C> {
    /// `selector` is known under interface `c`.
    pub closed spec fn knows(&self, selector: u64, c: Capability) -> bool {
        self.entries@.contains((selector, c))
    }

    /// A selector known under an interface is known under every weaker one.
    pub open spec fn wf(&self) -> bool {
        forall|s: u64, a: Capability, b: Capability|
            #![trigger self.knows(s, a), weakens_to(a, b)]
            self.knows(s, a) && weakens_to(a, b) ==> self.knows(s, b)
    }

    /// A registry that knows no type.
    pub fn new() -> (r: Registry<C>)
        ensures
            r.wf(),
            forall|s: u64, c: Capability| !r.knows(s, c),
    {
        Registry { entries: Vec::new(), catalog: PhantomData }
    }

    fn push_entry(&mut self, s: u64, c: Capability)
        ensures
            forall|t: u64, d: Capability|
                #[trigger] final(self).knows(t, d) <==> old(self).knows(t, d) || (t == s && d
                    == c),
    {
        self.entries.push((s, c));
        assert forall|t: u64, d: Capability|
            #[trigger] final(self).knows(t, d) <==> old(self).knows(t, d) || (t == s && d
                == c) by {
            if old(self).knows(t, d) {
                let i = choose|i: int|
                    0 <= i < old(self).entries@.len() && old(self).entries@[i] == (t, d);
                assert(final(self).entries@[i] == (t, d));
            }
            if t == s && d == c {
                assert(final(self).entries@[old(self).entries@.len() as int] == (t, d));
            }
            if final(self).knows(t, d) {
                let i = choose|i: int|
                    0 <= i < final(self).entries@.len() && final(self).entries@[i] == (t, d);
                if i < old(self).entries@.len() {
                    assert(old(self).entries@[i] == (t, d));
                }
            }
        }
    }

    /// Adds `s` under `top` and every interface weaker than `top`.
    fn add_views(&mut self, s: u64, top: Capability)
        requires
            old(self).wf(),
        ensures
            final(self).wf(),
            forall|t: u64, d: Capability|
                #[trigger] final(self).knows(t, d) <==> old(self).knows(t, d) || (t == s
                    && weakens_to(top, d)),
    {
        self.push_entry(s, top);
        if top != Capability::Introspect {
            self.push_entry(s, Capability::Introspect);
        }
        if top == Capability::Error {
            self.push_entry(s, Capability::Display);
            self.push_entry(s, Capability::Debug);
        }
    }

    /// Makes `T` known under the most general interface.
    pub fn register<T: Any>(&mut self)
        requires
            old(self).wf(),
            reads_as::<C, T>(),
        ensures
            final(self).wf(),
            forall|t: u64, d: Capability|
                #[trigger] final(self).knows(t, d) <==> old(self).knows(t, d) || (t
                    == T::selector_spec() && weakens_to(Capability::Introspect, d)),
    {
        let s = T::selector();
        self.add_views(s, Capability::Introspect);
    }

    /// Makes `T` known under the displayable interface and those weaker.
    pub fn register_display<T: Display>(&mut self)
        requires
            old(self).wf(),
            reads_as::<C, T>(),
            displays_as::<C, T>(),
        ensures
            final(self).wf(),
            forall|t: u64, d: Capability|
                #[trigger] final(self).knows(t, d) <==> old(self).knows(t, d) || (t
                    == T::selector_spec() && weakens_to(Capability::Display, d)),
    {
        let s = T::selector();
        self.add_views(s, Capability::Display);
    }

    /// Makes `T` known under the debuggable interface and those weaker.
    pub fn register_debug<T: crate::traits::Debug>(&mut self)
        requires
            old(self).wf(),
            reads_as::<C, T>(),
            debugs_as::<C, T>(),
        ensures
            final(self).wf(),
            forall|t: u64, d: Capability|
                #[trigger] final(self).knows(t, d) <==> old(self).knows(t, d) || (t
                    == T::selector_spec() && weakens_to(Capability::Debug, d)),
    {
        let s = T::selector();
        self.add_views(s, Capability::Debug);
    }

    /// Makes `T` known under the error-like interface and those weaker.
    pub fn register_error<T: Error>(&mut self)
        requires
            old(self).wf(),
            reads_as::<C, T>(),
            displays_as::<C, T>(),
            debugs_as::<C, T>(),
            sources_as::<C, T>(),
        ensures
            final(self).wf(),
            forall|t: u64, d: Capability|
                #[trigger] final(self).knows(t, d) <==> old(self).knows(t, d) || (t
                    == T::selector_spec() && weakens_to(Capability::Error, d)),
    {
        let s = T::selector();
        self.add_views(s, Capability::Error);
    }

    /// Whether `selector` is known under interface `c`.
    pub fn resolves(&self, selector: u64, c: Capability) -> (r: bool)
        ensures
            r == self.knows(selector, c),
    {
        let mut i: usize = 0;
        while i < self.entries.len()
            invariant
                i <= self.entries@.len(),
                forall|j: int| 0 <= j < i ==> self.entries@[j] != (selector, c),
            decreases self.entries@.len() - i,
        {
            let (s, d) = self.entries[i];
            if s == selector && d == c {
                assert(self.entries@[i as int] == (selector, c));
                return true;
            }
            i = i + 1;
        }
        false
    }

    /// Whether every selector known under an interface is known under every
    /// weaker one.
    pub fn is_closed(&self) -> (r: bool)
        ensures
            r == self.wf(),
    {
        let mut i: usize = 0;
        while i < self.entries.len()
            invariant
                i <= self.entries@.len(),
                forall|j: int, b: Capability|
                    0 <= j < i && #[trigger] weakens_to(self.entries@[j].1, b) ==> self.knows(
                        self.entries@[j].0,
                        b,
                    ),
            decreases self.entries@.len() - i,
        {
            let (s, a) = self.entries[i];
            assert(self.knows(s, a)) by {
                assert(self.entries@[i as int] == (s, a));
            }
            if a.weakens_to(Capability::Introspect) && !self.resolves(s, Capability::Introspect) {
                return false;
            }
            if a.weakens_to(Capability::Display) && !self.resolves(s, Capability::Display) {
                return false;
            }
            if a.weakens_to(Capability::Debug) && !self.resolves(s, Capability::Debug) {
                return false;
            }
            if a.weakens_to(Capability::Error) && !self.resolves(s, Capability::Error) {
                return false;
            }
            assert forall|b: Capability| weakens_to(a, b) implies self.knows(s, b) by {
                match b {
                    Capability::Introspect => {},
                    Capability::Display => {},
                    Capability::Debug => {},
                    Capability::Error => {},
                }
            }
            i = i + 1;
        }
        assert forall|s: u64, a: Capability, b: Capability|
            self.knows(s, a) && weakens_to(a, b) implies self.knows(s, b) by {
            let j = choose|j: int| 0 <= j < self.entries@.len() && self.entries@[j] == (s, a);
            assert(weakens_to(self.entries@[j].1, b));
        }
        true
    }

    /// Rebuilds a box under interface `c` from a payload: reads the selector,
    /// looks it up, runs the reader of its type on the value bytes after it,
    /// and keeps those bytes.
    pub fn decode(&self, c: Capability, p: &[u8]) -> (r: Result<Box, DecodeError>)
        ensures
            match (r, decoding(self, c, p@)) {
                (Ok(b), Ok((s, v))) => b.capability() == c && b.selector() == s && b.value()
                    == v,
                (Err(e), Err(f)) => e == f,
                _ => false,
            },
    {
        if p.len() < SELECTOR_LEN {
            return Err(DecodeError::PayloadCorrupt);
        }
        let s = read_u64(p);
        if !self.resolves(s, c) {
            return Err(DecodeError::SelectorMismatch);
        }
        let mut value: Vec<u8> = Vec::new();
        let mut i: usize = SELECTOR_LEN;
        while i < p.len()
            invariant
                SELECTOR_LEN <= i <= p@.len(),
                value@ == p@.subrange(8, i as int),
            decreases p@.len() - i,
        {
            value.push(p[i]);
            i = i + 1;
            assert(p@.subrange(8, i as int) =~= p@.subrange(8, i - 1 as int).push(p@[i - 1]));
        }
        if !C::check(s, value.as_slice()) {
            return Err(DecodeError::PayloadCorrupt);
        }
        Ok(Box::from_parts(c, s, value))
    }
}

impl Registry<Builtin> {
    /// A registry of the built-in types, each under the error-like interface
    /// and every weaker one.
    pub fn builtin() -> (r: Registry<Builtin>)
        ensures
            r.wf(),
            forall|s: u64, c: Capability|
                #[trigger] r.knows(s, c) <==> (s == U64_SELECTOR || s == STRING_SELECTOR),
    {
        proof {
            lemma_builtin_serves();
        }
        let mut r = Registry::new();
        r.register_error::<u64>();
        r.register_error::<String>();
        r
    }
}

} // verus!
