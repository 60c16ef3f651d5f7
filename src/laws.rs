use vstd::prelude::*;

use crate::capability::{weakens_to, Capability};
use crate::erased::downcast_succeeds;
use crate::registry::{
    debugs_as, decoding, displays_as, reads_as, sources_as, Catalog, Registry,
};
use crate::traits::{Any, Display, Error};
use crate::wire::{from_le_bytes, lemma_le_round_trip, lemma_split_payload, payload};

verus! {

/// Round trip: a value erased, encoded and decoded in the process that knows
/// its type under the interface used comes back with its selector and bytes,
/// downcasts to its type, and reads back to a value equal to it.
pub proof fn lemma_round_trip<T: Any, C: Catalog>(reg: &Registry<C>, c: Capability, v: T)
    requires
        reads_as::<C, T>(),
        reg.knows(T::selector_spec(), c),
    ensures
        decoding(reg, c, payload(T::selector_spec(), v.encoding())) == Ok::<
            (u64, Seq<u8>),
            crate::registry::DecodeError,
        >((T::selector_spec(), v.encoding())),
        downcast_succeeds::<T>(T::selector_spec(), v.encoding()),
        forall|w: T| #[trigger] T::decodes_to(v.encoding(), w) ==> w@ == v@,
{
    lemma_split_payload(T::selector_spec(), v.encoding());
    T::lemma_decode_encoding(v);
    assert(C::readable(T::selector_spec(), v.encoding()));
}

/// Weakening is lossless: a value known under interface `a` decodes under any
/// weaker interface `b` to the same selector and bytes, so it still downcasts
/// to its type.
pub proof fn lemma_weakening_lossless<T: Any, C: Catalog>(
    reg: &Registry<C>,
    a: Capability,
    b: Capability,
    v: T,
)
    requires
        reads_as::<C, T>(),
        reg.wf(),
        reg.knows(T::selector_spec(), a),
        weakens_to(a, b),
    ensures
        decoding(reg, b, payload(T::selector_spec(), v.encoding())) == Ok::<
            (u64, Seq<u8>),
            crate::registry::DecodeError,
        >((T::selector_spec(), v.encoding())),
        downcast_succeeds::<T>(T::selector_spec(), v.encoding()),
{
    assert(reg.knows(T::selector_spec(), b));
    lemma_round_trip(reg, b, v);
}

/// Downcast exclusivity: bytes of a `T` never downcast to a type `U` with
/// another selector, and still downcast to `T`.
pub proof fn lemma_downcast_exclusive<T: Any, U: Any>(v: T)
    requires
        T::selector_spec() != U::selector_spec(),
    ensures
        !downcast_succeeds::<U>(T::selector_spec(), v.encoding()),
        downcast_succeeds::<T>(T::selector_spec(), v.encoding()),
{
    T::lemma_decode_encoding(v);
}

/// Selector stability: the payloads of two values of one type begin with the
/// same selector, while the value bytes of two different values differ.
pub proof fn lemma_selector_stable<T: Any>(v1: T, v2: T)
    ensures
        v1@ != v2@ ==> v1.encoding() != v2.encoding(),
        payload(T::selector_spec(), v1.encoding()).subrange(0, 8) == payload(
            T::selector_spec(),
            v2.encoding(),
        ).subrange(0, 8),
        from_le_bytes(payload(T::selector_spec(), v1.encoding())) == from_le_bytes(
            payload(T::selector_spec(), v2.encoding()),
        ),
{
    T::lemma_decode_encoding(v1);
    T::lemma_decode_encoding(v2);
    lemma_le_round_trip(T::selector_spec(), v1.encoding());
    lemma_le_round_trip(T::selector_spec(), v2.encoding());
    assert(payload(T::selector_spec(), v1.encoding()).subrange(0, 8) =~= payload(
        T::selector_spec(),
        v2.encoding(),
    ).subrange(0, 8));
}

/// The decoder goes by the selector it reads alone: what it keeps is the
/// selector at the head of the payload and the bytes after it, and those bytes
/// downcast only to the type whose selector that is.
pub proof fn lemma_decoder_uses_read_selector<U: Any, C: Catalog>(
    reg: &Registry<C>,
    c: Capability,
    p: Seq<u8>,
)
    ensures
        decoding(reg, c, p) matches Ok((s, v)) ==> s == from_le_bytes(p) && p == payload(s, v)
            && C::readable(s, v) && (downcast_succeeds::<U>(s, v) ==> U::selector_spec() == s),
{
    if let Ok((s, v)) = decoding(reg, c, p) {
        crate::wire::lemma_bytes_round_trip(p);
        assert(p =~= payload(s, v));
    }
}


/// Display formatting survives the round trip: every value read back from a
/// value's encoding has that value's display text.
pub proof fn lemma_round_trip_display<T: Display>(v: T)
    ensures
        forall|w: T| #[trigger] T::decodes_to(v.encoding(), w) ==> w.text() == v.text(),
{
    T::lemma_decode_encoding(v);
    assert forall|w: T| #[trigger] T::decodes_to(v.encoding(), w) implies w.text()
        == v.text() by {
        T::lemma_text_by_view(w, v);
    }
}

/// Debug formatting survives the round trip: every value read back from a
/// value's encoding has that value's debug text.
pub proof fn lemma_round_trip_debug<T: crate::traits::Debug>(v: T)
    ensures
        forall|w: T| #[trigger]
            T::decodes_to(v.encoding(), w) ==> w.debug_text() == v.debug_text(),
{
    T::lemma_decode_encoding(v);
    assert forall|w: T| #[trigger] T::decodes_to(v.encoding(), w) implies w.debug_text()
        == v.debug_text() by {
        T::lemma_debug_text_by_view(w, v);
    }
}

/// The cause survives the round trip: every error read back from an error's
/// encoding has that error's cause.
pub proof fn lemma_round_trip_source<T: Error>(v: T)
    ensures
        forall|w: T| #[trigger]
            T::decodes_to(v.encoding(), w) ==> w.source_text() == v.source_text(),
{
    T::lemma_decode_encoding(v);
    assert forall|w: T| #[trigger] T::decodes_to(v.encoding(), w) implies w.source_text()
        == v.source_text() by {
        T::lemma_source_text_by_view(w, v);
    }
}

/// A catalog that displays `T` as `T` does gives a value's encoding that
/// value's own display text.
pub proof fn lemma_catalog_display<T: Display, C: Catalog>(v: T)
    requires
        displays_as::<C, T>(),
    ensures
        C::text_of(T::selector_spec(), v.encoding()) == Some(v.text()),
{
    T::lemma_decode_encoding(v);
}

/// A catalog that debugs `T` as `T` does gives a value's encoding that
/// value's own debug text.
pub proof fn lemma_catalog_debug<T: crate::traits::Debug, C: Catalog>(v: T)
    requires
        debugs_as::<C, T>(),
    ensures
        C::debug_text_of(T::selector_spec(), v.encoding()) == Some(v.debug_text()),
{
    T::lemma_decode_encoding(v);
}

/// A catalog that gives `T`'s cause as `T` does gives an error's encoding
/// that error's own cause.
pub proof fn lemma_catalog_source<T: Error, C: Catalog>(v: T)
    requires
        sources_as::<C, T>(),
    ensures
        C::source_of(T::selector_spec(), v.encoding()) == Some(v.source_text()),
{
    T::lemma_decode_encoding(v);
}

} // verus!
