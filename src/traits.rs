use vstd::prelude::*;
use vstd::string::StringExecFns;
use vstd::utf8::{decode_utf8, encode_utf8, valid_utf8};

use crate::capability::Capability;
use crate::erased::Box;
use crate::wire::{from_le_bytes, le_bytes, lemma_le_round_trip, read_u64, write_u64};

verus! {

/// A concrete type that can travel erased: it has a selector, fixed for the
/// type, and its own serialized form, which it can read back.
pub trait Any: Sized + View {
    /// The selector of the type: the token that picks its reading routine.
    spec fn selector_spec() -> u64;

    /// The serialized form of a value.
    spec fn encoding(&self) -> Seq<u8>;

    /// Whether `bytes` are the serialized form of some value.
    spec fn decodable(bytes: Seq<u8>) -> bool;

    /// Whether reading `bytes` may give `v`.
    spec fn decodes_to(bytes: Seq<u8>, v: Self) -> bool;

    /// A value's serialized form reads back to it, and only to values with
    /// the same view.
    proof fn lemma_decode_encoding(v: Self)
        ensures
            Self::decodable(v.encoding()),
            Self::decodes_to(v.encoding(), v),
            forall|w: Self| #[trigger] Self::decodes_to(v.encoding(), w) ==> w@ == v@,
    ;

    /// The type's selector.
    fn selector() -> (r: u64)
        ensures
            r == Self::selector_spec(),
    ;

    /// Serializes the value.
    fn encode_value(&self) -> (r: Vec<u8>)
        ensures
            r@ == self.encoding(),
    ;

    /// Reads a value back from its serialized form.
    fn decode_value(bytes: &[u8]) -> (r: Option<Self>)
        ensures
            r is Some <==> Self::decodable(bytes@),
            r matches Some(v) ==> Self::decodes_to(bytes@, v),
    ;

    /// Erases the value behind the most general interface, ready to move
    /// to another thread.
    fn into_any_send(self) -> (r: Box)
        ensures
            r.capability() == Capability::Introspect,
            r.selector() == Self::selector_spec(),
            r.value() == self.encoding(),
    {
        Box::from_parts(Capability::Introspect, Self::selector(), self.encode_value())
    }

    /// Erases the value behind the most general interface, ready to be
    /// shared between threads.
    fn into_any_sync(self) -> (r: Box)
        ensures
            r.capability() == Capability::Introspect,
            r.selector() == Self::selector_spec(),
            r.value() == self.encoding(),
    {
        Box::from_parts(Capability::Introspect, Self::selector(), self.encode_value())
    }

    /// Erases the value behind the most general interface, ready to be sent
    /// and shared between threads.
    fn into_any_send_sync(self) -> (r: Box)
        ensures
            r.capability() == Capability::Introspect,
            r.selector() == Self::selector_spec(),
            r.value() == self.encoding(),
    {
        Box::from_parts(Capability::Introspect, Self::selector(), self.encode_value())
    }
}

/// A type whose values can be formatted for display.
pub trait Display: Any {
    /// The display text of a value.
    spec fn text(&self) -> Seq<char>;

    /// The display text depends on the value's view alone.
    proof fn lemma_text_by_view(a: Self, b: Self)
        requires
            a@ == b@,
        ensures
            a.text() == b.text(),
    ;

    fn display(&self) -> (r: String)
        ensures
            r@ == self.text(),
    ;
}

/// A type whose values can be formatted for debugging.
pub trait Debug: Any {
    /// The debug text of a value.
    spec fn debug_text(&self) -> Seq<char>;

    /// The debug text depends on the value's view alone.
    proof fn lemma_debug_text_by_view(a: Self, b: Self)
        requires
            a@ == b@,
        ensures
            a.debug_text() == b.debug_text(),
    ;

    fn debug(&self) -> (r: String)
        ensures
            r@ == self.debug_text(),
    ;
}

/// An error-like type: displayable and debuggable, with an optional
/// underlying cause.
pub trait Error: Display + Debug {
    /// The display text of the error's cause, if it has one.
    spec fn source_text(&self) -> Option<Seq<char>>;

    /// The cause depends on the value's view alone.
    proof fn lemma_source_text_by_view(a: Self, b: Self)
        requires
            a@ == b@,
        ensures
            a.source_text() == b.source_text(),
    ;

    /// The display text of the error's cause, if it has one.
    fn source(&self) -> (r: Option<String>)
        ensures
            r matches Some(t) ==> self.source_text() == Some(t@),
            r is None ==> self.source_text() is None,
    ;
}

/// Selector of `u64` values.
pub const U64_SELECTOR: u64 = 0x0000_0000_3436_7501;

/// Selector of `String` values.
pub const STRING_SELECTOR: u64 = 0x0067_6e69_7274_7302;

impl Any for u64 {
    open spec fn selector_spec() -> u64 {
        U64_SELECTOR
    }

    open spec fn encoding(&self) -> Seq<u8> {
        le_bytes(*self)
    }

    open spec fn decodable(bytes: Seq<u8>) -> bool {
        bytes.len() == 8
    }

    open spec fn decodes_to(bytes: Seq<u8>, v: u64) -> bool {
        bytes.len() == 8 && v == from_le_bytes(bytes)
    }

    proof fn lemma_decode_encoding(v: u64) {
        lemma_le_round_trip(v, Seq::empty());
    }

    fn selector() -> (r: u64) {
        U64_SELECTOR
    }

    fn encode_value(&self) -> (r: Vec<u8>) {
        let mut out: Vec<u8> = Vec::new();
        write_u64(*self, &mut out);
        assert(out@ =~= le_bytes(*self));
        out
    }

    fn decode_value(bytes: &[u8]) -> (r: Option<u64>) {
        if bytes.len() == 8 {
            Some(read_u64(bytes))
        } else {
            None
        }
    }
}

/// The decimal digits of `n`, most significant first.
pub open spec fn decimal(n: nat) -> Seq<char>
    decreases n,
{
    if n < 10 {
        seq![digit_char(n)]
    } else {
        decimal(n / 10).push(digit_char(n % 10))
    }
}

pub open spec fn digit_char(d: nat) -> char {
    if d == 0 {
        '0'
    } else if d == 1 {
        '1'
    } else if d == 2 {
        '2'
    } else if d == 3 {
        '3'
    } else if d == 4 {
        '4'
    } else if d == 5 {
        '5'
    } else if d == 6 {
        '6'
    } else if d == 7 {
        '7'
    } else if d == 8 {
        '8'
    } else {
        '9'
    }
}

fn digit_str(d: u64) -> (r: &'static str)
    requires
        d < 10,
    ensures
        r@ == seq![digit_char(d as nat)],
{
    if d == 0 {
        proof { reveal_strlit("0"); }
        "0"
    } else if d == 1 {
        proof { reveal_strlit("1"); }
        "1"
    } else if d == 2 {
        proof { reveal_strlit("2"); }
        "2"
    } else if d == 3 {
        proof { reveal_strlit("3"); }
        "3"
    } else if d == 4 {
        proof { reveal_strlit("4"); }
        "4"
    } else if d == 5 {
        proof { reveal_strlit("5"); }
        "5"
    } else if d == 6 {
        proof { reveal_strlit("6"); }
        "6"
    } else if d == 7 {
        proof { reveal_strlit("7"); }
        "7"
    } else if d == 8 {
        proof { reveal_strlit("8"); }
        "8"
    } else {
        proof { reveal_strlit("9"); }
        "9"
    }
}

/// Appends the decimal digits of `n` to `s`.
fn push_decimal(n: u64, s: &mut String)
    ensures
        final(s)@ == old(s)@ + decimal(n as nat),
    decreases n,
{
    if n >= 10 {
        push_decimal(n / 10, s);
    }
    s.append(digit_str(n % 10));
    assert(final(s)@ =~= old(s)@ + decimal(n as nat));
}

/// The decimal text of `n`.
pub fn decimal_string(n: u64) -> (r: String)
    ensures
        r@ == decimal(n as nat),
{
    let mut s = String::new();
    push_decimal(n, &mut s);
    assert(s@ =~= decimal(n as nat));
    s
}

impl Display for u64 {
    open spec fn text(&self) -> Seq<char> {
        decimal(*self as nat)
    }

    proof fn lemma_text_by_view(a: u64, b: u64) {
    }

    fn display(&self) -> (r: String) {
        decimal_string(*self)
    }
}

impl Debug for u64 {
    open spec fn debug_text(&self) -> Seq<char> {
        decimal(*self as nat)
    }

    proof fn lemma_debug_text_by_view(a: u64, b: u64) {
    }

    fn debug(&self) -> (r: String) {
        decimal_string(*self)
    }
}

/// An integer serves as an error code, with no cause.
impl Error for u64 {
    open spec fn source_text(&self) -> Option<Seq<char>> {
        None
    }

    proof fn lemma_source_text_by_view(a: Self, b: Self) {
    }

    fn source(&self) -> (r: Option<String>) {
        None
    }
}

/// Relies on `String::from_utf8`: it succeeds exactly on valid UTF-8, and the
/// string then holds the characters those bytes encode.
#[verifier::external_body]
fn string_from_utf8(bytes: Vec<u8>) -> (r: Option<String>)
    ensures
        r is Some <==> valid_utf8(bytes@),
        r matches Some(s) ==> s@ == decode_utf8(bytes@),
{
    String::from_utf8(bytes).ok()
}

impl Any for String {
    open spec fn selector_spec() -> u64 {
        STRING_SELECTOR
    }

    open spec fn encoding(&self) -> Seq<u8> {
        encode_utf8(self@)
    }

    open spec fn decodable(bytes: Seq<u8>) -> bool {
        valid_utf8(bytes)
    }

    open spec fn decodes_to(bytes: Seq<u8>, v: String) -> bool {
        valid_utf8(bytes) && v@ == decode_utf8(bytes)
    }

    proof fn lemma_decode_encoding(v: String) {
        vstd::utf8::encode_utf8_valid_utf8(v@);
        vstd::utf8::encode_utf8_decode_utf8(v@);
    }

    fn selector() -> (r: u64) {
        STRING_SELECTOR
    }

    fn encode_value(&self) -> (r: Vec<u8>) {
        vstd::slice::slice_to_vec(self.as_str().as_bytes())
    }

    fn decode_value(bytes: &[u8]) -> (r: Option<String>) {
        string_from_utf8(vstd::slice::slice_to_vec(bytes))
    }
}

/// The debug text of a string with characters `s`: std's quoted, escaped form.
pub uninterp spec fn debug_of(s: Seq<char>) -> Seq<char>;

/// Relies on `<str as fmt::Debug>` through `format!("{:?}")`: the quoted,
/// escaped text of a string, which depends on its characters alone.
#[verifier::external_body]
fn debug_string(s: &String) -> (r: String)
    ensures
        r@ == debug_of(s@),
{
    format!("{:?}", s)
}

impl Display for String {
    open spec fn text(&self) -> Seq<char> {
        self@
    }

    proof fn lemma_text_by_view(a: String, b: String) {
    }

    fn display(&self) -> (r: String) {
        self.clone()
    }
}

impl Debug for String {
    open spec fn debug_text(&self) -> Seq<char> {
        debug_of(self@)
    }

    proof fn lemma_debug_text_by_view(a: String, b: String) {
    }

    fn debug(&self) -> (r: String) {
        debug_string(self)
    }
}

/// A string serves as an error message, with no cause.
impl Error for String {
    open spec fn source_text(&self) -> Option<Seq<char>> {
        None
    }

    proof fn lemma_source_text_by_view(a: Self, b: Self) {
    }

    fn source(&self) -> (r: Option<String>) {
        None
    }
}

} // verus!
