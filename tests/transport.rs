use serde_traitobject::capability::Capability;
use serde_traitobject::erased::Box;
use serde_traitobject::factory::ResourceImpl;
use serde_traitobject::registry::{Builtin, DecodeError, Registry};
use serde_traitobject::traits::{decimal_string, Any, STRING_SELECTOR, U64_SELECTOR};
use serde_traitobject::wire::{frame, read_u64, write_u64};

fn registry() -> Registry<Builtin> {
    let mut reg = Registry::new();
    reg.register_error::<u64>();
    reg.register_display::<String>();
    reg
}

#[test]
fn integer_round_trip_then_wrong_downcast_keeps_box() {
    let reg = registry();
    let erased = Box::new(42u64);
    let payload = erased.encode();
    let decoded = reg.decode(Capability::Introspect, &payload).unwrap();
    let back = match decoded.downcast::<String>() {
        Ok(_) => panic!("a u64 downcast to String"),
        Err(b) => b,
    };
    assert_eq!(back.type_selector(), U64_SELECTOR);
    assert_eq!(back.interface(), Capability::Introspect);
    assert_eq!(back.downcast_ref::<u64>(), Some(42));
    assert_eq!(back.downcast::<u64>().ok(), Some(42));
}

#[test]
fn displayable_message_round_trip() {
    let reg = registry();
    let erased = Box::new_display(String::from("boxed error"));
    let payload = erased.encode();
    let decoded = reg.decode(Capability::Display, &payload).unwrap();
    assert_eq!(decoded.display::<Builtin>(), Some(String::from("boxed error")));
}

#[test]
fn error_like_round_trip_displays() {
    let reg = registry();
    let erased = Box::new_error(404u64);
    let decoded = reg.decode(Capability::Error, &erased.encode()).unwrap();
    assert_eq!(decoded.interface(), Capability::Error);
    assert_eq!(decoded.display::<Builtin>(), Some(String::from("404")));
    assert_eq!(decoded.debug::<Builtin>(), Some(String::from("404")));
}

#[test]
fn string_round_trip() {
    let reg = registry();
    let erased = Box::new(String::from("hi there"));
    let decoded = reg.decode(Capability::Introspect, &erased.encode()).unwrap();
    let s = decoded.downcast::<String>().ok().unwrap();
    assert_eq!(s, "hi there");
}

#[test]
fn weakened_box_still_downcasts() {
    let reg = registry();
    let erased = Box::new_error(7u64);
    let weak = erased.weaken(Capability::Debug).ok().unwrap();
    assert_eq!(weak.interface(), Capability::Debug);
    let decoded = reg.decode(Capability::Debug, &weak.encode()).unwrap();
    assert_eq!(decoded.debug::<Builtin>(), Some(String::from("7")));
    assert_eq!(decoded.display::<Builtin>(), None);
    assert_eq!(decoded.into_any().downcast::<u64>().ok(), Some(7));
}

#[test]
fn strengthening_is_refused() {
    let erased = Box::new_display(3u64);
    let back = erased.weaken(Capability::Error).err().unwrap();
    assert_eq!(back.interface(), Capability::Display);
    assert_eq!(back.downcast_ref::<u64>(), Some(3));
}

#[test]
fn into_any_variants_keep_value() {
    let a = Box::new_error(1u64).into_any_send();
    let b = Box::new_display(2u64).into_any_sync();
    let c = Box::new_debug(3u64).into_any_send_sync();
    assert_eq!(a.interface(), Capability::Introspect);
    assert_eq!(b.interface(), Capability::Introspect);
    assert_eq!(c.interface(), Capability::Introspect);
    assert_eq!(a.downcast_ref::<u64>(), Some(1));
    assert_eq!(b.downcast_ref::<u64>(), Some(2));
    assert_eq!(c.downcast_ref::<u64>(), Some(3));
}

#[test]
fn selector_is_stable_across_values() {
    let p1 = Box::new(1u64).encode();
    let p2 = Box::new(2u64).encode();
    assert_eq!(p1[..8], p2[..8]);
    assert_ne!(p1[8..], p2[8..]);
    assert_eq!(read_u64(&p1), U64_SELECTOR);
    let s1 = Box::new(String::from("a")).encode();
    let s2 = Box::new(String::from("bcd")).encode();
    assert_eq!(s1[..8], s2[..8]);
    assert_eq!(read_u64(&s1), STRING_SELECTOR);
}

#[test]
fn payload_layout_is_selector_then_value() {
    let payload = Box::new(42u64).encode();
    let mut expected = Vec::new();
    write_u64(U64_SELECTOR, &mut expected);
    expected.extend_from_slice(&[42, 0, 0, 0, 0, 0, 0, 0]);
    assert_eq!(payload, expected);
    assert_eq!(frame(U64_SELECTOR, &[42, 0, 0, 0, 0, 0, 0, 0]), expected);
}

#[test]
fn short_payload_is_corrupt() {
    let reg = registry();
    let r = reg.decode(Capability::Introspect, &[1, 2, 3]);
    assert!(matches!(r, Err(DecodeError::PayloadCorrupt)));
    assert!(matches!(reg.decode(Capability::Introspect, &[]), Err(DecodeError::PayloadCorrupt)));
}

#[test]
fn unknown_selector_is_mismatch() {
    let reg = registry();
    let payload = frame(99, &[1, 2]);
    assert!(matches!(reg.decode(Capability::Introspect, &payload), Err(DecodeError::SelectorMismatch)));
    let empty = Registry::<Builtin>::new();
    let known_elsewhere = Box::new(5u64).encode();
    assert!(matches!(empty.decode(Capability::Introspect, &known_elsewhere), Err(DecodeError::SelectorMismatch)));
}

#[test]
fn interface_not_registered_is_mismatch() {
    let reg = registry();
    let payload = Box::new_display(String::from("x")).encode();
    assert!(matches!(reg.decode(Capability::Error, &payload), Err(DecodeError::SelectorMismatch)));
    assert!(matches!(reg.decode(Capability::Debug, &payload), Err(DecodeError::SelectorMismatch)));
    assert!(reg.decode(Capability::Display, &payload).is_ok());
}

#[test]
fn registration_adds_weaker_views() {
    let reg = registry();
    assert!(reg.resolves(U64_SELECTOR, Capability::Error));
    assert!(reg.resolves(U64_SELECTOR, Capability::Display));
    assert!(reg.resolves(U64_SELECTOR, Capability::Debug));
    assert!(reg.resolves(U64_SELECTOR, Capability::Introspect));
    assert!(reg.resolves(STRING_SELECTOR, Capability::Display));
    assert!(reg.resolves(STRING_SELECTOR, Capability::Introspect));
    assert!(!reg.resolves(STRING_SELECTOR, Capability::Error));
    let mut only_any = Registry::<Builtin>::new();
    only_any.register::<u64>();
    assert!(only_any.resolves(U64_SELECTOR, Capability::Introspect));
    assert!(!only_any.resolves(U64_SELECTOR, Capability::Display));
    let mut dbg = Registry::<Builtin>::new();
    dbg.register_debug::<u64>();
    assert!(dbg.resolves(U64_SELECTOR, Capability::Debug));
    assert!(!dbg.resolves(U64_SELECTOR, Capability::Error));
}

#[test]
fn corrupt_value_bytes_are_rejected_at_decode() {
    let reg = registry();
    let short_int = frame(U64_SELECTOR, &[1, 2, 3]);
    assert!(matches!(reg.decode(Capability::Introspect, &short_int), Err(DecodeError::PayloadCorrupt)));
    let bad_utf8 = frame(STRING_SELECTOR, &[0xff, 0xfe]);
    assert!(matches!(reg.decode(Capability::Introspect, &bad_utf8), Err(DecodeError::PayloadCorrupt)));
    let good_utf8 = frame(STRING_SELECTOR, "ok".as_bytes());
    let decoded = reg.decode(Capability::Introspect, &good_utf8).unwrap();
    assert_eq!(decoded.downcast_ref::<String>(), Some(String::from("ok")));
}

#[test]
fn failed_downcast_returns_box_and_retry_succeeds() {
    let erased = Box::new(String::from("kept"));
    let back = erased.downcast::<u64>().err().unwrap();
    assert_eq!(back.downcast_ref::<u64>(), None);
    assert_eq!(back.value_bytes(), "kept".as_bytes());
    assert_eq!(back.downcast::<String>().ok(), Some(String::from("kept")));
}

#[test]
fn builtin_catalog_reads_by_selector() {
    use_check(U64_SELECTOR, &[0; 8], true);
    use_check(U64_SELECTOR, &[0; 7], false);
    use_check(STRING_SELECTOR, "x".as_bytes(), true);
    use_check(STRING_SELECTOR, &[0xc0, 0x80], false);
    use_check(77, &[0; 8], false);
}

fn use_check(selector: u64, bytes: &[u8], expected: bool) {
    assert_eq!(<Builtin as serde_traitobject::registry::Catalog>::check(selector, bytes), expected);
}

#[test]
fn string_value_bytes_are_utf8() {
    let erased = Box::new(String::from("héllo"));
    assert_eq!(erased.value_bytes(), "héllo".as_bytes());
    assert_eq!(String::decode_value("héllo".as_bytes()), Some(String::from("héllo")));
    assert_eq!(<u64 as Any>::decode_value(&[1, 1, 0, 0, 0, 0, 0, 0]), Some(257));
}

#[test]
fn decimal_text() {
    assert_eq!(decimal_string(0), "0");
    assert_eq!(decimal_string(9), "9");
    assert_eq!(decimal_string(10), "10");
    assert_eq!(decimal_string(1234567890), "1234567890");
    assert_eq!(decimal_string(u64::MAX), "18446744073709551615");
}

#[test]
fn weakening_table() {
    assert!(Capability::Error.weakens_to(Capability::Display));
    assert!(Capability::Error.weakens_to(Capability::Debug));
    assert!(Capability::Error.weakens_to(Capability::Introspect));
    assert!(Capability::Display.weakens_to(Capability::Introspect));
    assert!(Capability::Debug.weakens_to(Capability::Debug));
    assert!(!Capability::Display.weakens_to(Capability::Error));
    assert!(!Capability::Debug.weakens_to(Capability::Display));
    assert!(!Capability::Introspect.weakens_to(Capability::Debug));
}

#[test]
fn le_bytes_layout() {
    let mut out = vec![9u8];
    write_u64(0x0102_0304_0506_0708, &mut out);
    assert_eq!(out, vec![9, 8, 7, 6, 5, 4, 3, 2, 1]);
    assert_eq!(read_u64(&out[1..]), 0x0102_0304_0506_0708);
}

#[test]
fn resource_keeps_name() {
    let r: ResourceImpl<u64> = ResourceImpl::new("pool");
    assert_eq!(r.resource_name(), "pool");
}

#[test]
fn values_erase_directly_for_threads() {
    let a = 11u64.into_any_send();
    let b = String::from("s").into_any_sync();
    let c = 13u64.into_any_send_sync();
    assert_eq!(a.interface(), Capability::Introspect);
    assert_eq!(a.downcast_ref::<u64>(), Some(11));
    assert_eq!(b.downcast_ref::<String>(), Some(String::from("s")));
    assert_eq!(c.type_selector(), U64_SELECTOR);
    assert_eq!(c.downcast::<u64>().ok(), Some(13));
}

#[test]
fn into_box_keeps_contents() {
    let heap = Box::new(8u64).into_box();
    assert_eq!(heap.downcast_ref::<u64>(), Some(8));
}

#[test]
fn boxed_error_message_displays() {
    let mut reg = Registry::<Builtin>::new();
    reg.register_error::<String>();
    let erased = Box::new_error(String::from("boxed error"));
    let decoded = reg.decode(Capability::Error, &erased.encode()).unwrap();
    assert_eq!(decoded.display::<Builtin>(), Some(String::from("boxed error")));
    assert_eq!(decoded.debug::<Builtin>(), Some(String::from("\"boxed error\"")));
}

#[test]
fn debug_text_escapes() {
    use_debug(String::from("a\"b\\c\nd\re\tf"), "\"a\\\"b\\\\c\\nd\\re\\tf\"");
    use_debug(String::from(""), "\"\"");
    use_debug(String::from("héllo"), "\"héllo\"");
    use_debug(String::from("a\0b\u{1b}"), "\"a\\0b\\u{1b}\"");
}

fn use_debug(s: String, expected: &str) {
    let b = Box::new_debug(s);
    assert_eq!(b.debug::<Builtin>(), Some(String::from(expected)));
}

#[test]
fn selector_is_stable_under_every_interface() {
    let a = Box::new_display(1u64).encode();
    let b = Box::new_debug(2u64).encode();
    let c = Box::new_error(3u64).encode();
    let d = 4u64.into_any_send().encode();
    assert_eq!(a[..8], b[..8]);
    assert_eq!(b[..8], c[..8]);
    assert_eq!(c[..8], d[..8]);
    let e = Box::new_error(String::from("x")).encode();
    let f = Box::new_display(String::from("yz")).encode();
    assert_eq!(e[..8], f[..8]);
}

#[test]
fn error_source_is_reported() {
    let e = Box::new_error(String::from("boom"));
    assert_eq!(e.source::<Builtin>(), Some(None));
    assert_eq!(e.display::<Builtin>(), Some(String::from("boom")));
    let d = Box::new_display(String::from("boom"));
    assert_eq!(d.source::<Builtin>(), None);
    assert_eq!(d.debug::<Builtin>(), None);
    let unknown = Registry::<Builtin>::new();
    assert!(matches!(unknown.decode(Capability::Error, &e.encode()), Err(DecodeError::SelectorMismatch)));
}

#[test]
fn builtin_registry_knows_both_types_under_every_view() {
    let reg = Registry::<Builtin>::builtin();
    for c in [Capability::Introspect, Capability::Display, Capability::Debug, Capability::Error] {
        assert!(reg.resolves(U64_SELECTOR, c));
        assert!(reg.resolves(STRING_SELECTOR, c));
    }
    assert!(!reg.resolves(1, Capability::Introspect));
    let payload = Box::new_error(String::from("disk full")).encode();
    let decoded = reg.decode(Capability::Error, &payload).unwrap();
    assert_eq!(decoded.display::<Builtin>(), Some(String::from("disk full")));
    assert_eq!(decoded.debug::<Builtin>(), Some(String::from("\"disk full\"")));
    assert_eq!(decoded.source::<Builtin>(), Some(None));
}
