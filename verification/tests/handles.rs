use frida_rs::fromsys::FromSys;
use frida_rs::handle::{ForeignHandle, NULL_TOKEN, UNDEFINED_TOKEN};
use frida_rs::nativepointer::NativePointer;

#[test]
fn handle_keeps_its_token() {
    let h = ForeignHandle::from_token(42);
    assert_eq!(h.token(), 42);
    assert!(!h.is_null());
    assert!(!h.is_undefined());
    assert!(!h.is_nullish());
    assert_eq!(h, ForeignHandle::from_token(42));
    assert_ne!(h, ForeignHandle::from_token(43));
}

#[test]
fn null_and_undefined_are_told_apart() {
    assert_eq!(ForeignHandle::null().token(), NULL_TOKEN);
    assert_eq!(ForeignHandle::undefined().token(), UNDEFINED_TOKEN);
    assert_ne!(NULL_TOKEN, UNDEFINED_TOKEN);
    assert!(ForeignHandle::null().is_null());
    assert!(!ForeignHandle::null().is_undefined());
    assert!(ForeignHandle::null().is_nullish());
    assert!(ForeignHandle::undefined().is_undefined());
    assert!(!ForeignHandle::undefined().is_null());
    assert!(ForeignHandle::undefined().is_nullish());
    assert!(ForeignHandle::from_token(NULL_TOKEN).is_null());
}

#[test]
fn pointer_round_trip_gives_the_handle_back() {
    for token in [0u64, 1, 2, 77, u64::MAX] {
        let h = ForeignHandle::from_token(token);
        let p = NativePointer::from_sys(h);
        assert_eq!(*p.to_sys(), h);
        assert_eq!(p.into_sys(), h);
        assert_eq!(NativePointer::from_jsvalue(h), p);
    }
}

#[test]
fn pointer_knows_when_it_wraps_nothing() {
    assert!(NativePointer::from_sys(ForeignHandle::null()).is_nullish());
    assert!(NativePointer::from_sys(ForeignHandle::undefined()).is_nullish());
    assert!(!NativePointer::from_sys(ForeignHandle::from_token(5)).is_nullish());
}
