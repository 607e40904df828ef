use gate_abi::ffi::NotZeroable;
use gate_abi::ffi::num::ShouldNotBeZero;
use gate_abi::ffi::num::ZeroableThing;
use gate_abi::ffi::option::COption;
use gate_abi::ffi::option::OptZero;
use gate_abi::ffi::ptr::FFINonNull;
use gate_abi::ffi::slice::Slice;

#[test]
fn coption_roundtrip() {
    assert_eq!(COption::from_option(Some(7u32)).into_option(), Some(7u32));
    assert_eq!(COption::<u32>::from_option(None).into_option(), None);
    assert_eq!(COption::from_option(Some(0u32)).into_option(), Some(0u32));
}

#[test]
fn present_roundtrip_nonzero() {
    let v = ShouldNotBeZero::new(7u32).unwrap();
    let enc = OptZero::from_option(Some(v));
    assert_eq!(enc.into_option().map(|s| s.value()), Some(7u32));
    let direct = OptZero::some(v);
    assert_eq!(direct.into_option().map(|s| s.value()), Some(7u32));
}

#[test]
fn absent_roundtrip_and_zero_pattern() {
    let enc: OptZero<ShouldNotBeZero<u32>> = OptZero::from_option(None);
    assert!(enc.into_option().is_none());
    // The stored bits are exactly the payload type's zero pattern.
    assert_eq!(enc.into_inner_unchecked().value(), 0u32);
    let none: OptZero<ShouldNotBeZero<u32>> = OptZero::none();
    assert_eq!(none.into_inner_unchecked().value(), 0u32);
}

#[test]
fn zero_payload_collapses_to_absent() {
    // Misuse case: storing the zero pattern as "present" reads back absent.
    let zero = <ShouldNotBeZero<u32> as NotZeroable>::zeroed();
    let enc = OptZero::some(zero);
    assert!(enc.into_option().is_none());

    let zero_slice = <Slice<u8> as NotZeroable>::zeroed();
    let enc = OptZero::some(zero_slice);
    assert!(enc.into_option().is_none());
}

#[test]
fn as_option_views_without_consuming() {
    let v = ShouldNotBeZero::new(9u64).unwrap();
    let enc = OptZero::some(v);
    assert_eq!(enc.as_option().map(|s| s.value()), Some(9u64));
    let none: OptZero<ShouldNotBeZero<u64>> = OptZero::none();
    assert!(none.as_option().is_none());
}

#[test]
fn map_present_and_absent() {
    let v = ShouldNotBeZero::new(3u32).unwrap();
    let enc = OptZero::some(v);
    let mapped: OptZero<ShouldNotBeZero<u32>> =
        enc.map(|s| ShouldNotBeZero::new_unchecked(s.value() + 1));
    assert_eq!(mapped.into_option().map(|s| s.value()), Some(4u32));

    let none: OptZero<ShouldNotBeZero<u32>> = OptZero::none();
    let mapped: OptZero<ShouldNotBeZero<u32>> = none.map(|s| s);
    assert!(mapped.into_option().is_none());
}

#[test]
fn should_not_be_zero_rejects_zero_only() {
    assert!(ShouldNotBeZero::new(0u8).is_none());
    assert!(ShouldNotBeZero::new(0i64).is_none());
    assert_eq!(ShouldNotBeZero::new(255u8).map(|s| s.value()), Some(255u8));
    assert_eq!(ShouldNotBeZero::new(-1i64).map(|s| s.value()), Some(-1i64));
    let s = ShouldNotBeZero::new(5usize).unwrap();
    assert_eq!(*s.value_ref(), 5usize);
    assert!(!NotZeroable::is_zero(&s));
}

#[test]
fn zeroable_integers_report_zero() {
    assert!(ZeroableThing::is_zero(&0u16));
    assert!(!ZeroableThing::is_zero(&1u16));
    assert_eq!(<i32 as ZeroableThing>::zero(), 0i32);
    assert_eq!(<u128 as ZeroableThing>::zero(), 0u128);
    assert!(ZeroableThing::is_zero(&0isize));
}

#[test]
fn non_null_claims() {
    assert!(FFINonNull::<u8>::new(0).is_none());
    let p = FFINonNull::<u8>::new(0x1000).unwrap();
    assert_eq!(p.as_ptr(), 0x1000);
    let q = FFINonNull::<u8>::new_unchecked(0x2000);
    assert_eq!(q.as_ptr(), 0x2000);
}

#[test]
fn null_pointer_optional_is_absent() {
    let p = FFINonNull::<u32>::new(0x1000).unwrap();
    let enc = OptZero::some(p);
    assert_eq!(enc.into_option().map(|p| p.as_ptr()), Some(0x1000));
    let none: OptZero<FFINonNull<u32>> = OptZero::none();
    assert!(none.into_option().is_none());
    assert_eq!(none.into_inner_unchecked().as_ptr(), 0);
}

#[test]
fn absent_values_compare_equal_whatever_their_bits() {
    // Both absent: equal, even though a Slice's zero pattern is any null
    // descriptor regardless of its length field.
    let a: OptZero<Slice<u8>> = OptZero::some(Slice::from_untrusted(0, 0));
    let b: OptZero<Slice<u8>> = OptZero::some(Slice::from_untrusted(0, 99));
    assert_eq!(a, b);
    // Present and absent differ; equal payloads compare equal.
    let p: OptZero<Slice<u8>> = OptZero::some(Slice::from_untrusted(64, 4));
    let q: OptZero<Slice<u8>> = OptZero::some(Slice::from_untrusted(64, 4));
    assert_eq!(p, q);
    assert_ne!(p, a);
    let r: OptZero<Slice<u8>> = OptZero::some(Slice::from_untrusted(64, 5));
    assert_ne!(p, r);
}

#[test]
fn coption_default_is_absent() {
    let d: COption<u32> = Default::default();
    assert!(matches!(d, COption::Absent));
}
