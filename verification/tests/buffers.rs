use std::cell::Cell;

use gate_abi::errors::ErrorStatus;
use gate_abi::errors::IntoErr;
use gate_abi::ffi::NotZeroable;
use gate_abi::ffi::slice::InvalidSliceError;
use gate_abi::ffi::slice::Slice;
use gate_abi::ffi::str::InvalidStrError;
use gate_abi::ffi::str::Str;

#[test]
fn null_pointer_rejected_first() {
    // Null is rejected regardless of the claimed length.
    let s = Slice::<u32>::from_untrusted(0, 0);
    assert_eq!(s.try_as_slice(), Err(InvalidSliceError::PtrIsNull));
    let s = Slice::<u32>::from_untrusted(0, 1_000_000);
    assert_eq!(s.try_as_slice(), Err(InvalidSliceError::PtrIsNull));
    // Even a rejecting validator is never consulted for a null pointer.
    let s = Slice::<u32>::from_untrusted(0, 4);
    assert_eq!(
        s.try_as_slice_custom(|_| false),
        Err(InvalidSliceError::PtrIsNull)
    );
}

#[test]
fn misaligned_pointer_rejected_second() {
    // Misaligned and non-null, with length zero: alignment still decides.
    let s = Slice::<u32>::from_untrusted(1, 0);
    assert_eq!(s.try_as_slice(), Err(InvalidSliceError::PtrNotAligned));
    assert_eq!(s.try_as_slice_mut(), Err(InvalidSliceError::PtrNotAligned));
}

#[test]
fn oversized_length_rejected_third() {
    // An aligned, non-null pointer with an oversized count: length decides.
    let s = Slice::<u32>::from_untrusted(4096, (isize::MAX as usize) + 1);
    assert_eq!(s.try_as_slice(), Err(InvalidSliceError::LenTooLarge));
}

#[test]
fn validator_rejection_is_other() {
    let s = Slice::<u32>::from_untrusted(4096, 4);
    assert_eq!(
        s.try_as_slice_custom(|_| false),
        Err(InvalidSliceError::Other)
    );
    // The validator sees exactly the descriptor's address.
    let seen = Cell::new(0usize);
    let r = s.try_as_slice_custom(|addr| {
        seen.set(addr);
        true
    });
    assert!(r.is_ok());
    assert_eq!(seen.get(), 4096);
}

#[test]
fn local_slice_roundtrip() {
    let data: [u32; 4] = [1, 2, 3, 4];
    let desc = Slice::from_slice(&data);
    assert_eq!(desc.len(), 4);
    assert_eq!(desc.as_ptr(), data.as_ptr() as usize);
    let view = desc.try_as_slice().unwrap();
    assert_eq!(view.as_ptr(), desc.as_ptr());
    assert_eq!(view.len(), desc.len());
}

#[test]
fn local_mut_slice_roundtrip() {
    let mut data: [u8; 3] = [9, 8, 7];
    let expected = data.as_mut_ptr() as usize;
    let desc = Slice::from_slice_mut(&mut data);
    let view = desc.try_as_slice_mut().unwrap();
    assert_eq!(view.as_ptr(), expected);
    assert_eq!(view.len(), 3);
}

#[test]
fn from_raw_parts_keeps_fields() {
    let desc = Slice::<u8>::from_raw_parts(64, 16);
    assert_eq!(desc.as_ptr(), 64);
    assert_eq!(desc.len(), 16);
    assert!(!NotZeroable::is_zero(&desc));
    assert!(NotZeroable::is_zero(&<Slice<u8> as NotZeroable>::zeroed()));
}

#[test]
fn nested_validation_stops_at_first_invalid() {
    // Inner index 0 is invalid (null); index 1 is also invalid (oversized).
    // The reported error is index 0's, even though index 1 would fail too.
    let items: Vec<Slice<u8>> = vec![
        Slice::from_untrusted(0, 0),
        Slice::from_untrusted(8, (isize::MAX as usize) + 1),
    ];
    assert_eq!(
        Slice::try_validate_all(&items, |_| true),
        Err(InvalidSliceError::PtrIsNull)
    );
}

#[test]
fn nested_validation_never_looks_past_a_failure() {
    // The validator runs for the first element only: the second element is
    // not examined once the first has failed.
    let calls = Cell::new(0usize);
    let last = Cell::new(0usize);
    let items: Vec<Slice<u8>> = vec![
        Slice::from_untrusted(16, 4),
        Slice::from_untrusted(32, 4),
        Slice::from_untrusted(48, 4),
    ];
    let r = Slice::try_validate_all(&items, |addr| {
        calls.set(calls.get() + 1);
        last.set(addr);
        addr != 16
    });
    assert_eq!(r, Err(InvalidSliceError::Other));
    assert_eq!(calls.get(), 1);
    assert_eq!(last.get(), 16);
}

#[test]
fn nested_validation_accepts_all_in_order() {
    let a: [u8; 2] = [1, 2];
    let b: [u8; 3] = [3, 4, 5];
    let items: Vec<Slice<u8>> = vec![Slice::from_slice(&a), Slice::from_slice(&b)];
    let views = Slice::try_validate_all(&items, |_| true).unwrap();
    assert_eq!(views.len(), 2);
    assert_eq!(views[0].as_ptr(), a.as_ptr() as usize);
    assert_eq!(views[0].len(), 2);
    assert_eq!(views[1].as_ptr(), b.as_ptr() as usize);
    assert_eq!(views[1].len(), 3);
}

#[test]
fn slice_error_outcome_codes() {
    assert_eq!(
        InvalidSliceError::PtrIsNull.into_err(),
        ErrorStatus::InvalidPtr
    );
    assert_eq!(
        InvalidSliceError::PtrNotAligned.into_err(),
        ErrorStatus::InvalidPtr
    );
    assert_eq!(
        InvalidSliceError::LenTooLarge.into_err(),
        ErrorStatus::StrTooLong
    );
    assert_eq!(InvalidSliceError::Other.into_err(), ErrorStatus::InvalidPtr);
}

#[test]
fn text_roundtrip() {
    let text = "hello";
    let desc = Str::from_str(text);
    assert_eq!(desc.len(), 5);
    assert_eq!(desc.as_ptr(), text.as_ptr() as usize);
    assert_eq!(desc.as_bytes().len(), 5);
    let back = desc.try_as_str(text.as_bytes()).unwrap();
    assert_eq!(back, "hello");
}

#[test]
fn text_multibyte_length_is_bytes() {
    let text = "héllo";
    let desc = Str::from_str(text);
    assert_eq!(desc.len(), text.len());
    assert_eq!(desc.try_as_str(text.as_bytes()).unwrap(), "héllo");
}

#[test]
fn malformed_text_rejected() {
    let desc = Str::from_str("xx");
    let bad: [u8; 2] = [0xFF, 0xFE];
    assert_eq!(desc.try_as_str(&bad), Err(InvalidStrError::Utf8Error));
}

#[test]
fn null_text_rejected_before_utf8() {
    let desc = <Str as NotZeroable>::zeroed();
    assert!(NotZeroable::is_zero(&desc));
    let bad: [u8; 1] = [0xFF];
    // The descriptor's layout failure wins over the malformed bytes.
    assert_eq!(
        desc.try_as_str(&bad),
        Err(InvalidStrError::InvalidSliceError(
            InvalidSliceError::PtrIsNull
        ))
    );
    assert_eq!(
        desc.try_validate(),
        Err(InvalidStrError::InvalidSliceError(
            InvalidSliceError::PtrIsNull
        ))
    );
}

#[test]
fn text_validator_rejection() {
    let text = "abc";
    let desc = Str::from_str(text);
    assert_eq!(
        desc.try_as_str_custom(text.as_bytes(), |_| false),
        Err(InvalidStrError::InvalidSliceError(InvalidSliceError::Other))
    );
    let witness = desc.try_validate_custom(|_| true).unwrap();
    assert_eq!(witness.as_ptr(), text.as_ptr() as usize);
    assert_eq!(witness.len(), 3);
}

#[test]
fn str_error_outcome_codes() {
    assert_eq!(InvalidStrError::Utf8Error.into_err(), ErrorStatus::InvalidStr);
    assert_eq!(
        InvalidStrError::InvalidSliceError(InvalidSliceError::LenTooLarge).into_err(),
        ErrorStatus::StrTooLong
    );
    assert_eq!(
        InvalidStrError::from(InvalidSliceError::PtrIsNull),
        InvalidStrError::InvalidSliceError(InvalidSliceError::PtrIsNull)
    );
}
