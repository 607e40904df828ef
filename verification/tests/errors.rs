use gate_abi::errors::ErrorStatus;
use gate_abi::errors::SysResult;

#[test]
fn payload_roundtrip_small() {
    let word = SysResult::try_ok(5).unwrap();
    assert_eq!(word.into_result(), Ok(5));
}

#[test]
fn payload_roundtrip_zero() {
    let word = SysResult::try_ok(0).unwrap();
    assert_eq!(word.into_result(), Ok(0));
    assert_eq!(word.as_isize(), 0);
}

#[test]
fn payload_roundtrip_max() {
    let max = isize::MAX as usize;
    let word = SysResult::try_ok(max).unwrap();
    assert_eq!(word.into_result(), Ok(max));
}

#[test]
fn oversized_payload_fails() {
    let too_big = (isize::MAX as usize) + 1;
    assert_eq!(SysResult::try_ok(too_big), Err(()));
    assert_eq!(SysResult::try_ok(usize::MAX), Err(()));
}

#[test]
fn ok_equals_try_ok() {
    assert_eq!(SysResult::ok(42), SysResult::try_ok(42).unwrap());
}

#[test]
fn error_roundtrip_every_code() {
    for code in 1..=ErrorStatus::MAX_CODE {
        let kind = ErrorStatus::from_u16(code);
        assert_eq!(kind.as_u16(), code);
        assert_eq!(SysResult::err(kind).into_result(), Err(kind));
        assert_eq!(ErrorStatus::from_u16(kind.as_u16()), kind);
    }
}

#[test]
fn error_word_is_negated_code() {
    let word = SysResult::err(ErrorStatus::InvalidPtr);
    assert_eq!(word.as_isize(), -9);
    assert_eq!(word.into_result(), Err(ErrorStatus::InvalidPtr));
}

#[test]
fn unknown_fallback_out_of_range() {
    assert_eq!(ErrorStatus::from_u16(0), ErrorStatus::Unknown);
    assert_eq!(
        ErrorStatus::from_u16(ErrorStatus::MAX_CODE + 1),
        ErrorStatus::Unknown
    );
    assert_eq!(ErrorStatus::from_u16(9999), ErrorStatus::Unknown);
}

#[test]
fn try_from_u16_bounds() {
    assert_eq!(ErrorStatus::try_from_u16(0), Err(()));
    assert_eq!(ErrorStatus::try_from_u16(1), Ok(ErrorStatus::Generic));
    assert_eq!(
        ErrorStatus::try_from_u16(ErrorStatus::MAX_CODE),
        Ok(ErrorStatus::NotBound)
    );
    assert_eq!(ErrorStatus::try_from_u16(ErrorStatus::MAX_CODE + 1), Err(()));
}

#[test]
fn decoding_is_total_on_any_word() {
    // Any negative word decodes to some error, never a failure.
    assert_eq!(
        SysResult::from_isize(-5).into_result(),
        Err(ErrorStatus::InvalidSyscall)
    );
    // A magnitude outside the catalogue falls back to Unknown.
    assert_eq!(
        SysResult::from_isize(-1000).into_result(),
        Err(ErrorStatus::Unknown)
    );
    assert_eq!(
        SysResult::from_isize(isize::MIN).into_result(),
        Err(ErrorStatus::Unknown)
    );
    assert_eq!(SysResult::from_isize(7).into_result(), Ok(7));
}

#[test]
fn descriptions_spot_checks() {
    assert_eq!(ErrorStatus::Generic.as_str(), "Generic Error");
    assert_eq!(
        ErrorStatus::InvalidPtr.as_str(),
        "Invalid Ptr (not aligned or null)"
    );
    assert_eq!(ErrorStatus::NotBound.as_str(), "Interface Not Bound");
    assert_eq!(ErrorStatus::Unknown.as_str(), "Operation Unknown");
}

#[test]
fn try_from_result_both_ways() {
    assert_eq!(
        SysResult::try_from_result(Ok(3)).unwrap().into_result(),
        Ok(3)
    );
    assert_eq!(
        SysResult::try_from_result(Err(ErrorStatus::Busy))
            .unwrap()
            .into_result(),
        Err(ErrorStatus::Busy)
    );
    assert_eq!(
        SysResult::try_from_result(Ok((isize::MAX as usize) + 1)),
        Err(())
    );
}
