use blaze_rs::base::error::{check_status, max_value, min_value, Error};
use blaze_rs::base::error_codes::ErrorType;

#[test]
fn error_codes_roundtrip() {
    let kinds = [
        ErrorType::DeviceNotFound,
        ErrorType::OutOfHostMemory,
        ErrorType::InvalidValue,
        ErrorType::InvalidBufferSize,
        ErrorType::InvalidKernelArgs,
        ErrorType::MaxSizeRestrictionExceeded,
        ErrorType::NvidiaIllegalBufferAction,
    ];
    for k in kinds {
        assert_eq!(ErrorType::from_code(k.as_i32()), Some(k));
    }
    assert_eq!(ErrorType::DeviceNotFound.as_i32(), -1);
    assert_eq!(ErrorType::InvalidValue.as_i32(), -30);
    assert_eq!(ErrorType::InvalidBufferSize.as_i32(), -61);
    assert_eq!(ErrorType::MaxSizeRestrictionExceeded.as_i32(), -72);
    assert_eq!(ErrorType::NvidiaIllegalBufferAction.as_i32(), -9999);
}

#[test]
fn unknown_codes_have_no_kind() {
    assert_eq!(ErrorType::from_code(0), None);
    assert_eq!(ErrorType::from_code(1), None);
    assert_eq!(ErrorType::from_code(-20), None);
    assert_eq!(ErrorType::from_code(-100), None);
}

#[test]
fn errors_and_descriptions() {
    let e = Error::new(ErrorType::InvalidValue, "bad value");
    assert_eq!(e.ty, ErrorType::InvalidValue);
    assert_eq!(e.desc.as_deref(), Some("bad value"));
    let e = Error::from_type(ErrorType::InvalidDevice);
    assert_eq!(e.ty, ErrorType::InvalidDevice);
    assert!(e.desc.is_none());
    assert_eq!(Error::from(ErrorType::InvalidContext), Error::from_type(ErrorType::InvalidContext));
    assert_eq!(Error::from_code(-5).ty, ErrorType::OutOfResources);
}

#[test]
fn status_codes() {
    assert!(check_status(0).is_ok());
    let e = check_status(-34).unwrap_err();
    assert_eq!(e.ty, ErrorType::InvalidContext);
    assert!(e.desc.is_none());
}

#[test]
fn least_and_greatest_codes() {
    assert_eq!(min_value([3, -7, 5]), -7);
    assert_eq!(max_value([3, -7, 5]), 5);
    assert_eq!(min_value::<0>([]), i32::MAX);
    assert_eq!(max_value::<0>([]), i32::MIN);
}
