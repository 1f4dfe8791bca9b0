use blaze_rs::base::error_codes::ErrorType;
use blaze_rs::base::program::{binary_program_status, build_error, build_options};

#[test]
fn build_options_keep_argument_info() {
    assert_eq!(build_options(None), "-cl-kernel-arg-info\0");
    assert_eq!(build_options(Some("-O2")), "-O2 -cl-kernel-arg-info\0");
    assert_eq!(build_options(Some("")), " -cl-kernel-arg-info\0");
}

#[test]
fn binary_status_picks_the_first_failing_device() {
    assert!(binary_program_status(0, &[0, -42]).is_ok());
    let e = binary_program_status(-30, &[0, -42, -17]).unwrap_err();
    assert_eq!(e.ty, ErrorType::InvalidBinary);
    let e = binary_program_status(-30, &[0, 0]).unwrap_err();
    assert_eq!(e.ty, ErrorType::InvalidValue);
    let e = binary_program_status(-5, &[-42]).unwrap_err();
    assert_eq!(e.ty, ErrorType::OutOfResources);
    assert!(e.desc.is_none());
}

#[test]
fn build_error_uses_the_first_log() {
    let e = build_error(-11, &[None, Some("line 3: error\0".to_string()), Some("other".to_string())]);
    assert_eq!(e.ty, ErrorType::BuildProgramFailure);
    assert_eq!(e.desc.as_deref(), Some("line 3: error\0"));
    let e = build_error(-11, &[None, None]);
    assert_eq!(e.ty, ErrorType::BuildProgramFailure);
    assert!(e.desc.is_none());
    assert!(build_error(-11, &[]).desc.is_none());
}
