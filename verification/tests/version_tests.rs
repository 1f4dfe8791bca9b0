use blaze_rs::base::text::IntErrorKind;
use blaze_rs::base::version::{greatest_common_version, parse_device_version, parse_driver_version, Version};
use blaze_rs::base::error_codes::ErrorType;

#[test]
fn version_parts() {
    let v = Version::from_inner_parts(3, 2, 1);
    assert_eq!(v.to_bits(), (3 << 22) | (2 << 12) | 1);
    assert_eq!((v.major(), v.minor(), v.patch()), (3, 2, 1));
    assert_eq!(v.into_inner_parts(), (3, 2, 1));
    assert_eq!(Version::from_bits(v.to_bits()), v);
    let cut = Version::from_inner_parts(1024 + 5, 1024 + 6, 4096 + 7);
    assert_eq!(cut.into_inner_parts(), (5, 6, 7));
}

#[test]
fn known_versions_in_order() {
    let all = [
        Version::cl1(),
        Version::cl1_1(),
        Version::cl1_2(),
        Version::cl2(),
        Version::cl2_1(),
        Version::cl2_2(),
        Version::cl3(),
    ];
    for i in 0..all.len() {
        for j in 0..all.len() {
            assert_eq!(all[i].is_older_than(&all[j]), i < j);
            assert_eq!(all[i] < all[j], i < j);
        }
    }
    assert_eq!(Version::cl1_2().into_inner_parts(), (1, 2, 0));
}

#[test]
fn version_text() {
    assert_eq!(Version::parse("1.2").unwrap(), Version::cl1_2());
    assert_eq!(Version::parse("3.0.1").unwrap(), Version::from_inner_parts(3, 0, 1));
    assert_eq!("2.1".parse::<Version>().unwrap(), Version::cl2_1());
    assert_eq!(Version::parse(""), Err(IntErrorKind::Empty));
    assert_eq!(Version::parse("1"), Err(IntErrorKind::Empty));
    assert_eq!(Version::parse("1."), Err(IntErrorKind::Empty));
    assert_eq!(Version::parse("1.x"), Err(IntErrorKind::InvalidDigit));
    assert_eq!(Version::parse("1.2.3.4"), Err(IntErrorKind::InvalidDigit));
    assert_eq!(Version::parse("4294967296.0"), Err(IntErrorKind::PosOverflow));
}

#[test]
fn device_and_driver_versions() {
    assert_eq!(parse_device_version("OpenCL 3.0 CUDA").unwrap(), Version::cl3());
    assert_eq!(parse_device_version("OpenCL 1.2").unwrap(), Version::cl1_2());
    assert_eq!(parse_device_version("OpenCL").unwrap_err().ty, ErrorType::InvalidValue);
    assert_eq!(parse_device_version("OpenCL three").unwrap_err().ty, ErrorType::InvalidValue);
    assert_eq!(parse_driver_version("470.82.01").unwrap(), Version::from_inner_parts(470, 82, 1));
    assert_eq!(parse_driver_version("driver").unwrap_err().ty, ErrorType::InvalidValue);
}

#[test]
fn greatest_common_version_is_the_oldest() {
    assert_eq!(greatest_common_version(&[]), Version::cl1());
    assert_eq!(greatest_common_version(&[Version::cl3(), Version::cl1_2(), Version::cl2()]), Version::cl1_2());
    assert_eq!(greatest_common_version(&[Version::cl2_1()]), Version::cl2_1());
}
