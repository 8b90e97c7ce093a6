use cocom_rs::hresult::{HResult, HResultE};

#[test]
fn named_code_values() {
    assert_eq!(HResult::ok().value, 0);
    assert_eq!(HResult::not_impl().value, 0x80004001u32 as i32);
    assert_eq!(HResult::no_interface().value, 0x80004002u32 as i32);
    assert_eq!(HResult::pointer().value, 0x80004003u32 as i32);
    assert_eq!(HResult::abort().value, 0x80004004u32 as i32);
    assert_eq!(HResult::fail().value, 0x80004005u32 as i32);
    assert_eq!(HResult::unexpected().value, 0x8000FFFFu32 as i32);
    assert_eq!(HResult::access_denied().value, 0x80070005u32 as i32);
    assert_eq!(HResult::handle().value, 0x80070006u32 as i32);
    assert_eq!(HResult::out_of_memory().value, 0x8007000Eu32 as i32);
    assert_eq!(HResult::invalid_arg().value, 0x80070057u32 as i32);
}

#[test]
fn from_e_matches_constructors() {
    assert_eq!(HResult::from_e(HResultE::Okay), HResult::ok());
    assert_eq!(HResult::from_e(HResultE::NotImpl), HResult::not_impl());
    assert_eq!(HResult::from_e(HResultE::NoInterface), HResult::no_interface());
    assert_eq!(HResult::from_e(HResultE::Pointer), HResult::pointer());
    assert_eq!(HResult::from_e(HResultE::Abort), HResult::abort());
    assert_eq!(HResult::from_e(HResultE::Fail), HResult::fail());
    assert_eq!(HResult::from_e(HResultE::Unexpected), HResult::unexpected());
    assert_eq!(HResult::from_e(HResultE::AccessDenied), HResult::access_denied());
    assert_eq!(HResult::from_e(HResultE::Handle), HResult::handle());
    assert_eq!(HResult::from_e(HResultE::OutOfMemory), HResult::out_of_memory());
    assert_eq!(HResult::from_e(HResultE::InvalidArg), HResult::invalid_arg());
}

#[test]
fn bit31_decides_failure() {
    assert!(HResult::ok().is_success());
    assert!(!HResult::ok().is_failure());
    assert!(HResult::new(1).is_success());
    assert!(HResult::no_interface().is_failure());
    assert!(!HResult::no_interface().is_success());
    assert!(HResult::unexpected().is_failure());
    assert!(HResult::invalid_arg().is_failure());
}
