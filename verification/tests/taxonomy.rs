use xhypervisor::error::{
    HV_BAD_ARGUMENT, HV_BUSY, HV_ERROR, HV_NO_DEVICE, HV_NO_RESOURCES, HV_SUCCESS, HV_UNSUPPORTED,
};
use xhypervisor::{match_error_code, match_value, Error};

#[test]
fn success_is_the_only_ok() {
    assert_eq!(match_error_code(HV_SUCCESS), Ok(()));
    assert_eq!(match_error_code(0), Ok(()));
}

#[test]
fn each_known_code_has_its_variant() {
    assert_eq!(match_error_code(HV_ERROR), Err(Error::Error));
    assert_eq!(match_error_code(HV_BUSY), Err(Error::Busy));
    assert_eq!(match_error_code(HV_BAD_ARGUMENT), Err(Error::BadArg));
    assert_eq!(match_error_code(HV_NO_RESOURCES), Err(Error::NoRes));
    assert_eq!(match_error_code(HV_NO_DEVICE), Err(Error::NoDev));
    assert_eq!(match_error_code(HV_UNSUPPORTED), Err(Error::Unsupp));
}

#[test]
fn known_codes_have_their_native_values() {
    assert_eq!(HV_ERROR, 0xfae94001);
    assert_eq!(HV_BUSY, 0xfae94002);
    assert_eq!(HV_BAD_ARGUMENT, 0xfae94003);
    assert_eq!(HV_NO_RESOURCES, 0xfae94005);
    assert_eq!(HV_NO_DEVICE, 0xfae94006);
    assert_eq!(HV_UNSUPPORTED, 0xfae9400f);
}

#[test]
fn unknown_codes_are_the_general_failure() {
    assert_eq!(match_error_code(1), Err(Error::Error));
    assert_eq!(match_error_code(0xfae94004), Err(Error::Error));
    assert_eq!(match_error_code(u32::MAX), Err(Error::Error));
}

#[test]
fn no_code_is_classified_as_success_in_an_error() {
    let codes = [0u32, 1, 2, 0xfae94000, 0xfae94001, 0xfae94002, 0xfae94003, 0xfae94004,
        0xfae94005, 0xfae94006, 0xfae94007, 0xfae9400f, 0xfae94010, u32::MAX];
    for code in codes {
        match match_error_code(code) {
            Ok(()) => assert_eq!(code, HV_SUCCESS),
            Err(e) => {
                assert_ne!(code, HV_SUCCESS);
                assert_ne!(e, Error::Success);
            }
        }
    }
}

#[test]
fn a_value_is_kept_only_on_success() {
    assert_eq!(match_value(HV_SUCCESS, 42), Ok(42));
    assert_eq!(match_value(HV_SUCCESS, u64::MAX), Ok(u64::MAX));
    assert_eq!(match_value(HV_BUSY, 42), Err(Error::Busy));
    assert_eq!(match_value(HV_BAD_ARGUMENT, 0), Err(Error::BadArg));
    assert_eq!(match_value(7, 42), Err(Error::Error));
}

#[test]
fn messages() {
    assert_eq!(Error::Success.message(), "success");
    assert_eq!(Error::Error.message(), "error");
    assert_eq!(Error::Busy.message(), "busy");
    assert_eq!(Error::BadArg.message(), "bad argument");
    assert_eq!(Error::NoRes.message(), "no resource");
    assert_eq!(Error::NoDev.message(), "no device");
    assert_eq!(Error::Unsupp.message(), "unsupported");
}
