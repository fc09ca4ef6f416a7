use sbi_spec::binary::{
    Error, SbiRet, RET_ERR_ALREADY_AVAILABLE, RET_ERR_ALREADY_STARTED, RET_ERR_ALREADY_STOPPED,
    RET_ERR_DENIED, RET_ERR_FAILED, RET_ERR_INVALID_ADDRESS, RET_ERR_INVALID_PARAM,
    RET_ERR_NOT_SUPPORTED, RET_SUCCESS,
};

#[test]
fn test_binary() {
    assert_eq!(std::mem::align_of::<SbiRet>(), std::mem::align_of::<usize>());
    assert_eq!(std::mem::size_of::<SbiRet>(), std::mem::size_of::<[usize; 2]>());
    let ret = SbiRet { error: 1, value: 2 };
    assert_eq!(ret.error, 1);
    assert_eq!(ret.value, 2);
    let copy = ret;
    assert!(copy == ret.clone());

    assert_eq!(0, RET_SUCCESS as isize);
    assert_eq!(-1, RET_ERR_FAILED as isize);
    assert_eq!(-2, RET_ERR_NOT_SUPPORTED as isize);
    assert_eq!(-3, RET_ERR_INVALID_PARAM as isize);
    assert_eq!(-4, RET_ERR_DENIED as isize);
    assert_eq!(-5, RET_ERR_INVALID_ADDRESS as isize);
    assert_eq!(-6, RET_ERR_ALREADY_AVAILABLE as isize);
    assert_eq!(-7, RET_ERR_ALREADY_STARTED as isize);
    assert_eq!(-8, RET_ERR_ALREADY_STOPPED as isize);
}

fn standard_errors() -> Vec<(SbiRet, Error, isize)> {
    vec![
        (SbiRet::failed(), Error::Failed, -1),
        (SbiRet::not_supported(), Error::NotSupported, -2),
        (SbiRet::invalid_param(), Error::InvalidParam, -3),
        (SbiRet::denied(), Error::Denied, -4),
        (SbiRet::invalid_address(), Error::InvalidAddress, -5),
        (SbiRet::already_available(), Error::AlreadyAvailable, -6),
        (SbiRet::already_started(), Error::AlreadyStarted, -7),
        (SbiRet::already_stopped(), Error::AlreadyStopped, -8),
    ]
}

#[test]
fn standard_errors_are_errors_of_their_category() {
    for (ret, category, code) in standard_errors() {
        assert!(ret.is_err());
        assert!(!ret.is_ok());
        assert_eq!(ret.error as isize, code);
        assert_eq!(ret.value, 0);
        assert_eq!(ret.into_result(), Err(category));
    }
}

#[test]
fn standard_error_words_classify_back() {
    for (_, category, code) in standard_errors() {
        let ret = SbiRet { error: code as usize, value: 0 };
        assert_eq!(ret.into_result(), Err(category));
    }
}

#[test]
fn success_keeps_every_value() {
    for v in [0usize, 1, 42, usize::MAX / 2, usize::MAX] {
        let ret = SbiRet::success(v);
        assert!(ret.is_ok());
        assert!(!ret.is_err());
        assert_eq!(ret.error, 0);
        assert_eq!(ret.value, v);
        assert_eq!(ret.into_result(), Ok(v));
    }
}

#[test]
fn unknown_negative_codes_are_custom() {
    for code in [-9isize, -10, -100, -12345, isize::MIN] {
        let ret = SbiRet { error: code as usize, value: 7 };
        assert!(ret.is_err());
        assert_eq!(ret.into_result(), Err(Error::Custom(code)));
    }
}

#[test]
fn positive_error_words_are_custom() {
    let ret = SbiRet { error: 5, value: 0 };
    assert_eq!(ret.into_result(), Err(Error::Custom(5)));
    let ret = SbiRet { error: isize::MAX as usize, value: 0 };
    assert_eq!(ret.into_result(), Err(Error::Custom(isize::MAX)));
}

#[test]
fn expect_returns_the_value_of_a_success() {
    assert_eq!(SbiRet::success(0x8000).expect("no value"), 0x8000);
    assert_eq!(SbiRet::success(0).expect("no value"), 0);
}

#[test]
fn debug_text_of_success_is_decimal() {
    assert_eq!(SbiRet::success(0).debug_text(), "0");
    assert_eq!(SbiRet::success(7).debug_text(), "7");
    assert_eq!(SbiRet::success(1024).debug_text(), "1024");
    assert_eq!(SbiRet::success(usize::MAX).debug_text(), usize::MAX.to_string());
}

#[test]
fn debug_text_of_standard_errors() {
    assert_eq!(SbiRet::failed().debug_text(), "<SBI call failed>");
    assert_eq!(SbiRet::not_supported().debug_text(), "<SBI feature not supported>");
    assert_eq!(SbiRet::invalid_param().debug_text(), "<SBI invalid parameter>");
    assert_eq!(SbiRet::denied().debug_text(), "<SBI denied>");
    assert_eq!(SbiRet::invalid_address().debug_text(), "<SBI invalid address>");
    assert_eq!(SbiRet::already_available().debug_text(), "<SBI already available>");
    assert_eq!(SbiRet::already_started().debug_text(), "<SBI already started>");
    assert_eq!(SbiRet::already_stopped().debug_text(), "<SBI already stopped>");
}

#[test]
fn debug_text_of_unknown_errors_is_hexadecimal() {
    let ret = SbiRet { error: 0x2a, value: 0 };
    assert_eq!(ret.debug_text(), "[SBI Unknown error: 0x2a]");
    let word = -9isize as usize;
    let ret = SbiRet { error: word, value: 0 };
    assert_eq!(ret.debug_text(), format!("[SBI Unknown error: {:#x}]", word));
}
