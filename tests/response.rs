use bluster::{ApplicationError, InvalidApplicationError, Response, APPLICATION_ERR_MAX, APPLICATION_ERR_MIN};

fn expect_code(r: Result<Response, InvalidApplicationError>) -> u8 {
    match r {
        Ok(Response::ApplicationError(e)) => e.code(),
        Ok(_) => panic!("not an application error"),
        Err(e) => panic!("rejected code {}", e.invalid_code),
    }
}

#[test]
fn every_code_in_range_is_accepted() {
    for code in 0x80u8..=0x9f {
        assert_eq!(expect_code(Response::application_error(code)), code);
        assert_eq!(ApplicationError::new(code).unwrap().code(), code);
    }
}

#[test]
fn every_code_outside_range_is_rejected() {
    for code in 0u8..=255 {
        if (0x80..=0x9f).contains(&code) {
            continue;
        }
        match Response::application_error(code) {
            Err(e) => assert_eq!(e.invalid_code, code),
            Ok(_) => panic!("accepted code {}", code),
        }
        assert_eq!(ApplicationError::new(code).unwrap_err().invalid_code, code);
    }
}

#[test]
fn range_edges() {
    for code in [0x00u8, 0x7f, 0xa0, 0xff] {
        assert_eq!(Response::application_error(code).unwrap_err().invalid_code, code);
    }
    assert_eq!(expect_code(Response::application_error(0x80)), 0x80);
    assert_eq!(expect_code(Response::application_error(0x9f)), 0x9f);
    assert_eq!(APPLICATION_ERR_MIN, 0x80);
    assert_eq!(APPLICATION_ERR_MAX, 0x9f);
}

#[test]
fn construct_invalid_then_valid_application_error() {
    let bad = Response::application_error(0x50);
    assert_eq!(bad.unwrap_err().invalid_code, 0x50);
    let good = Response::application_error(0x85);
    assert_eq!(expect_code(good), 0x85);
}

#[test]
fn invalid_application_error_message() {
    let e = InvalidApplicationError { invalid_code: 0x50 };
    assert_eq!(e.message(), "Application error must be in range [128, 159] - got 80");
    let e = InvalidApplicationError { invalid_code: 0 };
    assert_eq!(e.message(), "Application error must be in range [128, 159] - got 0");
    let e = InvalidApplicationError { invalid_code: 0xff };
    assert_eq!(e.message(), "Application error must be in range [128, 159] - got 255");
}

#[test]
fn cloned_application_error_keeps_code() {
    let e = ApplicationError::new(0x90).unwrap();
    assert_eq!(e.clone().code(), 0x90);
}
