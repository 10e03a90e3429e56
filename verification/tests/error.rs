use openssl::error::{cvt, ErrorStack};

#[test]
fn cvt_maps_status_codes() {
    assert_eq!(cvt(1), Ok(1));
    assert_eq!(cvt(7), Ok(7));
    assert_eq!(cvt(0), Err(ErrorStack::Library));
    assert_eq!(cvt(-1), Err(ErrorStack::Library));
    assert_eq!(cvt(i32::MIN), Err(ErrorStack::Library));
}
