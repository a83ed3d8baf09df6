use mapirs::flags::{MapiRecipClass, MapiStatusCode, MessageCodePage};

#[test]
fn status_codes_match_the_interface() {
    assert_eq!(MapiStatusCode::Success.code(), 0);
    assert_eq!(MapiStatusCode::Failure.code(), 2);
    // the interface assigns no meaning to 7
    assert_eq!(MapiStatusCode::TooManySessions.code(), 8);
    assert_eq!(MapiStatusCode::NotSupported.code(), 26);
}

#[test]
fn recip_classes_and_code_pages() {
    assert_eq!(MapiRecipClass::Orig.code(), 0);
    assert_eq!(MapiRecipClass::To.code(), 1);
    assert_eq!(MapiRecipClass::Cc.code(), 2);
    assert_eq!(MapiRecipClass::Bcc.code(), 3);
    assert_eq!(MessageCodePage::Ansi.code(), 0);
    assert_eq!(MessageCodePage::Utf8.code(), 65001);
}
