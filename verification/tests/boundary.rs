//! The boundary pieces: `Basic` authentication parsing, tag verification
//! for flashed errors, the error-to-response mapping, and response
//! construction.

use zero_2_prod::HmacSecret;
use zero_2_prod::auth::basic_authentication;
use zero_2_prod::error::{BizErrorEnum, SubscribeError, error_chain_fmt, error_response};
use zero_2_prod::domain::InvalidReason;
use zero_2_prod::http::{ok_to, redirect_to};
use zero_2_prod::request::{BodyData, Content, ErrorData, NewsletterData, hex_decode};
use zero_2_prod::session_util::validate_session;
use base64::Engine;
use hmac::Mac;

#[test]
fn basic_authentication_accepts_well_formed_headers() {
    let encoded = base64::engine::general_purpose::STANDARD.encode(b"admin:hunter2hunter2");
    let header = format!("Basic {}", encoded);
    let credentials = basic_authentication(&header).unwrap();
    assert_eq!(credentials.username, "admin");
    assert_eq!(credentials.password, "hunter2hunter2");
}

#[test]
fn basic_authentication_rejections() {
    let std_engine = base64::engine::general_purpose::STANDARD;
    assert!(matches!(
        basic_authentication("Bearer abcdef"),
        Err(BizErrorEnum::AuthorizationSchemeNotBasic)
    ));
    assert!(matches!(
        basic_authentication("Basic !!!not-base64!!!"),
        Err(BizErrorEnum::Base64DecodeError)
    ));
    let invalid_utf8 = format!("Basic {}", std_engine.encode([0xff, 0xfe, 0xfd]));
    assert!(matches!(
        basic_authentication(&invalid_utf8),
        Err(BizErrorEnum::CredentialStringIsInvalidUtf8String)
    ));
    let no_colon = format!("Basic {}", std_engine.encode(b"adminonly"));
    assert!(matches!(
        basic_authentication(&no_colon),
        Err(BizErrorEnum::CredentialMissingPassword)
    ));
    let empty = format!("Basic {}", std_engine.encode(b""));
    assert!(matches!(
        basic_authentication(&empty),
        Err(BizErrorEnum::CredentialMissingUsername)
    ));
    let empty_user = format!("Basic {}", std_engine.encode(b":secret"));
    assert!(matches!(
        basic_authentication(&empty_user),
        Err(BizErrorEnum::CredentialMissingUsername)
    ));
    let empty_password = format!("Basic {}", std_engine.encode(b"admin:"));
    assert!(matches!(
        basic_authentication(&empty_password),
        Err(BizErrorEnum::CredentialMissingPassword)
    ));
}

#[test]
fn hex_decoding() {
    assert_eq!(hex_decode("00ff10").unwrap(), vec![0x00, 0xff, 0x10]);
    assert_eq!(hex_decode("DEADbeef").unwrap(), vec![0xde, 0xad, 0xbe, 0xef]);
    assert_eq!(hex_decode("").unwrap(), Vec::<u8>::new());
    assert!(matches!(
        hex_decode("abc"),
        Err(BizErrorEnum::HexStringDecodedError)
    ));
    assert!(matches!(
        hex_decode("zz"),
        Err(BizErrorEnum::HexStringDecodedError)
    ));
}

#[test]
fn error_tags_verify_against_a_real_hmac() {
    let secret = HmacSecret("super-secret".to_string());
    let message = "something went wrong";
    let query_param = format!("error={}", urlencoding::encode(message));
    let mut mac =
        hmac::Hmac::<sha2::Sha256>::new_from_slice(b"super-secret").unwrap();
    mac.update(query_param.as_bytes());
    let tag = hex::encode(mac.finalize().into_bytes());
    let verified = ErrorData { error: message.to_string(), tag }
        .verify(&secret)
        .unwrap();
    assert_eq!(verified, message);
}

#[test]
fn error_tag_rejections() {
    let secret = HmacSecret("super-secret".to_string());
    let odd = ErrorData { error: "boom".to_string(), tag: "abc".to_string() };
    assert!(matches!(odd.verify(&secret), Err(BizErrorEnum::HexStringDecodedError)));
    let forged = ErrorData { error: "boom".to_string(), tag: "00ff".to_string() };
    assert!(matches!(forged.verify(&secret), Err(BizErrorEnum::HmacVerifySliceError)));
}

#[test]
fn error_responses_follow_the_taxonomy() {
    let not_logged_in = error_response(&BizErrorEnum::UserNotLoggedIn);
    assert_eq!(not_logged_in.status_code, 303);
    assert_eq!(not_logged_in.headers[0].name, "Location");
    assert_eq!(not_logged_in.headers[0].value, b"/login".to_vec());

    let validation = error_response(&BizErrorEnum::SubscriberNameIsEmpty);
    assert_eq!(validation.status_code, 400);
    assert!(validation.headers.is_empty());

    let auth = error_response(&BizErrorEnum::InvalidUsername);
    assert_eq!(auth.status_code, 401);
    assert_eq!(auth.headers[0].name, "WWW-Authenticate");
    assert_eq!(auth.headers[0].value, b"Basic realm=\"publish\"".to_vec());

    let infra = error_response(&BizErrorEnum::PgPoolError);
    assert_eq!(infra.status_code, 500);
    assert!(infra.headers.is_empty());
}

#[test]
fn subscribe_error_status_codes() {
    assert_eq!(
        SubscribeError::ValidationError(InvalidReason::EmailIsEmpty).status_code(),
        400
    );
    assert_eq!(SubscribeError::UnexpectedError.status_code(), 500);
}

#[test]
fn error_messages_match_the_taxonomy() {
    assert_eq!(BizErrorEnum::InvalidUsername.as_str(), "Invalid username.");
    assert_eq!(
        BizErrorEnum::FindExpectedSavedRecordError.as_str(),
        "Expected a saved response, but none was found."
    );
    assert_eq!(InvalidReason::EmailMissingAtSymbol.as_str(), "Email missing @ symbol");
}

#[test]
fn error_chains_render_top_first() {
    let messages = vec!["top failure".to_string(), "root cause".to_string()];
    let rendered = error_chain_fmt(&messages);
    assert_eq!(rendered, "top failure\n\nCaused by: \n\troot cause\n");
    assert_eq!(error_chain_fmt(&Vec::new()), "");
}

#[test]
fn response_builders() {
    let redirect = redirect_to("/admin/newsletter");
    assert_eq!(redirect.status_code, 303);
    assert_eq!(redirect.headers[0].name, "Location");
    assert_eq!(redirect.headers[0].value, b"/admin/newsletter".to_vec());
    assert!(redirect.body.is_empty());

    let page = ok_to("<p>hello</p>".to_string());
    assert_eq!(page.status_code, 200);
    assert_eq!(page.headers[0].name, "Content-Type");
    assert_eq!(page.headers[0].value, b"text/html; charset=utf-8".to_vec());
    assert_eq!(page.body, b"<p>hello</p>".to_vec());
}

#[test]
fn session_validation() {
    assert_eq!(validate_session(Ok(Some(9))).unwrap(), 9);
    assert!(matches!(
        validate_session(Ok(None)),
        Err(BizErrorEnum::UserNotLoggedIn)
    ));
    assert!(matches!(
        validate_session(Err(BizErrorEnum::ActixSessionGetError)),
        Err(BizErrorEnum::UserNotLoggedIn)
    ));
}

#[test]
fn blank_checks_on_request_payloads() {
    let body = BodyData {
        title: "  ".to_string(),
        content: Content { html: "<p>x</p>".to_string(), text: "".to_string() },
    };
    assert!(body.is_title_blank());
    assert!(body.is_content_blank());
    let data = NewsletterData {
        title: "Newsletter!".to_string(),
        text_content: " \t".to_string(),
        html_content: "<p>x</p>".to_string(),
        idempotency_key: "abc1234567".to_string(),
    };
    assert!(!data.is_title_blank());
    assert!(data.is_text_blank());
    assert!(!data.is_html_blank());
}
