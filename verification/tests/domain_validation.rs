//! Validation of subscriber names, email addresses, idempotency keys, and
//! the other plain-value checks.

use zero_2_prod::auth::{Credentials, NewPasswordIssue, validate_credentials,
    validate_new_password};
use zero_2_prod::configuration::Environment;
use zero_2_prod::domain::{InvalidReason, NewSubscriber, SubscriberEmail, SubscriberName};
use zero_2_prod::error::BizErrorEnum;
use zero_2_prod::idempotency::IdempotencyKey;
use zero_2_prod::subscriptions::generate_subscription_token;
use zero_2_prod::util::is_blank;
use argon2::password_hash::SaltString;
use argon2::{Argon2, PasswordHasher};

#[test]
fn a_256_grapheme_long_name_is_valid() {
    let name = "ё".repeat(256);
    assert!(SubscriberName::parse(name).is_ok());
}

#[test]
fn a_name_longer_than_256_graphemes_is_rejected() {
    let name = "a".repeat(257);
    assert!(SubscriberName::parse(name).is_err());
}

#[test]
fn whitespace_only_names_are_rejected() {
    let name = " ".to_string();
    assert!(SubscriberName::parse(name).is_err());
}

#[test]
fn subscriber_name_empty_string_is_rejected() {
    let name = "".to_string();
    assert!(SubscriberName::parse(name).is_err());
}

#[test]
fn names_containing_an_invalid_character_are_rejected() {
    for name in &['/', '(', ')', '"', '<', '>', '\\', '{', '}'] {
        let name = name.to_string();
        assert!(SubscriberName::parse(name).is_err());
    }
}

#[test]
fn a_valid_name_is_parsed_successfully() {
    let name = "Ursula Le Guin".to_string();
    assert!(SubscriberName::parse(name).is_ok());
}

#[test]
fn a_name_of_many_combining_graphemes_is_valid() {
    // 512 characters, but only 256 grapheme clusters.
    let name = "e\u{0301}".repeat(256);
    assert_eq!(name.chars().count(), 512);
    assert!(SubscriberName::parse(name).is_ok());
}

#[test]
fn name_rejections_carry_their_reason() {
    assert!(matches!(
        SubscriberName::parse("".to_string()),
        Err(BizErrorEnum::SubscriberNameIsEmpty)
    ));
    assert!(matches!(
        SubscriberName::parse("a".repeat(257)),
        Err(BizErrorEnum::SubscriberNameIsTooLong)
    ));
    assert!(matches!(
        SubscriberName::parse("Ursula {Le Guin}".to_string()),
        Err(BizErrorEnum::SubscriberNameContainsIllegalCharacter)
    ));
}

#[test]
fn subscriber_email_empty_string_is_rejected() {
    let email = "".to_string();
    assert!(SubscriberEmail::parse(email).is_err());
}

#[test]
fn email_missing_at_symbol_is_rejected() {
    let email = "ursuladomain.com".to_string();
    assert!(SubscriberEmail::parse(email).is_err());
}

#[test]
fn email_missing_subject_is_rejected() {
    let email = "@domain.com".to_string();
    assert!(SubscriberEmail::parse(email).is_err());
}

#[test]
fn valid_emails_are_parsed_successfully() {
    let email = "ursula_le_guin@gmail.com".to_string();
    println!("fake email: {}", email);
    assert!(SubscriberEmail::parse(email).is_ok());
}

#[test]
fn email_rejections_carry_their_reason() {
    assert!(matches!(
        SubscriberEmail::parse("".to_string()),
        Err(InvalidReason::EmailIsEmpty)
    ));
    assert!(matches!(
        SubscriberEmail::parse("ursuladomain.com".to_string()),
        Err(InvalidReason::EmailMissingAtSymbol)
    ));
    assert!(matches!(
        SubscriberEmail::parse("@domain.com".to_string()),
        Err(InvalidReason::EmailMissingSubject)
    ));
    assert!(matches!(
        SubscriberEmail::parse("ursula@".to_string()),
        Err(InvalidReason::EmailMissingDomain)
    ));
    // The structural checks pass, but the HTML5 email grammar refuses the
    // space in the local part.
    assert!(matches!(
        SubscriberEmail::parse("ursula le guin@domain.com".to_string()),
        Err(InvalidReason::EmailFormatWrong)
    ));
}

#[test]
fn a_new_subscriber_exposes_its_parts() {
    let email = SubscriberEmail::parse("a@x.com".to_string()).unwrap();
    let name = SubscriberName::parse("Ursula".to_string()).unwrap();
    let subscriber = NewSubscriber::new(email, name);
    assert_eq!(subscriber.email(), "a@x.com");
    assert_eq!(subscriber.name(), "Ursula");
    assert_eq!(subscriber.get_email().as_ref(), "a@x.com");
    assert_eq!(subscriber.get_name().as_ref(), "Ursula");
}

#[test]
fn test_white_space() {
    let empty_str1 = "   ";
    assert!(is_blank(empty_str1));
    let empty_str2 = "\n\n";
    assert!(is_blank(empty_str2));
    let empty_str3 = "\t\t";
    assert!(is_blank(empty_str3));
}

#[test]
fn unicode_whitespace_counts_as_blank() {
    assert!(is_blank("\u{2003}\u{00A0}"));
    assert!(!is_blank(" a "));
    assert!(is_blank(""));
}

#[test]
fn idempotency_key_boundaries() {
    assert!(matches!(
        IdempotencyKey::try_from("a".repeat(9)),
        Err(BizErrorEnum::IdempotencyKeyIsTooShort)
    ));
    assert!(IdempotencyKey::try_from("a".repeat(10)).is_ok());
    assert!(IdempotencyKey::try_from("a".repeat(50)).is_ok());
    assert!(matches!(
        IdempotencyKey::try_from("a".repeat(51)),
        Err(BizErrorEnum::IdempotencyKeyIsTooLong)
    ));
}

#[test]
fn blank_idempotency_keys_are_rejected() {
    assert!(matches!(
        IdempotencyKey::try_from("            ".to_string()),
        Err(BizErrorEnum::IdempotencyKeyIsBlank)
    ));
    let key = IdempotencyKey::try_from("abc1234567".to_string()).unwrap();
    assert_eq!(key.as_ref(), "abc1234567");
    assert_eq!(key.into_string(), "abc1234567");
}

#[test]
fn environment_names_are_read_case_insensitively() {
    assert!(matches!(
        Environment::try_from("LOCAL".to_string()),
        Ok(Environment::Local)
    ));
    assert!(matches!(
        Environment::try_from("production".to_string()),
        Ok(Environment::Production)
    ));
    let err = Environment::try_from("staging".to_string()).unwrap_err();
    assert_eq!(
        err,
        "staging is not a supported environment. Use either 'local' or 'production'."
    );
    assert_eq!(Environment::Local.as_str(), "local");
    assert_eq!(Environment::Production.as_str(), "production");
}

#[test]
fn new_password_rules() {
    assert!(matches!(
        validate_new_password("secret1", "secret2"),
        Some(NewPasswordIssue::Mismatch)
    ));
    assert!(matches!(
        validate_new_password("short", "short"),
        Some(NewPasswordIssue::BadLength)
    ));
    let long = "a".repeat(129);
    assert!(matches!(
        validate_new_password(&long, &long),
        Some(NewPasswordIssue::BadLength)
    ));
    assert!(validate_new_password("secret-enough", "secret-enough").is_none());
}

#[test]
fn subscription_tokens_are_25_alphanumeric_characters() {
    let token = generate_subscription_token();
    assert_eq!(token.chars().count(), 25);
    assert!(token.chars().all(|c| c.is_ascii_alphanumeric()));
    let other = generate_subscription_token();
    assert_eq!(other.chars().count(), 25);
}

#[test]
fn argon2_password_verification() {
    let salt = SaltString::generate(&mut rand::thread_rng());
    let hash = Argon2::default()
        .hash_password(b"everythinghastostartsomewhere", &salt)
        .unwrap()
        .to_string();
    let ok = validate_credentials(
        Credentials { username: "admin".to_string(), password: "everythinghastostartsomewhere".to_string() },
        Some((7, hash.clone())),
    );
    assert_eq!(ok.unwrap(), 7);
    let wrong = validate_credentials(
        Credentials { username: "admin".to_string(), password: "wrong-password".to_string() },
        Some((7, hash)),
    );
    assert!(matches!(wrong, Err(BizErrorEnum::InvalidPassword)));
    let unknown = validate_credentials(
        Credentials { username: "ghost".to_string(), password: "whatever".to_string() },
        None,
    );
    assert!(matches!(unknown, Err(BizErrorEnum::InvalidUsername)));
    let broken = validate_credentials(
        Credentials { username: "admin".to_string(), password: "whatever".to_string() },
        Some((7, "not-a-phc-string".to_string())),
    );
    assert!(matches!(broken, Err(BizErrorEnum::Argon2HashParseError)));
}
