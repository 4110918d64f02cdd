//! The application's error taxonomy: one tagged variant per failure, with
//! an explicit, exhaustively matched mapping from variant to message and to
//! the HTTP response the boundary returns for it.

use crate::domain::InvalidReason;
use crate::http::{HeaderPair, HeaderPairModel, ResponseModel, StoredResponse, see_other_model};
use vstd::prelude::*;
use vstd::string::*;

verus! {

/// Every failure the application distinguishes.
#[derive(Debug, PartialEq, Eq, Structural, Clone, Copy)]
pub enum BizErrorEnum {
    SubscriberNameIsEmpty,
    SubscriberNameIsTooLong,
    SubscriberNameContainsIllegalCharacter,
    SubscriberEmailIsEmpty,
    SubscriberEmailMissAtSymbol,
    SubscriberEmailMissSubject,
    SubscriberEmailMissDomain,
    SubscriberEmailFormatIsIncorrect,
    NewsletterTitleIsEmpty,
    NewsletterContentIsEmpty,
    IdempotencyKeyIsBlank,
    IdempotencyKeyIsTooShort,
    IdempotencyKeyIsTooLong,
    ParseUrlError,
    JoinUrlError,
    AuthorizationHeaderIsMissing,
    AuthorizationHeaderIsInvalidUtf8String,
    AuthorizationSchemeNotBasic,
    Base64DecodeError,
    CredentialStringIsInvalidUtf8String,
    CredentialMissingUsername,
    CredentialMissingPassword,
    InvalidUsername,
    InvalidPassword,
    UserNotLoggedIn,
    SubscriptionTokenInvalidError,
    PgPoolError,
    TransactionCommitError,
    InsertSubscriptionsError,
    UpdateSubscriptionsError,
    QuerySubscriptionsError,
    InsertSubscriptionTokensError,
    QuerySubscriptionTokensError,
    QueryUsersError,
    UpdateUsersError,
    QueryIdempotencyError,
    InsertIdempotencyError,
    FindExpectedSavedRecordError,
    ResponseStatusCodeTryIntoError,
    StatusCodeConvertError,
    HttpResponseBodyToBytesError,
    InsertNewsletterIssuesError,
    InsertIssueDeliveryQueueError,
    QueryNewsletterIssuesError,
    QueryIssueDeliveryQueueError,
    DeleteIssueDeliveryQueueError,
    SendEmailError,
    BindTcpListenerError,
    ListenTcpListenerError,
    RunServerError,
    GetCurrentDirError,
    ParseEnvironmentVariableError,
    BuildConfigSourcesError,
    DeserializeConfigurationFileError,
    SetLoggerError,
    SetSubscriberError,
    SpawnBlockingTaskError,
    RedisSessionStoreBuildError,
    ActixSessionInsertError,
    ActixSessionGetError,
    Argon2HashParseError,
    HmacGenerateError,
    HexStringDecodedError,
    HmacVerifySliceError,
    Argon2HashPasswordError,
}

impl BizErrorEnum {
    /// The message for each failure, as a sequence of characters.
    pub open spec fn spec_message(self) -> Seq<char> {
        match self {
            BizErrorEnum::SubscriberNameIsEmpty => "Subscriber's name is empty."@,
            BizErrorEnum::SubscriberNameIsTooLong => "Subscriber's name is too long."@,
            BizErrorEnum::SubscriberNameContainsIllegalCharacter => "Subscriber's name contains illegal character."@,
            BizErrorEnum::SubscriberEmailIsEmpty => "Subscriber's email is empty."@,
            BizErrorEnum::SubscriberEmailMissAtSymbol => "Subscriber's email is missing @ symbol."@,
            BizErrorEnum::SubscriberEmailMissSubject => "Subscriber's email is missing subject."@,
            BizErrorEnum::SubscriberEmailMissDomain => "Subscriber's email is missing domain."@,
            BizErrorEnum::SubscriberEmailFormatIsIncorrect => "Subscriber's email format is incorrect."@,
            BizErrorEnum::NewsletterTitleIsEmpty => "Newsletter's title is empty."@,
            BizErrorEnum::NewsletterContentIsEmpty => "Newsletter's content is empty."@,
            BizErrorEnum::IdempotencyKeyIsBlank => "The idempotency key is blank."@,
            BizErrorEnum::IdempotencyKeyIsTooShort => "The idempotency key is too short."@,
            BizErrorEnum::IdempotencyKeyIsTooLong => "The idempotency key is too long."@,
            BizErrorEnum::ParseUrlError => "Url is incorrect."@,
            BizErrorEnum::JoinUrlError => "Url join path error."@,
            BizErrorEnum::AuthorizationHeaderIsMissing => "The 'Authorization' header was missing."@,
            BizErrorEnum::AuthorizationHeaderIsInvalidUtf8String => "The 'Authorization' header was not a valid UTF8 string."@,
            BizErrorEnum::AuthorizationSchemeNotBasic => "The authorization scheme was not 'Basic'."@,
            BizErrorEnum::Base64DecodeError => "Failed to base64-decode 'Basic' credentials."@,
            BizErrorEnum::CredentialStringIsInvalidUtf8String => "The decoded credential string is not valid UTF8."@,
            BizErrorEnum::CredentialMissingUsername => "A username must be provided in 'Basic' auth."@,
            BizErrorEnum::CredentialMissingPassword => "A password must be provided in 'Basic' auth."@,
            BizErrorEnum::InvalidUsername => "Invalid username."@,
            BizErrorEnum::InvalidPassword => "Invalid password."@,
            BizErrorEnum::UserNotLoggedIn => "The user has not logged in"@,
            BizErrorEnum::SubscriptionTokenInvalidError => "Subscription_token is invalid."@,
            BizErrorEnum::PgPoolError => "Failed to acquire a Postgres connection from the pool."@,
            BizErrorEnum::TransactionCommitError => "Failed to commit SQL transaction to store a new subscriber."@,
            BizErrorEnum::InsertSubscriptionsError => "Failed to insert subscriptions."@,
            BizErrorEnum::UpdateSubscriptionsError => "Failed to update subscriptions."@,
            BizErrorEnum::QuerySubscriptionsError => "Failed to query subscriptions."@,
            BizErrorEnum::InsertSubscriptionTokensError => "Failed to insert subscription_tokens."@,
            BizErrorEnum::QuerySubscriptionTokensError => "Failed to query subscription_tokens"@,
            BizErrorEnum::QueryUsersError => "Failed to query users."@,
            BizErrorEnum::UpdateUsersError => "Failed to update users."@,
            BizErrorEnum::QueryIdempotencyError => "Failed to query idempotency."@,
            BizErrorEnum::InsertIdempotencyError => "Failed to insert idempotency."@,
            BizErrorEnum::FindExpectedSavedRecordError => "Expected a saved response, but none was found."@,
            BizErrorEnum::ResponseStatusCodeTryIntoError => "Failed to convert the response status code."@,
            BizErrorEnum::StatusCodeConvertError => "Failed to convert status code."@,
            BizErrorEnum::HttpResponseBodyToBytesError => "Failed to serialize the response body to bytes."@,
            BizErrorEnum::InsertNewsletterIssuesError => "Failed to insert newsletter_issues."@,
            BizErrorEnum::InsertIssueDeliveryQueueError => "Failed to insert issue_delivery_queue."@,
            BizErrorEnum::QueryNewsletterIssuesError => "Failed to query newsletter_issues."@,
            BizErrorEnum::QueryIssueDeliveryQueueError => "Failed to query issue_delivery_queue."@,
            BizErrorEnum::DeleteIssueDeliveryQueueError => "Failed to delete issue_delivery_queue."@,
            BizErrorEnum::SendEmailError => "Failed to send a confirmation email."@,
            BizErrorEnum::BindTcpListenerError => "Failed to bind TcpListener."@,
            BizErrorEnum::ListenTcpListenerError => "Failed to listen TcpListener."@,
            BizErrorEnum::RunServerError => "Failed to run server."@,
            BizErrorEnum::GetCurrentDirError => "Failed to determine the current directory."@,
            BizErrorEnum::ParseEnvironmentVariableError => "Failed to parse environment variable."@,
            BizErrorEnum::BuildConfigSourcesError => "Failed to build config sources."@,
            BizErrorEnum::DeserializeConfigurationFileError => "Failed to deserialize config file."@,
            BizErrorEnum::SetLoggerError => "Failed to set logger."@,
            BizErrorEnum::SetSubscriberError => "Failed to set subscriber."@,
            BizErrorEnum::SpawnBlockingTaskError => "Failed to spawn blocking task."@,
            BizErrorEnum::RedisSessionStoreBuildError => "Failed to build a redis session store"@,
            BizErrorEnum::ActixSessionInsertError => "Failed to insert key to session"@,
            BizErrorEnum::ActixSessionGetError => "Failed to get key from session"@,
            BizErrorEnum::Argon2HashParseError => "Failed to parse hash in PHC string format."@,
            BizErrorEnum::HmacGenerateError => "Failed to generate hmac instance."@,
            BizErrorEnum::HexStringDecodedError => "Failed to parse hmac tag"@,
            BizErrorEnum::HmacVerifySliceError => "Failed to verify hmac tag"@,
            BizErrorEnum::Argon2HashPasswordError => "Failed to hash password"@,
        }
    }

    /// The message shown for this failure.
    pub fn as_str(&self) -> (r: &'static str)
        ensures
            r@ == self.spec_message(),
    {
        match self {
            BizErrorEnum::SubscriberNameIsEmpty => "Subscriber's name is empty.",
            BizErrorEnum::SubscriberNameIsTooLong => "Subscriber's name is too long.",
            BizErrorEnum::SubscriberNameContainsIllegalCharacter => "Subscriber's name contains illegal character.",
            BizErrorEnum::SubscriberEmailIsEmpty => "Subscriber's email is empty.",
            BizErrorEnum::SubscriberEmailMissAtSymbol => "Subscriber's email is missing @ symbol.",
            BizErrorEnum::SubscriberEmailMissSubject => "Subscriber's email is missing subject.",
            BizErrorEnum::SubscriberEmailMissDomain => "Subscriber's email is missing domain.",
            BizErrorEnum::SubscriberEmailFormatIsIncorrect => "Subscriber's email format is incorrect.",
            BizErrorEnum::NewsletterTitleIsEmpty => "Newsletter's title is empty.",
            BizErrorEnum::NewsletterContentIsEmpty => "Newsletter's content is empty.",
            BizErrorEnum::IdempotencyKeyIsBlank => "The idempotency key is blank.",
            BizErrorEnum::IdempotencyKeyIsTooShort => "The idempotency key is too short.",
            BizErrorEnum::IdempotencyKeyIsTooLong => "The idempotency key is too long.",
            BizErrorEnum::ParseUrlError => "Url is incorrect.",
            BizErrorEnum::JoinUrlError => "Url join path error.",
            BizErrorEnum::AuthorizationHeaderIsMissing => "The 'Authorization' header was missing.",
            BizErrorEnum::AuthorizationHeaderIsInvalidUtf8String => "The 'Authorization' header was not a valid UTF8 string.",
            BizErrorEnum::AuthorizationSchemeNotBasic => "The authorization scheme was not 'Basic'.",
            BizErrorEnum::Base64DecodeError => "Failed to base64-decode 'Basic' credentials.",
            BizErrorEnum::CredentialStringIsInvalidUtf8String => "The decoded credential string is not valid UTF8.",
            BizErrorEnum::CredentialMissingUsername => "A username must be provided in 'Basic' auth.",
            BizErrorEnum::CredentialMissingPassword => "A password must be provided in 'Basic' auth.",
            BizErrorEnum::InvalidUsername => "Invalid username.",
            BizErrorEnum::InvalidPassword => "Invalid password.",
            BizErrorEnum::UserNotLoggedIn => "The user has not logged in",
            BizErrorEnum::SubscriptionTokenInvalidError => "Subscription_token is invalid.",
            BizErrorEnum::PgPoolError => "Failed to acquire a Postgres connection from the pool.",
            BizErrorEnum::TransactionCommitError => "Failed to commit SQL transaction to store a new subscriber.",
            BizErrorEnum::InsertSubscriptionsError => "Failed to insert subscriptions.",
            BizErrorEnum::UpdateSubscriptionsError => "Failed to update subscriptions.",
            BizErrorEnum::QuerySubscriptionsError => "Failed to query subscriptions.",
            BizErrorEnum::InsertSubscriptionTokensError => "Failed to insert subscription_tokens.",
            BizErrorEnum::QuerySubscriptionTokensError => "Failed to query subscription_tokens",
            BizErrorEnum::QueryUsersError => "Failed to query users.",
            BizErrorEnum::UpdateUsersError => "Failed to update users.",
            BizErrorEnum::QueryIdempotencyError => "Failed to query idempotency.",
            BizErrorEnum::InsertIdempotencyError => "Failed to insert idempotency.",
            BizErrorEnum::FindExpectedSavedRecordError => "Expected a saved response, but none was found.",
            BizErrorEnum::ResponseStatusCodeTryIntoError => "Failed to convert the response status code.",
            BizErrorEnum::StatusCodeConvertError => "Failed to convert status code.",
            BizErrorEnum::HttpResponseBodyToBytesError => "Failed to serialize the response body to bytes.",
            BizErrorEnum::InsertNewsletterIssuesError => "Failed to insert newsletter_issues.",
            BizErrorEnum::InsertIssueDeliveryQueueError => "Failed to insert issue_delivery_queue.",
            BizErrorEnum::QueryNewsletterIssuesError => "Failed to query newsletter_issues.",
            BizErrorEnum::QueryIssueDeliveryQueueError => "Failed to query issue_delivery_queue.",
            BizErrorEnum::DeleteIssueDeliveryQueueError => "Failed to delete issue_delivery_queue.",
            BizErrorEnum::SendEmailError => "Failed to send a confirmation email.",
            BizErrorEnum::BindTcpListenerError => "Failed to bind TcpListener.",
            BizErrorEnum::ListenTcpListenerError => "Failed to listen TcpListener.",
            BizErrorEnum::RunServerError => "Failed to run server.",
            BizErrorEnum::GetCurrentDirError => "Failed to determine the current directory.",
            BizErrorEnum::ParseEnvironmentVariableError => "Failed to parse environment variable.",
            BizErrorEnum::BuildConfigSourcesError => "Failed to build config sources.",
            BizErrorEnum::DeserializeConfigurationFileError => "Failed to deserialize config file.",
            BizErrorEnum::SetLoggerError => "Failed to set logger.",
            BizErrorEnum::SetSubscriberError => "Failed to set subscriber.",
            BizErrorEnum::SpawnBlockingTaskError => "Failed to spawn blocking task.",
            BizErrorEnum::RedisSessionStoreBuildError => "Failed to build a redis session store",
            BizErrorEnum::ActixSessionInsertError => "Failed to insert key to session",
            BizErrorEnum::ActixSessionGetError => "Failed to get key from session",
            BizErrorEnum::Argon2HashParseError => "Failed to parse hash in PHC string format.",
            BizErrorEnum::HmacGenerateError => "Failed to generate hmac instance.",
            BizErrorEnum::HexStringDecodedError => "Failed to parse hmac tag",
            BizErrorEnum::HmacVerifySliceError => "Failed to verify hmac tag",
            BizErrorEnum::Argon2HashPasswordError => "Failed to hash password",
        }
    }

    /// Failures caused by a request the client can correct.
    pub open spec fn is_validation_error(self) -> bool {
        match self {
            BizErrorEnum::SubscriberNameIsEmpty
            | BizErrorEnum::SubscriberNameIsTooLong
            | BizErrorEnum::SubscriberNameContainsIllegalCharacter
            | BizErrorEnum::SubscriberEmailIsEmpty
            | BizErrorEnum::SubscriberEmailMissAtSymbol
            | BizErrorEnum::SubscriberEmailMissSubject
            | BizErrorEnum::SubscriberEmailMissDomain
            | BizErrorEnum::SubscriberEmailFormatIsIncorrect
            | BizErrorEnum::NewsletterTitleIsEmpty
            | BizErrorEnum::NewsletterContentIsEmpty
            | BizErrorEnum::IdempotencyKeyIsBlank
            | BizErrorEnum::IdempotencyKeyIsTooShort
            | BizErrorEnum::IdempotencyKeyIsTooLong => true,
            _ => false,
        }
    }

    /// Failures of authentication or of presenting credentials.
    pub open spec fn is_auth_error(self) -> bool {
        match self {
            BizErrorEnum::AuthorizationHeaderIsMissing
            | BizErrorEnum::AuthorizationHeaderIsInvalidUtf8String
            | BizErrorEnum::AuthorizationSchemeNotBasic
            | BizErrorEnum::Base64DecodeError
            | BizErrorEnum::CredentialStringIsInvalidUtf8String
            | BizErrorEnum::CredentialMissingUsername
            | BizErrorEnum::CredentialMissingPassword
            | BizErrorEnum::InvalidUsername
            | BizErrorEnum::InvalidPassword
            | BizErrorEnum::ActixSessionInsertError => true,
            _ => false,
        }
    }
}

/// The response the boundary sends for each failure: a redirect to the login
/// page for a missing login, `400 Bad Request` for validation failures,
/// `401 Unauthorized` (with a `WWW-Authenticate` challenge) for credential
/// failures, and `500 Internal Server Error` for everything else.
pub open spec fn error_response_model(e: BizErrorEnum) -> ResponseModel {
    if e == BizErrorEnum::UserNotLoggedIn {
        see_other_model("/login"@)
    } else if e.is_validation_error() {
        ResponseModel { status_code: 400, headers: Seq::empty(), body: Seq::empty() }
    } else if e.is_auth_error() {
        ResponseModel {
            status_code: 401,
            headers: seq![
                HeaderPairModel {
                    name: "WWW-Authenticate"@,
                    value: vstd::utf8::encode_utf8("Basic realm=\"publish\""@),
                },
            ],
            body: Seq::empty(),
        }
    } else {
        ResponseModel { status_code: 500, headers: Seq::empty(), body: Seq::empty() }
    }
}

/// Builds the boundary's response for a failure, per `error_response_model`.
pub fn error_response(e: &BizErrorEnum) -> (r: StoredResponse)
    ensures
        r@ == error_response_model(*e),
{
    match e {
        BizErrorEnum::UserNotLoggedIn => crate::http::redirect_to("/login"),
        BizErrorEnum::SubscriberNameIsEmpty
        | BizErrorEnum::SubscriberNameIsTooLong
        | BizErrorEnum::SubscriberNameContainsIllegalCharacter
        | BizErrorEnum::SubscriberEmailIsEmpty
        | BizErrorEnum::SubscriberEmailMissAtSymbol
        | BizErrorEnum::SubscriberEmailMissSubject
        | BizErrorEnum::SubscriberEmailMissDomain
        | BizErrorEnum::SubscriberEmailFormatIsIncorrect
        | BizErrorEnum::NewsletterTitleIsEmpty
        | BizErrorEnum::NewsletterContentIsEmpty
        | BizErrorEnum::IdempotencyKeyIsBlank
        | BizErrorEnum::IdempotencyKeyIsTooShort
        | BizErrorEnum::IdempotencyKeyIsTooLong => {
            let r = StoredResponse { status_code: 400, headers: Vec::new(), body: Vec::new() };
            proof {
                assert(r@.headers =~= Seq::<HeaderPairModel>::empty());
                assert(r@.body =~= Seq::<u8>::empty());
            }
            r
        },
        BizErrorEnum::AuthorizationHeaderIsMissing
        | BizErrorEnum::AuthorizationHeaderIsInvalidUtf8String
        | BizErrorEnum::AuthorizationSchemeNotBasic
        | BizErrorEnum::Base64DecodeError
        | BizErrorEnum::CredentialStringIsInvalidUtf8String
        | BizErrorEnum::CredentialMissingUsername
        | BizErrorEnum::CredentialMissingPassword
        | BizErrorEnum::InvalidUsername
        | BizErrorEnum::InvalidPassword
        | BizErrorEnum::ActixSessionInsertError => {
            let mut headers: Vec<HeaderPair> = Vec::new();
            let value = vstd::slice::slice_to_vec("Basic realm=\"publish\"".as_bytes());
            headers.push(HeaderPair { name: String::from_str("WWW-Authenticate"), value });
            let r = StoredResponse { status_code: 401, headers, body: Vec::new() };
            proof {
                assert(r@.headers =~= error_response_model(*e).headers);
                assert(r@.body =~= Seq::<u8>::empty());
            }
            r
        },
        _ => {
            let r = StoredResponse { status_code: 500, headers: Vec::new(), body: Vec::new() };
            proof {
                assert(r@.headers =~= Seq::<HeaderPairModel>::empty());
                assert(r@.body =~= Seq::<u8>::empty());
            }
            r
        },
    }
}

/// Failures of the subscription endpoint.
#[derive(Debug, PartialEq, Eq, Structural, Clone, Copy)]
pub enum SubscribeError {
    ValidationError(InvalidReason),
    UnexpectedError,
}

impl SubscribeError {
    /// The HTTP status the subscription endpoint answers with: `400` for a
    /// validation failure and `500` for everything else.
    pub fn status_code(&self) -> (r: u16)
        ensures
            r == 400 <==> self matches SubscribeError::ValidationError(_),
            r == 400 || r == 500,
    {
        match self {
            SubscribeError::ValidationError(_) => 400,
            SubscribeError::UnexpectedError => 500,
        }
    }
}

/// The views of a sequence of owned strings.
pub open spec fn message_views(v: Seq<String>) -> Seq<Seq<char>> {
    v.map_values(|m: String| m@)
}

/// The text of the trailing causes of an error chain, one line each.
pub open spec fn causes_text(msgs: Seq<Seq<char>>) -> Seq<char>
    decreases msgs.len(),
{
    if msgs.len() == 0 {
        Seq::empty()
    } else {
        "Caused by: \n\t"@ + msgs[0] + "\n"@ + causes_text(msgs.drop_first())
    }
}

/// The full rendering of an error chain: the top message, a blank line, then
/// one line per cause.
pub open spec fn error_chain_text(msgs: Seq<Seq<char>>) -> Seq<char> {
    if msgs.len() == 0 {
        Seq::empty()
    } else {
        msgs[0] + "\n\n"@ + causes_text(msgs.drop_first())
    }
}

/// Renders an error and the messages of its source chain, top first, in the
/// report layout the application logs.
pub fn error_chain_fmt(messages: &Vec<String>) -> (r: String)
    ensures
        r@ == error_chain_text(message_views(messages@)),
{
    let ghost views = message_views(messages@);
    let mut out = String::new();
    if messages.len() == 0 {
        return out;
    }
    out.append(messages[0].as_str());
    out.append("\n\n");
    let mut i: usize = 1;
    while i < messages.len()
        invariant
            1 <= i <= messages.len(),
            views == message_views(messages@),
            views.len() == messages@.len(),
            error_chain_text(views) == out@ + causes_text(views.skip(i as int)),
        decreases messages.len() - i,
    {
        proof {
            assert(views.skip(i as int).drop_first() =~= views.skip(i + 1));
            assert(views.skip(i as int)[0] == views[i as int]);
        }
        out.append("Caused by: \n\t");
        out.append(messages[i].as_str());
        out.append("\n");
        i = i + 1;
    }
    proof {
        assert(views.skip(messages@.len() as int) =~= Seq::<Seq<char>>::empty());
        assert(out@ + causes_text(views.skip(messages@.len() as int)) =~= out@);
    }
    out
}

} // verus!
