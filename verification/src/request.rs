//! The request payloads the endpoints accept, reduced to plain values, with
//! the validation each endpoint runs on them.

use crate::domain::{
    InvalidReason, NewSubscriber, SubscriberEmail, SubscriberName, email_parse_error,
    name_parse_error,
};
use crate::HmacSecret;
use crate::error::BizErrorEnum;
use crate::util::{is_blank, spec_is_blank};
use hmac::Mac;
use vstd::prelude::*;
use vstd::string::*;
use vstd::utf8::encode_utf8;

verus! {

/// The JSON payload of the legacy publish endpoint.
pub struct BodyData {
    pub title: String,
    pub content: Content,
}

/// The two renderings of a newsletter's body.
pub struct Content {
    pub html: String,
    pub text: String,
}

impl BodyData {
    /// Whether the title holds no visible character.
    pub fn is_title_blank(&self) -> (r: bool)
        ensures
            r == spec_is_blank(self.title@),
    {
        is_blank(self.title.as_str())
    }

    /// Whether either rendering of the content holds no visible character.
    pub fn is_content_blank(&self) -> (r: bool)
        ensures
            r == (spec_is_blank(self.content.html@) || spec_is_blank(self.content.text@)),
    {
        is_blank(self.content.html.as_str()) || is_blank(self.content.text.as_str())
    }
}

/// The form payload of the admin publish endpoint.
pub struct NewsletterData {
    pub title: String,
    pub text_content: String,
    pub html_content: String,
    pub idempotency_key: String,
}

impl NewsletterData {
    /// Whether the title holds no visible character.
    pub fn is_title_blank(&self) -> (r: bool)
        ensures
            r == spec_is_blank(self.title@),
    {
        is_blank(self.title.as_str())
    }

    /// Whether the HTML rendering holds no visible character.
    pub fn is_html_blank(&self) -> (r: bool)
        ensures
            r == spec_is_blank(self.html_content@),
    {
        is_blank(self.html_content.as_str())
    }

    /// Whether the plain-text rendering holds no visible character.
    pub fn is_text_blank(&self) -> (r: bool)
        ensures
            r == spec_is_blank(self.text_content@),
    {
        is_blank(self.text_content.as_str())
    }
}

/// The error variant reported for each email rejection.
pub open spec fn email_reason_to_biz(reason: InvalidReason) -> BizErrorEnum {
    match reason {
        InvalidReason::EmailIsEmpty => BizErrorEnum::SubscriberEmailIsEmpty,
        InvalidReason::EmailMissingAtSymbol => BizErrorEnum::SubscriberEmailMissAtSymbol,
        InvalidReason::EmailMissingSubject => BizErrorEnum::SubscriberEmailMissSubject,
        InvalidReason::EmailMissingDomain => BizErrorEnum::SubscriberEmailMissDomain,
        InvalidReason::EmailFormatWrong => BizErrorEnum::SubscriberEmailFormatIsIncorrect,
        InvalidReason::NameIsEmpty => BizErrorEnum::SubscriberNameIsEmpty,
        InvalidReason::NameIsTooLong => BizErrorEnum::SubscriberNameIsTooLong,
        InvalidReason::NameContainsForbiddenCharacters
            => BizErrorEnum::SubscriberNameContainsIllegalCharacter,
    }
}

/// The outcome of validating a subscription form: the name is parsed first,
/// then the email.
pub open spec fn subscription_form_error(email: Seq<char>, name: Seq<char>) -> Option<
    BizErrorEnum,
> {
    if name_parse_error(name) is Some {
        name_parse_error(name)
    } else {
        match email_parse_error(email) {
            Some(reason) => Some(email_reason_to_biz(reason)),
            None => None,
        }
    }
}

/// The form payload of the subscription endpoint.
#[derive(Debug)]
pub struct FormData {
    pub email: String,
    pub name: String,
}

impl FormData {
    /// Validates the form into a `NewSubscriber`: the name first, then the
    /// email, reporting the first rejection.
    pub fn try_into_subscriber(self) -> (r: Result<NewSubscriber, BizErrorEnum>)
        ensures
            match subscription_form_error(self.email@, self.name@) {
                Some(e) => r == Err::<NewSubscriber, BizErrorEnum>(e),
                None => r matches Ok(s) && s@.email == self.email@ && s@.name == self.name@,
            },
    {
        let FormData { email, name } = self;
        let name = match SubscriberName::parse(name) {
            Ok(name) => name,
            Err(e) => {
                return Err(e);
            },
        };
        let email = match SubscriberEmail::parse(email) {
            Ok(email) => email,
            Err(reason) => {
                return Err(email_reason_error(reason));
            },
        };
        Ok(NewSubscriber::new(email, name))
    }
}

/// Maps an email rejection to its error variant.
fn email_reason_error(reason: InvalidReason) -> (r: BizErrorEnum)
    ensures
        r == email_reason_to_biz(reason),
{
    match reason {
        InvalidReason::EmailIsEmpty => BizErrorEnum::SubscriberEmailIsEmpty,
        InvalidReason::EmailMissingAtSymbol => BizErrorEnum::SubscriberEmailMissAtSymbol,
        InvalidReason::EmailMissingSubject => BizErrorEnum::SubscriberEmailMissSubject,
        InvalidReason::EmailMissingDomain => BizErrorEnum::SubscriberEmailMissDomain,
        InvalidReason::EmailFormatWrong => BizErrorEnum::SubscriberEmailFormatIsIncorrect,
        InvalidReason::NameIsEmpty => BizErrorEnum::SubscriberNameIsEmpty,
        InvalidReason::NameIsTooLong => BizErrorEnum::SubscriberNameIsTooLong,
        InvalidReason::NameContainsForbiddenCharacters
            => BizErrorEnum::SubscriberNameContainsIllegalCharacter,
    }
}

/// The form payload of the subscription endpoint, as the legacy route
/// declares it.
#[derive(Debug)]
pub struct SubscribeData {
    pub email: String,
    pub name: String,
}

impl SubscribeData {
    /// Validates the form into a `NewSubscriber`: the name first, then the
    /// email, reporting the first rejection.
    pub fn try_into_subscriber(self) -> (r: Result<NewSubscriber, BizErrorEnum>)
        ensures
            match subscription_form_error(self.email@, self.name@) {
                Some(e) => r == Err::<NewSubscriber, BizErrorEnum>(e),
                None => r matches Ok(s) && s@.email == self.email@ && s@.name == self.name@,
            },
    {
        let form = FormData { email: self.email, name: self.name };
        form.try_into_subscriber()
    }
}

/// The query payload of the subscription confirmation endpoint.
#[derive(Debug)]
pub struct ConfirmData {
    pub subscription_token: String,
}

/// Value of a hexadecimal digit, or `-1` for any other character.
pub open spec fn hex_digit_value(c: char) -> int {
    if 48 <= c as int <= 57 {
        c as int - 48
    } else if 65 <= c as int <= 70 {
        c as int - 55
    } else if 97 <= c as int <= 102 {
        c as int - 87
    } else {
        -1
    }
}

/// What decoding a hexadecimal string yields: one byte per digit pair, or
/// nothing for an odd length or a stray character.
pub open spec fn spec_hex_decode(s: Seq<char>) -> Option<Seq<u8>>
    decreases s.len(),
{
    if s.len() % 2 != 0 {
        None
    } else if s.len() == 0 {
        Some(Seq::empty())
    } else if hex_digit_value(s[0]) >= 0 && hex_digit_value(s[1]) >= 0 {
        match spec_hex_decode(s.skip(2)) {
            Some(rest) => Some(
                seq![(hex_digit_value(s[0]) * 16 + hex_digit_value(s[1])) as u8] + rest,
            ),
            None => None,
        }
    } else {
        None
    }
}

/// Value of one hexadecimal digit, or `-1`.
fn hex_digit(c: char) -> (r: i32)
    ensures
        r == hex_digit_value(c),
{
    let x = c as u32;
    if 48 <= x && x <= 57 {
        (x - 48) as i32
    } else if 65 <= x && x <= 70 {
        (x - 55) as i32
    } else if 97 <= x && x <= 102 {
        (x - 87) as i32
    } else {
        -1
    }
}

/// Decodes a hexadecimal string into its bytes: an odd length or a stray
/// character is rejected.
pub fn hex_decode(s: &str) -> (r: Result<Vec<u8>, BizErrorEnum>)
    ensures
        match spec_hex_decode(s@) {
            Some(bytes) => r matches Ok(v) && v@ == bytes,
            None => r == Err::<Vec<u8>, BizErrorEnum>(BizErrorEnum::HexStringDecodedError),
        },
{
    let n = s.unicode_len();
    if n % 2 != 0 {
        return Err(BizErrorEnum::HexStringDecodedError);
    }
    let mut out: Vec<u8> = Vec::new();
    let mut i: usize = 0;
    proof {
        assert(s@.skip(0) =~= s@);
        assert(out@ + spec_hex_decode(s@.skip(0))->Some_0 =~= spec_hex_decode(s@)->Some_0);
    }
    while i < n
        invariant
            0 <= i <= n,
            i % 2 == 0,
            n % 2 == 0,
            n == s@.len(),
            spec_hex_decode(s@) == match spec_hex_decode(s@.skip(i as int)) {
                Some(rest) => Some(out@ + rest),
                None => None::<Seq<u8>>,
            },
        decreases n - i,
    {
        proof {
            assert(s@.skip(i as int)[0] == s@[i as int]);
            assert(s@.skip(i as int)[1] == s@[i + 1]);
            assert(s@.skip(i as int).skip(2) =~= s@.skip(i + 2));
        }
        let hi = hex_digit(s.get_char(i));
        let lo = hex_digit(s.get_char(i + 1));
        if hi < 0 || lo < 0 {
            return Err(BizErrorEnum::HexStringDecodedError);
        }
        let byte: u8 = (hi * 16 + lo) as u8;
        proof {
            if let Some(rest) = spec_hex_decode(s@.skip(i + 2)) {
                assert(out@.push(byte) + rest =~= out@ + (seq![byte] + rest));
            }
        }
        out.push(byte);
        i = i + 2;
    }
    proof {
        assert(s@.skip(n as int) =~= Seq::<char>::empty());
        assert(out@ + Seq::<u8>::empty() =~= out@);
    }
    Ok(out)
}

/// Whether two byte strings hold the same bytes.
fn bytes_equal(a: &Vec<u8>, b: &Vec<u8>) -> (r: bool)
    ensures
        r == (a@ == b@),
{
    if a.len() != b.len() {
        return false;
    }
    let n = a.len();
    let mut i: usize = 0;
    while i < n
        invariant
            0 <= i <= n,
            n == a@.len(),
            n == b@.len(),
            forall|j: int| 0 <= j < i ==> a@[j] == b@[j],
        decreases n - i,
    {
        if a[i] != b[i] {
            return false;
        }
        i = i + 1;
    }
    proof {
        assert(a@ =~= b@);
    }
    true
}

/// What an HMAC-SHA256 tag is for a key and a message: a function of the
/// two alone.
pub uninterp spec fn hmac_sha256_tag(key: Seq<u8>, message: Seq<u8>) -> Seq<u8>;

/// Relies on the hmac crate's `Hmac<Sha256>`: the tag is a function of key
/// and message alone. HMAC accepts keys of any length, so `new_from_slice`
/// cannot fail and the `unwrap` cannot fire.
#[verifier::external_body]
fn compute_hmac_sha256(key: &[u8], message: &[u8]) -> (r: Vec<u8>)
    ensures
        r@ == hmac_sha256_tag(key@, message@),
{
    let mut mac = hmac::Hmac::<sha2::Sha256>::new_from_slice(key).unwrap();
    mac.update(message);
    mac.finalize().into_bytes().to_vec()
}

/// What `urlencoding::encode` yields: percent-encoding, a function of the
/// input alone.
pub uninterp spec fn percent_encoded(s: Seq<char>) -> Seq<char>;

/// Relies on `urlencoding::encode`: the result depends on the characters
/// alone.
#[verifier::external_body]
fn percent_encode(s: &str) -> (r: String)
    ensures
        r@ == percent_encoded(s@),
{
    urlencoding::encode(s).into_owned()
}

/// A login error message with the authentication tag presented for it.
pub struct ErrorData {
    pub error: String,
    pub tag: String,
}

impl ErrorData {
    /// Checks that the error message was tagged by this application: the
    /// presented tag, decoded from hex, must equal the HMAC-SHA256 of the
    /// percent-encoded query parameter under the application's secret.
    pub fn verify(self, secret: &HmacSecret) -> (r: Result<String, BizErrorEnum>)
        ensures
            ({
                let message = encode_utf8("error="@ + percent_encoded(self.error@));
                match spec_hex_decode(self.tag@) {
                    None => r == Err::<String, BizErrorEnum>(BizErrorEnum::HexStringDecodedError),
                    Some(tag) => {
                        if hmac_sha256_tag(encode_utf8(secret.0@), message) == tag {
                            r matches Ok(out) && out@ == self.error@
                        } else {
                            r == Err::<String, BizErrorEnum>(BizErrorEnum::HmacVerifySliceError)
                        }
                    },
                }
            }),
    {
        let tag = match hex_decode(self.tag.as_str()) {
            Ok(tag) => tag,
            Err(e) => {
                return Err(e);
            },
        };
        let query_param = String::from_str("error=").concat(
            percent_encode(self.error.as_str()).as_str(),
        );
        let computed = compute_hmac_sha256(
            secret.0.as_str().as_bytes(),
            query_param.as_str().as_bytes(),
        );
        if bytes_equal(&computed, &tag) {
            Ok(self.error)
        } else {
            Err(BizErrorEnum::HmacVerifySliceError)
        }
    }
}

/// The form payload of the login endpoint.
pub struct LoginData {
    pub username: String,
    pub password: String,
}

/// The form payload of the password change endpoint.
pub struct ChangePasswordData {
    pub current_password: String,
    pub new_password: String,
    pub new_password_check: String,
}

} // verus!
