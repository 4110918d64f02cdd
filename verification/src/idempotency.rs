//! The idempotency key a publish request carries: a non-blank string of
//! 10 to 50 characters, validated before any other work happens.

use crate::error::BizErrorEnum;
use crate::util::{is_blank, spec_is_blank};
use vstd::prelude::*;
use vstd::string::*;

verus! {

/// The acceptance condition of `IdempotencyKey::try_from`.
pub open spec fn valid_idempotency_key(s: Seq<char>) -> bool {
    &&& !spec_is_blank(s)
    &&& 10 <= s.len() <= 50
}

/// The rejection `IdempotencyKey::try_from` reports for `s`, if any, in the
/// order the checks run.
pub open spec fn idempotency_key_error(s: Seq<char>) -> Option<BizErrorEnum> {
    if spec_is_blank(s) {
        Some(BizErrorEnum::IdempotencyKeyIsBlank)
    } else if s.len() < 10 {
        Some(BizErrorEnum::IdempotencyKeyIsTooShort)
    } else if s.len() > 50 {
        Some(BizErrorEnum::IdempotencyKeyIsTooLong)
    } else {
        None
    }
}

/// A client-supplied token scoping a publish request so retries are
/// deduplicated.
#[derive(Debug)]
pub struct IdempotencyKey(String);

impl View for IdempotencyKey {
    type V = Seq<char>;

    closed spec fn view(&self) -> Seq<char> {
        self.0@
    }
}

impl IdempotencyKey {
    /// Validates `value`: rejects blank strings, strings of fewer than 10
    /// characters and strings of more than 50; accepts the rest unchanged.
    pub fn try_from(value: String) -> (r: Result<Self, BizErrorEnum>)
        ensures
            match idempotency_key_error(value@) {
                Some(e) => r == Err::<Self, BizErrorEnum>(e),
                None => r matches Ok(k) && k@ == value@ && valid_idempotency_key(value@),
            },
    {
        if is_blank(value.as_str()) {
            return Err(BizErrorEnum::IdempotencyKeyIsBlank);
        }
        let length = value.as_str().unicode_len();
        if length < 10 {
            return Err(BizErrorEnum::IdempotencyKeyIsTooShort);
        }
        if length > 50 {
            return Err(BizErrorEnum::IdempotencyKeyIsTooLong);
        }
        Ok(IdempotencyKey(value))
    }

    /// The key as a string slice.
    pub fn as_ref(&self) -> (r: &str)
        ensures
            r@ == self@,
    {
        self.0.as_str()
    }

    /// Gives the key's characters back as an owned string.
    pub fn into_string(self) -> (r: String)
        ensures
            r@ == self@,
    {
        self.0
    }
}

} // verus!
