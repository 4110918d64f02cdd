//! Subscriber domain types: validated email addresses, validated names,
//! and the pair of both that a new subscription carries.

use crate::error::BizErrorEnum;
use crate::util::{is_blank, spec_is_blank};
use unicode_segmentation::UnicodeSegmentation;
use vstd::prelude::*;
use vstd::string::*;

verus! {

/// Why a submitted email address or name was rejected.
#[derive(Debug, PartialEq, Eq, Structural, Clone, Copy)]
pub enum InvalidReason {
    NameIsEmpty,
    NameIsTooLong,
    NameContainsForbiddenCharacters,
    EmailIsEmpty,
    EmailMissingAtSymbol,
    EmailMissingSubject,
    EmailMissingDomain,
    EmailFormatWrong,
}

impl InvalidReason {
    /// The message shown for this rejection.
    pub fn as_str(&self) -> (r: &'static str)
        ensures
            r@ == self.spec_message(),
    {
        match self {
            InvalidReason::NameIsEmpty => "Name is empty",
            InvalidReason::NameIsTooLong => "Name is too long",
            InvalidReason::NameContainsForbiddenCharacters => "Name contains forbidden characters",
            InvalidReason::EmailIsEmpty => "Email is empty",
            InvalidReason::EmailMissingAtSymbol => "Email missing @ symbol",
            InvalidReason::EmailMissingSubject => "Email missing subject",
            InvalidReason::EmailMissingDomain => "Email missing domain",
            InvalidReason::EmailFormatWrong => "Email's format is not correct",
        }
    }

    /// The message for each rejection, as a sequence of characters.
    pub open spec fn spec_message(self) -> Seq<char> {
        match self {
            InvalidReason::NameIsEmpty => "Name is empty"@,
            InvalidReason::NameIsTooLong => "Name is too long"@,
            InvalidReason::NameContainsForbiddenCharacters => "Name contains forbidden characters"@,
            InvalidReason::EmailIsEmpty => "Email is empty"@,
            InvalidReason::EmailMissingAtSymbol => "Email missing @ symbol"@,
            InvalidReason::EmailMissingSubject => "Email missing subject"@,
            InvalidReason::EmailMissingDomain => "Email missing domain"@,
            InvalidReason::EmailFormatWrong => "Email's format is not correct"@,
        }
    }
}

/// Index of the last occurrence of `c` in `s`, or `-1` when absent.
pub open spec fn last_index_of(s: Seq<char>, c: char) -> int
    decreases s.len(),
{
    if s.len() == 0 {
        -1
    } else if s[s.len() - 1] == c {
        s.len() - 1
    } else {
        last_index_of(s.drop_last(), c)
    }
}

/// `last_index_of` is pinned down by a witness index with nothing after it.
proof fn lemma_last_index_of_witness(s: Seq<char>, c: char, i: int)
    requires
        0 <= i < s.len(),
        s[i] == c,
        forall|j: int| i < j < s.len() ==> s[j] != c,
    ensures
        last_index_of(s, c) == i,
    decreases s.len(),
{
    if i == s.len() - 1 {
    } else {
        assert(s.drop_last()[i] == c);
        lemma_last_index_of_witness(s.drop_last(), c, i);
    }
}

/// When no character of `s` is `c`, `last_index_of` is `-1`.
proof fn lemma_last_index_of_absent(s: Seq<char>, c: char)
    requires
        forall|j: int| 0 <= j < s.len() ==> s[j] != c,
    ensures
        last_index_of(s, c) == -1,
    decreases s.len(),
{
    if s.len() > 0 {
        lemma_last_index_of_absent(s.drop_last(), c);
    }
}

/// What `validator::validate_email` accepts: the HTML5 definition of a valid
/// email address. It depends on the characters of the string alone.
pub uninterp spec fn email_format_accepted(s: Seq<char>) -> bool;

/// Relies on `validator::validate_email` (validator 0.16): validity of an
/// address per the HTML5 email grammar, a function of the string alone.
#[verifier::external_body]
fn validate_email_format(s: &str) -> (r: bool)
    ensures
        r == email_format_accepted(s@),
{
    validator::validate_email(s)
}

/// The full acceptance condition of `SubscriberEmail::parse`.
pub open spec fn valid_subscriber_email(s: Seq<char>) -> bool {
    &&& !spec_is_blank(s)
    &&& 0 < last_index_of(s, '@') < s.len() - 1
    &&& email_format_accepted(s)
}

/// The rejection `SubscriberEmail::parse` reports for `s`, if any, in the
/// order the checks run.
pub open spec fn email_parse_error(s: Seq<char>) -> Option<InvalidReason> {
    if spec_is_blank(s) {
        Some(InvalidReason::EmailIsEmpty)
    } else if last_index_of(s, '@') == -1 {
        Some(InvalidReason::EmailMissingAtSymbol)
    } else if last_index_of(s, '@') == s.len() - 1 {
        Some(InvalidReason::EmailMissingDomain)
    } else if last_index_of(s, '@') == 0 {
        Some(InvalidReason::EmailMissingSubject)
    } else if !email_format_accepted(s) {
        Some(InvalidReason::EmailFormatWrong)
    } else {
        None
    }
}

/// An email address that passed `SubscriberEmail::parse`.
#[derive(Debug)]
pub struct SubscriberEmail(String);

impl View for SubscriberEmail {
    type V = Seq<char>;

    closed spec fn view(&self) -> Seq<char> {
        self.0@
    }
}

impl SubscriberEmail {
    /// Validates `email`: rejects blank strings, strings without `'@'`,
    /// a missing domain or subject around the last `'@'`, and anything the
    /// HTML5 email grammar refuses; accepts the rest unchanged.
    pub fn parse(email: String) -> (r: Result<Self, InvalidReason>)
        ensures
            match email_parse_error(email@) {
                Some(reason) => r == Err::<Self, InvalidReason>(reason),
                None => r matches Ok(e) && e@ == email@ && valid_subscriber_email(email@),
            },
    {
        if is_blank(email.as_str()) {
            return Err(InvalidReason::EmailIsEmpty);
        }
        let s = email.as_str();
        let n = s.unicode_len();
        // Scan backwards for the last '@', mirroring `rsplitn(2, '@')`.
        let mut i: usize = n;
        let mut found: bool = false;
        let mut at: usize = 0;
        while i > 0 && !found
            invariant
                0 <= i <= n,
                n == s@.len(),
                !found ==> forall|j: int| i <= j < n ==> s@[j] != '@',
                found ==> at < n && s@[at as int] == '@'
                    && forall|j: int| at < j < n ==> s@[j] != '@',
            decreases i,
        {
            if s.get_char(i - 1) == '@' {
                found = true;
                at = i - 1;
                i = i - 1;
            } else {
                i = i - 1;
            }
        }
        if !found {
            proof {
                lemma_last_index_of_absent(s@, '@');
            }
            return Err(InvalidReason::EmailMissingAtSymbol);
        }
        proof {
            lemma_last_index_of_witness(s@, '@', at as int);
        }
        if at == n - 1 {
            return Err(InvalidReason::EmailMissingDomain);
        }
        if at == 0 {
            return Err(InvalidReason::EmailMissingSubject);
        }
        if !validate_email_format(s) {
            return Err(InvalidReason::EmailFormatWrong);
        }
        Ok(SubscriberEmail(email))
    }

    /// The address as a string slice.
    pub fn as_ref(&self) -> (r: &str)
        ensures
            r@ == self@,
    {
        self.0.as_str()
    }
}

/// What `graphemes(true).count()` yields: the number of extended grapheme
/// clusters, a function of the characters alone.
pub uninterp spec fn grapheme_count(s: Seq<char>) -> nat;

/// Relies on `unicode_segmentation::UnicodeSegmentation::graphemes` with the
/// extended grapheme definition: the cluster count depends on the characters
/// alone.
#[verifier::external_body]
fn count_graphemes(s: &str) -> (r: usize)
    ensures
        r as nat == grapheme_count(s@),
{
    s.graphemes(true).count()
}

/// The characters a subscriber name may not contain.
pub open spec fn forbidden_name_char(c: char) -> bool {
    c == '/' || c == '(' || c == ')' || c == '"' || c == '<' || c == '>' || c == '\\'
        || c == '{' || c == '}'
}

/// Whether `c` is one of the forbidden name characters.
fn is_forbidden_name_char(c: char) -> (r: bool)
    ensures
        r == forbidden_name_char(c),
{
    c == '/' || c == '(' || c == ')' || c == '"' || c == '<' || c == '>' || c == '\\'
        || c == '{' || c == '}'
}

/// The full acceptance condition of `SubscriberName::parse`.
pub open spec fn valid_subscriber_name(s: Seq<char>) -> bool {
    &&& !spec_is_blank(s)
    &&& grapheme_count(s) <= 256
    &&& forall|i: int| 0 <= i < s.len() ==> !forbidden_name_char(s[i])
}

/// The rejection `SubscriberName::parse` reports for `s`, if any, in the
/// order the checks run.
pub open spec fn name_parse_error(s: Seq<char>) -> Option<BizErrorEnum> {
    if spec_is_blank(s) {
        Some(BizErrorEnum::SubscriberNameIsEmpty)
    } else if grapheme_count(s) > 256 {
        Some(BizErrorEnum::SubscriberNameIsTooLong)
    } else if exists|i: int| 0 <= i < s.len() && forbidden_name_char(s[i]) {
        Some(BizErrorEnum::SubscriberNameContainsIllegalCharacter)
    } else {
        None
    }
}

/// A subscriber name that passed `SubscriberName::parse`.
#[derive(Debug)]
pub struct SubscriberName(String);

impl View for SubscriberName {
    type V = Seq<char>;

    closed spec fn view(&self) -> Seq<char> {
        self.0@
    }
}

impl SubscriberName {
    /// Validates `name`: rejects blank names, names of more than 256
    /// extended grapheme clusters, and names holding a forbidden character;
    /// accepts the rest unchanged.
    pub fn parse(name: String) -> (r: Result<Self, BizErrorEnum>)
        ensures
            match name_parse_error(name@) {
                Some(e) => r == Err::<Self, BizErrorEnum>(e),
                None => r matches Ok(v) && v@ == name@ && valid_subscriber_name(name@),
            },
    {
        if is_blank(name.as_str()) {
            return Err(BizErrorEnum::SubscriberNameIsEmpty);
        }
        if count_graphemes(name.as_str()) > 256 {
            return Err(BizErrorEnum::SubscriberNameIsTooLong);
        }
        let s = name.as_str();
        let n = s.unicode_len();
        let mut i: usize = 0;
        while i < n
            invariant
                0 <= i <= n,
                n == s@.len(),
                s@ == name@,
                !spec_is_blank(name@),
                grapheme_count(name@) <= 256,
                forall|j: int| 0 <= j < i ==> !forbidden_name_char(s@[j]),
            decreases n - i,
        {
            if is_forbidden_name_char(s.get_char(i)) {
                proof {
                    assert(forbidden_name_char(name@[i as int]));
                    assert(exists|j: int|
                        0 <= j < name@.len() && forbidden_name_char(name@[j]));
                }
                return Err(BizErrorEnum::SubscriberNameContainsIllegalCharacter);
            }
            i = i + 1;
        }
        Ok(SubscriberName(name))
    }

    /// The name as a string slice.
    pub fn as_ref(&self) -> (r: &str)
        ensures
            r@ == self@,
    {
        self.0.as_str()
    }
}

/// A validated new subscription: a parsed email address and a parsed name.
#[derive(Debug)]
pub struct NewSubscriber {
    email: SubscriberEmail,
    name: SubscriberName,
}

/// Mathematical value of a `NewSubscriber`: its address and name.
pub struct NewSubscriberModel {
    pub email: Seq<char>,
    pub name: Seq<char>,
}

impl View for NewSubscriber {
    type V = NewSubscriberModel;

    closed spec fn view(&self) -> NewSubscriberModel {
        NewSubscriberModel { email: self.email@, name: self.name@ }
    }
}

impl NewSubscriber {
    /// Pairs an already validated email and name.
    pub fn new(email: SubscriberEmail, name: SubscriberName) -> (r: Self)
        ensures
            r@.email == email@,
            r@.name == name@,
    {
        NewSubscriber { email, name }
    }

    /// The subscriber's address as a string slice.
    pub fn email(&self) -> (r: &str)
        ensures
            r@ == self@.email,
    {
        self.email.as_ref()
    }

    /// The subscriber's name as a string slice.
    pub fn name(&self) -> (r: &str)
        ensures
            r@ == self@.name,
    {
        self.name.as_ref()
    }

    /// The parsed email address.
    pub fn get_email(&self) -> (r: &SubscriberEmail)
        ensures
            r@ == self@.email,
    {
        &self.email
    }

    /// The parsed name.
    pub fn get_name(&self) -> (r: &SubscriberName)
        ensures
            r@ == self@.name,
    {
        &self.name
    }
}

} // verus!
