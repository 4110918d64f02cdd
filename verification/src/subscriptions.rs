//! The subscription flow: validate a sign-up form, insert the pending
//! subscriber and their confirmation token in one transaction, send the
//! confirmation email, and confirm a subscriber when the token comes back.

use crate::ApplicationBaseUrl;
use crate::domain::{NewSubscriber, SubscriberEmail, SubscriberName, email_parse_error,
    name_parse_error};
use crate::error::{BizErrorEnum, SubscribeError};
use crate::domain::InvalidReason;
use crate::issue_delivery_worker::{DeliveryTransport, SentEmailModel};
use crate::request::{ConfirmData, FormData};
use crate::store::{
    NewsletterStore, StoreModel, SubscriberModel, SubscriberRow, SubscriberStatus, TokenModel,
    TokenRow, find_token, lemma_email_taken_exists, lemma_find_token_exists,
    lemma_subscriber_views_push, lemma_token_views_push, subscriber_email_taken,
    subscriber_views, tasks_for_issue,
};
use vstd::prelude::*;
use vstd::string::*;

verus! {

/// Relies on std's `char::to_string`: a string holding exactly the one
/// character.
#[verifier::external_body]
fn char_to_string(c: char) -> (r: String)
    ensures
        r@ == seq![c],
{
    c.to_string()
}

/// Relies on `rand::random`: one byte from the thread-local generator.
/// Nothing is promised of its value.
#[verifier::external_body]
fn random_byte() -> u8 {
    rand::random()
}

/// An ASCII digit or letter.
pub open spec fn is_ascii_alphanumeric_char(c: char) -> bool {
    ||| 48 <= c as int <= 57
    ||| 65 <= c as int <= 90
    ||| 97 <= c as int <= 122
}

/// Folds a byte into the 62-character alphanumeric alphabet.
fn alphanumeric_char(x: u8) -> (c: char)
    ensures
        is_ascii_alphanumeric_char(c),
{
    let idx = x % 62;
    let b: u8 = if idx < 26 {
        65 + idx
    } else if idx < 52 {
        97 + (idx - 26)
    } else {
        48 + (idx - 52)
    };
    b as char
}

/// Generates a random 25-characters-long case-sensitive subscription token.
pub fn generate_subscription_token() -> (r: String)
    ensures
        r@.len() == 25,
        forall|i: int| 0 <= i < r@.len() ==> is_ascii_alphanumeric_char(r@[i]),
{
    let mut out = String::new();
    let mut i: usize = 0;
    while i < 25
        invariant
            0 <= i <= 25,
            out@.len() == i,
            forall|j: int| 0 <= j < out@.len() ==> is_ascii_alphanumeric_char(out@[j]),
        decreases 25 - i,
    {
        let c = alphanumeric_char(random_byte());
        let s = char_to_string(c);
        out.append(s.as_str());
        i = i + 1;
    }
    out
}

/// Saves a new subscriber as pending confirmation. The unique index on the
/// email column rejects a second sign-up for the same address.
pub fn insert_subscriber(
    store: &mut NewsletterStore,
    subscriber: &NewSubscriber,
    subscriber_id: u128,
    now: i64,
) -> (r: Result<u128, BizErrorEnum>)
    requires
        old(store)@.wf(),
        forall|i: int|
            0 <= i < old(store)@.subscribers.len()
                ==> (#[trigger] old(store)@.subscribers[i].id) != subscriber_id,
    ensures
        ({
            if subscriber_email_taken(old(store)@.subscribers, subscriber@.email) {
                r == Err::<u128, BizErrorEnum>(BizErrorEnum::InsertSubscriptionsError)
                    && *final(store) == *old(store)
            } else {
                r == Ok::<u128, BizErrorEnum>(subscriber_id) && final(store)@ == (StoreModel {
                    subscribers: old(store)@.subscribers.push(
                        SubscriberModel {
                            id: subscriber_id,
                            email: subscriber@.email,
                            name: subscriber@.name,
                            status: SubscriberStatus::PendingConfirmation,
                            subscribed_at: now,
                        },
                    ),
                    ..old(store)@
                }) && final(store)@.wf()
            }
        }),
{
    let ghost subs = store@.subscribers;
    let email = String::from_str(subscriber.email());
    let n = store.subscribers.len();
    let mut i: usize = 0;
    proof {
        assert(subs.skip(0) =~= subs);
    }
    while i < n
        invariant
            0 <= i <= n,
            n == store.subscribers.len(),
            *store == *old(store),
            subs == store@.subscribers,
            subs.len() == n,
            email@ == subscriber@.email,
            subscriber_email_taken(subs, subscriber@.email) == subscriber_email_taken(
                subs.skip(i as int),
                subscriber@.email,
            ),
        decreases n - i,
    {
        proof {
            assert(subs.skip(i as int)[0] == subs[i as int]);
            assert(subs.skip(i as int).drop_first() =~= subs.skip(i + 1));
        }
        if store.subscribers[i].email == email {
            return Err(BizErrorEnum::InsertSubscriptionsError);
        }
        i = i + 1;
    }
    proof {
        assert(subs.skip(n as int) =~= Seq::<SubscriberModel>::empty());
        lemma_email_taken_exists(subs, subscriber@.email);
    }
    let row = SubscriberRow {
        id: subscriber_id,
        email,
        name: String::from_str(subscriber.name()),
        status: SubscriberStatus::PendingConfirmation,
        subscribed_at: now,
    };
    proof {
        lemma_subscriber_views_push(store.subscribers@, row);
    }
    store.subscribers.push(row);
    Ok(subscriber_id)
}

/// Saves a subscriber's confirmation token. The unique index on the token
/// column rejects a token that is already stored.
pub fn store_token(
    store: &mut NewsletterStore,
    subscriber_id: u128,
    subscription_token: &str,
) -> (r: Result<(), BizErrorEnum>)
    requires
        old(store)@.wf(),
    ensures
        ({
            if find_token(old(store)@.subscription_tokens, subscription_token@) is Some {
                r == Err::<(), BizErrorEnum>(BizErrorEnum::InsertSubscriptionTokensError)
                    && *final(store) == *old(store)
            } else {
                r == Ok::<(), BizErrorEnum>(()) && final(store)@ == (StoreModel {
                    subscription_tokens: old(store)@.subscription_tokens.push(
                        TokenModel { subscription_token: subscription_token@, subscriber_id },
                    ),
                    ..old(store)@
                }) && final(store)@.wf()
            }
        }),
{
    let ghost rows = store@.subscription_tokens;
    let token = String::from_str(subscription_token);
    let n = store.subscription_tokens.len();
    let mut i: usize = 0;
    proof {
        assert(rows.skip(0) =~= rows);
    }
    while i < n
        invariant
            0 <= i <= n,
            n == store.subscription_tokens.len(),
            *store == *old(store),
            rows == store@.subscription_tokens,
            rows.len() == n,
            token@ == subscription_token@,
            find_token(rows, subscription_token@) == find_token(
                rows.skip(i as int),
                subscription_token@,
            ),
        decreases n - i,
    {
        proof {
            assert(rows.skip(i as int)[0] == rows[i as int]);
            assert(rows.skip(i as int).drop_first() =~= rows.skip(i + 1));
        }
        if store.subscription_tokens[i].subscription_token == token {
            return Err(BizErrorEnum::InsertSubscriptionTokensError);
        }
        i = i + 1;
    }
    proof {
        assert(rows.skip(n as int) =~= Seq::<TokenModel>::empty());
        lemma_find_token_exists(rows, subscription_token@);
    }
    let row = TokenRow { subscription_token: token, subscriber_id };
    proof {
        lemma_token_views_push(store.subscription_tokens@, row);
    }
    store.subscription_tokens.push(row);
    Ok(())
}

/// Looks up which subscriber a confirmation token belongs to.
pub fn get_subscriber_id_from_token(store: &NewsletterStore, token: &str) -> (r: Option<u128>)
    ensures
        match find_token(store@.subscription_tokens, token@) {
            Some(t) => r == Some::<u128>(t.subscriber_id),
            None => r is None,
        },
{
    let ghost rows = store@.subscription_tokens;
    let token_string = String::from_str(token);
    let n = store.subscription_tokens.len();
    let mut i: usize = 0;
    proof {
        assert(rows.skip(0) =~= rows);
    }
    while i < n
        invariant
            0 <= i <= n,
            n == store.subscription_tokens.len(),
            rows == store@.subscription_tokens,
            rows.len() == n,
            token_string@ == token@,
            find_token(rows, token@) == find_token(rows.skip(i as int), token@),
        decreases n - i,
    {
        proof {
            assert(rows.skip(i as int)[0] == rows[i as int]);
            assert(rows.skip(i as int).drop_first() =~= rows.skip(i + 1));
        }
        let row = &store.subscription_tokens[i];
        if row.subscription_token == token_string {
            return Some(row.subscriber_id);
        }
        i = i + 1;
    }
    proof {
        assert(rows.skip(n as int) =~= Seq::<TokenModel>::empty());
    }
    None
}

/// The subscribers table with the rows of `id` marked confirmed.
pub open spec fn confirm_subscriber_transition(
    subs: Seq<SubscriberModel>,
    id: u128,
) -> Seq<SubscriberModel> {
    subs.map_values(
        |r: SubscriberModel|
            if r.id == id {
                SubscriberModel { status: SubscriberStatus::Confirmed, ..r }
            } else {
                r
            },
    )
}

/// Marks a subscriber's rows as confirmed. Confirming an id with no row
/// changes nothing, as an `UPDATE` matching zero rows would.
pub fn confirm_subscriber(store: &mut NewsletterStore, id: u128) -> (r: Result<(), BizErrorEnum>)
    ensures
        r is Ok,
        final(store)@ == (StoreModel {
            subscribers: confirm_subscriber_transition(old(store)@.subscribers, id),
            ..old(store)@
        }),
        old(store)@.wf() ==> final(store)@.wf(),
{
    let ghost subs = store@.subscribers;
    let mut updated: Vec<SubscriberRow> = Vec::new();
    let n = store.subscribers.len();
    let mut i: usize = 0;
    while i < n
        invariant
            0 <= i <= n,
            n == store.subscribers.len(),
            *store == *old(store),
            subs == store@.subscribers,
            subs.len() == n,
            subscriber_views(updated@) == confirm_subscriber_transition(subs, id).take(i as int),
        decreases n - i,
    {
        let row = &store.subscribers[i];
        let status = if row.id == id {
            SubscriberStatus::Confirmed
        } else {
            row.status
        };
        let copy = SubscriberRow {
            id: row.id,
            email: row.email.clone(),
            name: row.name.clone(),
            status,
            subscribed_at: row.subscribed_at,
        };
        proof {
            let u = confirm_subscriber_transition(subs, id);
            lemma_subscriber_views_push(updated@, copy);
            assert(copy@ == u[i as int]);
            assert(u.take(i as int).push(u[i as int]) =~= u.take(i + 1));
        }
        updated.push(copy);
        i = i + 1;
    }
    proof {
        let u = confirm_subscriber_transition(subs, id);
        assert(u.take(n as int) =~= u);
    }
    store.subscribers = updated;
    proof {
        assert(store@ =~= (StoreModel {
            subscribers: confirm_subscriber_transition(subs, id),
            ..old(store)@
        }));
    }
    Ok(())
}

/// Confirms the subscriber a token belongs to: an unknown token is
/// rejected; a known one marks its subscriber confirmed.
pub fn confirm(store: &mut NewsletterStore, confirm_data: ConfirmData) -> (r: Result<
    (),
    BizErrorEnum,
>)
    ensures
        ({
            match find_token(old(store)@.subscription_tokens, confirm_data.subscription_token@) {
                None => r == Err::<(), BizErrorEnum>(BizErrorEnum::SubscriptionTokenInvalidError)
                    && *final(store) == *old(store),
                Some(t) => r is Ok && final(store)@ == (StoreModel {
                    subscribers: confirm_subscriber_transition(
                        old(store)@.subscribers,
                        t.subscriber_id,
                    ),
                    ..old(store)@
                }),
            }
        }),
        old(store)@.wf() ==> final(store)@.wf(),
{
    let token = confirm_data.subscription_token;
    let subscriber_id = get_subscriber_id_from_token(store, token.as_str());
    match subscriber_id {
        None => Err(BizErrorEnum::SubscriptionTokenInvalidError),
        Some(subscriber_id) => {
            match confirm_subscriber(store, subscriber_id) {
                Ok(_) => Ok(()),
                Err(e) => Err(e),
            }
        },
    }
}

/// The confirmation link sent to a new subscriber.
pub open spec fn confirmation_link(base_url: Seq<char>, token: Seq<char>) -> Seq<char> {
    base_url + "/subscriptions/confirm?subscription_token="@ + token
}

/// The HTML body of the confirmation email.
pub open spec fn confirmation_html(link: Seq<char>) -> Seq<char> {
    "Welcome to our newsletter!<br />Click <a href=\""@ + link
        + "\">here</a> to confirm your subscription."@
}

/// The plain-text body of the confirmation email.
pub open spec fn confirmation_text(link: Seq<char>) -> Seq<char> {
    "Welcome to our newsletter!\nVisit "@ + link + " to confirm your subscription."@
}

/// Sends the confirmation email for a new subscription: a welcome message
/// whose two bodies carry the subscriber's confirmation link.
pub fn send_confirmation_email(
    email_client: &mut DeliveryTransport,
    new_subscriber: &NewSubscriber,
    app_base_url: &ApplicationBaseUrl,
    subscription_token: &str,
) -> (r: Result<(), BizErrorEnum>)
    ensures
        ({
            let link = confirmation_link(app_base_url.0@, subscription_token@);
            final(email_client)@.sent == old(email_client)@.sent.push(
                SentEmailModel {
                    recipient: new_subscriber@.email,
                    subject: "Welcome!"@,
                    html_content: confirmation_html(link),
                    text_content: confirmation_text(link),
                },
            )
        }),
        final(email_client)@.outcomes == if old(email_client)@.outcomes.len() > 0 {
            old(email_client)@.outcomes.drop_first()
        } else {
            old(email_client)@.outcomes
        },
        r is Ok <==> (old(email_client)@.outcomes.len() == 0 || old(email_client)@.outcomes[0]),
        r is Err ==> r == Err::<(), BizErrorEnum>(BizErrorEnum::SendEmailError),
{
    let link = String::from_str(app_base_url.0.as_str()).concat(
        "/subscriptions/confirm?subscription_token=",
    ).concat(subscription_token);
    let html_body = String::from_str("Welcome to our newsletter!<br />Click <a href=\"").concat(
        link.as_str(),
    ).concat("\">here</a> to confirm your subscription.");
    let plain_body = String::from_str("Welcome to our newsletter!\nVisit ").concat(
        link.as_str(),
    ).concat(" to confirm your subscription.");
    email_client.send_email(
        new_subscriber.get_email(),
        "Welcome!",
        html_body.as_str(),
        plain_body.as_str(),
    )
}

/// The rejection the subscription endpoint reports for a form, if any: the
/// name is validated first, then the email.
pub open spec fn subscribe_validation_error(email: Seq<char>, name: Seq<char>) -> Option<
    InvalidReason,
> {
    match name_parse_error(name) {
        Some(e) => Some(
            if e == BizErrorEnum::SubscriberNameIsTooLong {
                InvalidReason::NameIsTooLong
            } else if e == BizErrorEnum::SubscriberNameContainsIllegalCharacter {
                InvalidReason::NameContainsForbiddenCharacters
            } else {
                InvalidReason::NameIsEmpty
            },
        ),
        None => email_parse_error(email),
    }
}

/// The subscription endpoint's work: validate the form, insert the pending
/// subscriber and their token in one transaction, and only then send the
/// confirmation email. A validation failure rejects the request before
/// anything is written; a duplicate email or token aborts the transaction
/// whole; a send failure after the commit leaves the subscription stored.
pub fn subscribe(
    store: &mut NewsletterStore,
    form: FormData,
    subscriber_id: u128,
    subscription_token: &str,
    now: i64,
    email_client: &mut DeliveryTransport,
    app_base_url: &ApplicationBaseUrl,
) -> (r: Result<(), SubscribeError>)
    requires
        old(store)@.wf(),
        forall|i: int|
            0 <= i < old(store)@.subscribers.len()
                ==> (#[trigger] old(store)@.subscribers[i].id) != subscriber_id,
    ensures
        ({
            match subscribe_validation_error(form.email@, form.name@) {
                Some(reason) => r == Err::<(), SubscribeError>(
                    SubscribeError::ValidationError(reason),
                ) && *final(store) == *old(store) && *final(email_client) == *old(email_client),
                None => {
                    if subscriber_email_taken(old(store)@.subscribers, form.email@) || find_token(
                        old(store)@.subscription_tokens,
                        subscription_token@,
                    ) is Some {
                        r == Err::<(), SubscribeError>(SubscribeError::UnexpectedError)
                            && final(store)@ == old(store)@
                            && *final(email_client) == *old(email_client)
                    } else {
                        &&& final(store)@ == (StoreModel {
                            subscribers: old(store)@.subscribers.push(
                                SubscriberModel {
                                    id: subscriber_id,
                                    email: form.email@,
                                    name: form.name@,
                                    status: SubscriberStatus::PendingConfirmation,
                                    subscribed_at: now,
                                },
                            ),
                            subscription_tokens: old(store)@.subscription_tokens.push(
                                TokenModel {
                                    subscription_token: subscription_token@,
                                    subscriber_id,
                                },
                            ),
                            ..old(store)@
                        })
                        &&& final(store)@.wf()
                        &&& final(email_client)@.sent == old(email_client)@.sent.push(
                            SentEmailModel {
                                recipient: form.email@,
                                subject: "Welcome!"@,
                                html_content: confirmation_html(
                                    confirmation_link(app_base_url.0@, subscription_token@),
                                ),
                                text_content: confirmation_text(
                                    confirmation_link(app_base_url.0@, subscription_token@),
                                ),
                            },
                        )
                        &&& (r is Ok <==> (old(email_client)@.outcomes.len() == 0 || old(
                            email_client,
                        )@.outcomes[0]))
                        &&& (r is Err ==> r == Err::<(), SubscribeError>(
                            SubscribeError::UnexpectedError,
                        ))
                    }
                },
            }
        }),
{
    let FormData { email, name } = form;
    let name = match SubscriberName::parse(name) {
        Ok(name) => name,
        Err(e) => {
            let reason = match e {
                BizErrorEnum::SubscriberNameIsTooLong => InvalidReason::NameIsTooLong,
                BizErrorEnum::SubscriberNameContainsIllegalCharacter
                    => InvalidReason::NameContainsForbiddenCharacters,
                _ => InvalidReason::NameIsEmpty,
            };
            return Err(SubscribeError::ValidationError(reason));
        },
    };
    let email = match SubscriberEmail::parse(email) {
        Ok(email) => email,
        Err(reason) => {
            return Err(SubscribeError::ValidationError(reason));
        },
    };
    let subscriber = NewSubscriber::new(email, name);
    let subscriber_id = match insert_subscriber(store, &subscriber, subscriber_id, now) {
        Ok(id) => id,
        Err(_) => {
            return Err(SubscribeError::UnexpectedError);
        },
    };
    match store_token(store, subscriber_id, subscription_token) {
        Ok(_) => {},
        Err(_) => {
            // The token collided: the enclosing transaction rolls back,
            // taking the subscriber row with it.
            let ghost mid_subs = store.subscribers@;
            store.subscribers.pop();
            proof {
                assert(subscriber_views(mid_subs).len() == mid_subs.len());
                assert(mid_subs.len() == old(store)@.subscribers.len() + 1);
                assert(store.subscribers@ == mid_subs.drop_last());
                assert forall|i: int| 0 <= i < mid_subs.len() - 1 implies mid_subs[i]@ == old(
                    store,
                )@.subscribers[i] by {
                    assert(subscriber_views(mid_subs)[i] == mid_subs[i]@);
                }
                assert forall|i: int|
                    0 <= i < store.subscribers@.len() implies subscriber_views(
                    store.subscribers@,
                )[i] == old(store)@.subscribers[i] by {
                    assert(subscriber_views(store.subscribers@)[i] == store.subscribers@[i]@);
                    assert(store.subscribers@[i] == mid_subs[i]);
                }
                assert(subscriber_views(store.subscribers@) =~= old(store)@.subscribers);
                assert(store@ =~= old(store)@);
            }
            return Err(SubscribeError::UnexpectedError);
        },
    }
    match send_confirmation_email(email_client, &subscriber, app_base_url, subscription_token) {
        Ok(_) => Ok(()),
        Err(_) => Err(SubscribeError::UnexpectedError),
    }
}

/// Later sign-ups and confirmations do not touch the delivery queue: the
/// tasks an issue received at publish time are a snapshot, and subscribers
/// added or confirmed afterwards get no task for past issues.
pub proof fn lemma_enumeration_is_a_snapshot(
    s: StoreModel,
    row: SubscriberModel,
    confirmed_id: u128,
    newsletter_issue_id: u128,
)
    ensures
        tasks_for_issue(
            (StoreModel { subscribers: s.subscribers.push(row), ..s }).issue_delivery_queue,
            newsletter_issue_id,
        ) == tasks_for_issue(s.issue_delivery_queue, newsletter_issue_id),
        tasks_for_issue(
            (StoreModel {
                subscribers: confirm_subscriber_transition(s.subscribers, confirmed_id),
                ..s
            }).issue_delivery_queue,
            newsletter_issue_id,
        ) == tasks_for_issue(s.issue_delivery_queue, newsletter_issue_id),
{
}

} // verus!
