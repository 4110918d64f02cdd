//! The publication commit protocol: resolve the idempotency key, and on a
//! miss insert the issue, enqueue one delivery task per confirmed
//! subscriber, and commit all of it together with the cached response.

use crate::error::BizErrorEnum;
use crate::http::{StoredResponse, redirect_to, see_other_model};
use crate::idempotency::{IdempotencyKey, idempotency_key_error};
use crate::persistence::{
    NextAction, PublishTransaction, TransactionModel, commit_transition, transaction_wf,
    try_processing, update_response,
};
use crate::request::NewsletterData;
use crate::store::{
    DeliveryTask, IssueModel, NewsletterIssue, NewsletterStore, StoreModel, SubscriberModel,
    SubscriberStatus, TaskModel, confirmed_emails, find_issue, find_record,
    lemma_find_issue_exists, lemma_find_record_push, lemma_task_views_push, task_views,
    tasks_for_issue,
};
use vstd::prelude::*;
use vstd::string::*;

verus! {

/// Records the new issue's row in the open transaction and hands its id
/// back. Nothing reaches the store before the commit.
pub fn insert_newsletter_issue(
    transaction: &mut PublishTransaction,
    newsletter_issue_id: u128,
    title: &str,
    text_content: &str,
    html_content: &str,
    now: i64,
) -> (r: u128)
    requires
        old(transaction)@.pending_issue is None,
    ensures
        r == newsletter_issue_id,
        final(transaction)@ == (TransactionModel {
            pending_issue: Some(
                IssueModel {
                    newsletter_issue_id,
                    title: title@,
                    text_content: text_content@,
                    html_content: html_content@,
                    published_at: now,
                },
            ),
            ..old(transaction)@
        }),
{
    transaction.pending_issue = Some(
        NewsletterIssue {
            newsletter_issue_id,
            title: String::from_str(title),
            text_content: String::from_str(text_content),
            html_content: String::from_str(html_content),
            published_at: now,
        },
    );
    newsletter_issue_id
}

/// One unclaimed delivery task per email, in order, all for one issue.
pub open spec fn tasks_from_emails(emails: Seq<Seq<char>>, newsletter_issue_id: u128) -> Seq<
    TaskModel,
> {
    emails.map_values(
        |e: Seq<char>|
            TaskModel { newsletter_issue_id, subscriber_email: e, claimed: false },
    )
}

/// Records, in the open transaction, one delivery task per subscriber whose
/// status is confirmed at this instant — the snapshot the single set-based
/// insert takes. Nothing reaches the store before the commit.
pub fn enqueue_delivery_tasks(
    store: &NewsletterStore,
    transaction: &mut PublishTransaction,
    newsletter_issue_id: u128,
)
    requires
        old(transaction)@.pending_tasks.len() == 0,
    ensures
        final(transaction)@ == (TransactionModel {
            pending_tasks: tasks_from_emails(
                confirmed_emails(store@.subscribers),
                newsletter_issue_id,
            ),
            ..old(transaction)@
        }),
{
    let ghost subs = store@.subscribers;
    let ghost tx0 = old(transaction)@;
    let n = store.subscribers.len();
    let mut i: usize = 0;
    proof {
        assert(subs.skip(0) =~= subs);
        assert(task_views(transaction.pending_tasks@) =~= Seq::<TaskModel>::empty());
        assert(tasks_from_emails(confirmed_emails(subs), newsletter_issue_id)
            =~= task_views(transaction.pending_tasks@) + tasks_from_emails(
            confirmed_emails(subs.skip(0)),
            newsletter_issue_id,
        ));
    }
    while i < n
        invariant
            0 <= i <= n,
            n == store.subscribers.len(),
            subs == store@.subscribers,
            subs.len() == n,
            transaction@.pending_issue == tx0.pending_issue,
            transaction@.user_id == tx0.user_id,
            transaction@.idempotency_key == tx0.idempotency_key,
            transaction@.created_at == tx0.created_at,
            tasks_from_emails(confirmed_emails(subs), newsletter_issue_id) == task_views(
                transaction.pending_tasks@,
            ) + tasks_from_emails(confirmed_emails(subs.skip(i as int)), newsletter_issue_id),
        decreases n - i,
    {
        proof {
            assert(subs.skip(i as int)[0] == subs[i as int]);
            assert(subs.skip(i as int).drop_first() =~= subs.skip(i + 1));
        }
        let row = &store.subscribers[i];
        match row.status {
            SubscriberStatus::Confirmed => {
                let task = DeliveryTask {
                    newsletter_issue_id,
                    subscriber_email: row.email.clone(),
                    claimed: false,
                };
                proof {
                    lemma_task_views_push(transaction.pending_tasks@, task);
                    let head = confirmed_emails(subs.skip(i as int));
                    let tail = confirmed_emails(subs.skip(i + 1));
                    assert(head =~= seq![subs[i as int].email] + tail);
                    assert(tasks_from_emails(head, newsletter_issue_id) =~= seq![task@]
                        + tasks_from_emails(tail, newsletter_issue_id));
                    assert(task_views(transaction.pending_tasks@).push(task@) + tasks_from_emails(
                        tail,
                        newsletter_issue_id,
                    ) =~= task_views(transaction.pending_tasks@) + tasks_from_emails(
                        head,
                        newsletter_issue_id,
                    ));
                }
                transaction.pending_tasks.push(task);
            },
            SubscriberStatus::PendingConfirmation => {
                proof {
                    assert(confirmed_emails(subs.skip(i as int)) =~= confirmed_emails(
                        subs.skip(i + 1),
                    ));
                }
            },
        }
        i = i + 1;
    }
    proof {
        assert(subs.skip(n as int) =~= Seq::<SubscriberModel>::empty());
        assert(confirmed_emails(subs.skip(n as int)) =~= Seq::<Seq<char>>::empty());
        assert(tasks_from_emails(confirmed_emails(subs.skip(n as int)), newsletter_issue_id)
            =~= Seq::<TaskModel>::empty());
        assert(task_views(transaction.pending_tasks@) + Seq::<TaskModel>::empty()
            =~= task_views(transaction.pending_tasks@));
        assert(transaction@ =~= (TransactionModel {
            pending_tasks: tasks_from_emails(confirmed_emails(subs), newsletter_issue_id),
            ..tx0
        }));
    }
}

/// Every email the confirmed-subscriber snapshot lists is the email of some
/// subscriber row.
proof fn lemma_confirmed_emails_membership(subs: Seq<SubscriberModel>)
    ensures
        forall|k: int|
            0 <= k < confirmed_emails(subs).len() ==> exists|i: int|
                0 <= i < subs.len() && subs[i].email == #[trigger] confirmed_emails(subs)[k],
    decreases subs.len(),
{
    if subs.len() > 0 {
        lemma_confirmed_emails_membership(subs.drop_first());
        let rest = confirmed_emails(subs.drop_first());
        assert forall|k: int| 0 <= k < confirmed_emails(subs).len() implies exists|i: int|
            0 <= i < subs.len() && subs[i].email == #[trigger] confirmed_emails(subs)[k] by {
            if subs[0].status == SubscriberStatus::Confirmed {
                if k == 0 {
                    assert(subs[0].email == confirmed_emails(subs)[0]);
                } else {
                    assert(confirmed_emails(subs)[k] == rest[k - 1]);
                    let i = choose|i: int|
                        0 <= i < subs.drop_first().len() && subs.drop_first()[i].email == rest[k
                            - 1];
                    assert(subs[i + 1].email == confirmed_emails(subs)[k]);
                }
            } else {
                assert(confirmed_emails(subs)[k] == rest[k]);
                let i = choose|i: int|
                    0 <= i < subs.drop_first().len() && subs.drop_first()[i].email == rest[k];
                assert(subs[i + 1].email == confirmed_emails(subs)[k]);
            }
        }
    }
}

/// With unique subscriber emails, the confirmed-subscriber snapshot lists
/// each address at most once.
pub proof fn lemma_confirmed_emails_distinct(subs: Seq<SubscriberModel>)
    requires
        forall|i: int, j: int| 0 <= i < j < subs.len() ==> subs[i].email != subs[j].email,
    ensures
        forall|i: int, j: int|
            0 <= i < j < confirmed_emails(subs).len() ==> confirmed_emails(subs)[i]
                != confirmed_emails(subs)[j],
    decreases subs.len(),
{
    if subs.len() > 0 {
        assert(forall|i: int, j: int|
            0 <= i < j < subs.drop_first().len() ==> subs.drop_first()[i].email
                != subs.drop_first()[j].email) by {
            assert(forall|i: int|
                0 <= i < subs.drop_first().len() ==> subs.drop_first()[i] == subs[i + 1]);
        }
        lemma_confirmed_emails_distinct(subs.drop_first());
        lemma_confirmed_emails_membership(subs.drop_first());
        let rest = confirmed_emails(subs.drop_first());
        if subs[0].status == SubscriberStatus::Confirmed {
            assert forall|k: int| 0 <= k < rest.len() implies rest[k] != subs[0].email by {
                let i = choose|i: int|
                    0 <= i < subs.drop_first().len() && subs.drop_first()[i].email == rest[k];
                assert(subs[i + 1].email == rest[k]);
                assert(subs[0].email != subs[i + 1].email);
            }
            assert forall|i: int, j: int|
                0 <= i < j < confirmed_emails(subs).len() implies confirmed_emails(subs)[i]
                != confirmed_emails(subs)[j] by {
                if i == 0 {
                    assert(confirmed_emails(subs)[j] == rest[j - 1]);
                } else {
                    assert(confirmed_emails(subs)[i] == rest[i - 1]);
                    assert(confirmed_emails(subs)[j] == rest[j - 1]);
                }
            }
        }
    }
}

/// The store after a publish request that found no cached record: the
/// committed transaction holds the new issue and one unclaimed task per
/// confirmed subscriber, and the redirect response is cached under the key.
pub open spec fn fresh_publish_transition(
    s: StoreModel,
    user_id: u128,
    key: Seq<char>,
    title: Seq<char>,
    text_content: Seq<char>,
    html_content: Seq<char>,
    newsletter_issue_id: u128,
    now: i64,
) -> StoreModel {
    commit_transition(
        s,
        TransactionModel {
            user_id,
            idempotency_key: key,
            created_at: now,
            pending_issue: Some(
                IssueModel {
                    newsletter_issue_id,
                    title,
                    text_content,
                    html_content,
                    published_at: now,
                },
            ),
            pending_tasks: tasks_from_emails(confirmed_emails(s.subscribers), newsletter_issue_id),
        },
        see_other_model("/admin/newsletter"@),
    )
}

/// The admin publish endpoint's work, spending a single transaction: the
/// idempotency key is validated before anything else; a completed record
/// replays its cached response bit for bit and changes nothing; a bare
/// placeholder fails the request and changes nothing; otherwise the issue
/// insert, the per-subscriber task enqueue, and the response cache commit
/// together, atomically.
pub fn publish_newsletter(
    store: &mut NewsletterStore,
    user_id: u128,
    data: NewsletterData,
    newsletter_issue_id: u128,
    now: i64,
) -> (r: Result<StoredResponse, BizErrorEnum>)
    requires
        old(store)@.wf(),
        find_issue(old(store)@.newsletter_issues, newsletter_issue_id) is None,
    ensures
        ({
            let key = data.idempotency_key@;
            match idempotency_key_error(key) {
                Some(e) => r == Err::<StoredResponse, BizErrorEnum>(e) && *final(store) == *old(
                    store,
                ),
                None => match find_record(old(store)@.idempotency, user_id, key) {
                    Some(rec) => match rec.response {
                        Some(resp) => r matches Ok(out) && out@ == resp && *final(store) == *old(
                            store,
                        ),
                        None => r == Err::<StoredResponse, BizErrorEnum>(
                            BizErrorEnum::FindExpectedSavedRecordError,
                        ) && *final(store) == *old(store),
                    },
                    None => r matches Ok(out) && out@ == see_other_model("/admin/newsletter"@)
                        && final(store)@ == fresh_publish_transition(
                        old(store)@,
                        user_id,
                        key,
                        data.title@,
                        data.text_content@,
                        data.html_content@,
                        newsletter_issue_id,
                        now,
                    ) && final(store)@.wf(),
                },
            }
        }),
{
    let NewsletterData { title, text_content, html_content, idempotency_key } = data;
    let idempotency_key = match IdempotencyKey::try_from(idempotency_key) {
        Ok(k) => k,
        Err(e) => {
            return Err(e);
        },
    };
    let mut transaction = match try_processing(store, &idempotency_key, user_id, now) {
        Ok(NextAction::ReturnSavedResponse(saved_response)) => {
            return Ok(saved_response);
        },
        Ok(NextAction::StartProcessing(tx)) => tx,
        Err(e) => {
            return Err(e);
        },
    };
    let issue_id = insert_newsletter_issue(
        &mut transaction,
        newsletter_issue_id,
        title.as_str(),
        text_content.as_str(),
        html_content.as_str(),
        now,
    );
    enqueue_delivery_tasks(store, &mut transaction, issue_id);
    proof {
        lemma_confirmed_emails_distinct(store@.subscribers);
        assert(transaction_wf(transaction@, store@));
    }
    let response = redirect_to("/admin/newsletter");
    update_response(store, transaction, user_id, &idempotency_key, response)
}

/// Atomicity of the commit protocol, seen from a forced failure: an attempt
/// that resolves its key, inserts the issue, and enqueues the delivery
/// tasks, but whose transaction aborts before `update_response` commits —
/// as any infrastructure failure at that point forces — leaves the store
/// exactly as it was. No issue row, no delivery tasks, and no idempotency
/// record survive, so a retry with the same key starts over cleanly.
pub fn publish_attempt_aborted(
    store: &mut NewsletterStore,
    user_id: u128,
    data: NewsletterData,
    newsletter_issue_id: u128,
    now: i64,
)
    requires
        old(store)@.wf(),
        find_issue(old(store)@.newsletter_issues, newsletter_issue_id) is None,
    ensures
        *final(store) == *old(store),
        find_record(final(store)@.idempotency, user_id, data.idempotency_key@) == find_record(
            old(store)@.idempotency,
            user_id,
            data.idempotency_key@,
        ),
        final(store)@.newsletter_issues == old(store)@.newsletter_issues,
        final(store)@.issue_delivery_queue == old(store)@.issue_delivery_queue,
{
    let NewsletterData { title, text_content, html_content, idempotency_key } = data;
    let idempotency_key = match IdempotencyKey::try_from(idempotency_key) {
        Ok(k) => k,
        Err(_) => {
            return ;
        },
    };
    let mut transaction = match try_processing(store, &idempotency_key, user_id, now) {
        Ok(NextAction::StartProcessing(tx)) => tx,
        _ => {
            return ;
        },
    };
    let issue_id = insert_newsletter_issue(
        &mut transaction,
        newsletter_issue_id,
        title.as_str(),
        text_content.as_str(),
        html_content.as_str(),
        now,
    );
    enqueue_delivery_tasks(store, &mut transaction, issue_id);
    // The transaction is dropped here without a commit: a rollback. All of
    // its pending writes vanish with it.
}

/// Idempotency of publication: after a first publish commits under a key,
/// the store's record for that key holds exactly the response the first
/// call returned, and exactly one issue row was added. By
/// `publish_newsletter`'s contract, a second submission with the same key
/// therefore replays a response equal to the first — status, headers and
/// body — and leaves the store unchanged: one issue row exists across both
/// calls.
pub proof fn lemma_publish_is_idempotent(
    s: StoreModel,
    user_id: u128,
    key: Seq<char>,
    title: Seq<char>,
    text_content: Seq<char>,
    html_content: Seq<char>,
    newsletter_issue_id: u128,
    now: i64,
)
    requires
        s.wf(),
        idempotency_key_error(key) is None,
        find_record(s.idempotency, user_id, key) is None,
        find_issue(s.newsletter_issues, newsletter_issue_id) is None,
    ensures
        ({
            let s1 = fresh_publish_transition(
                s,
                user_id,
                key,
                title,
                text_content,
                html_content,
                newsletter_issue_id,
                now,
            );
            &&& find_record(s1.idempotency, user_id, key) matches Some(rec) && rec.response
                == Some(see_other_model("/admin/newsletter"@))
            &&& s1.newsletter_issues.len() == s.newsletter_issues.len() + 1
        }),
{
    let row = fresh_publish_record(user_id, key, now);
    lemma_find_record_push(s.idempotency, row, user_id, key);
}

/// The completed record a fresh publish commits.
spec fn fresh_publish_record(user_id: u128, key: Seq<char>, now: i64)
    -> crate::store::RecordModel {
    crate::store::RecordModel {
        user_id,
        idempotency_key: key,
        response: Some(see_other_model("/admin/newsletter"@)),
        created_at: now,
    }
}

/// Exactly-one-enumeration: a publish on a store with N confirmed
/// subscribers creates exactly N delivery tasks for the new issue — one per
/// confirmed subscriber, in table order — and no task for any other issue
/// changes.
pub proof fn lemma_exactly_one_enumeration(
    s: StoreModel,
    user_id: u128,
    key: Seq<char>,
    title: Seq<char>,
    text_content: Seq<char>,
    html_content: Seq<char>,
    newsletter_issue_id: u128,
    now: i64,
)
    requires
        s.wf(),
        find_record(s.idempotency, user_id, key) is None,
        find_issue(s.newsletter_issues, newsletter_issue_id) is None,
    ensures
        ({
            let s1 = fresh_publish_transition(
                s,
                user_id,
                key,
                title,
                text_content,
                html_content,
                newsletter_issue_id,
                now,
            );
            &&& tasks_for_issue(s1.issue_delivery_queue, newsletter_issue_id)
                == tasks_from_emails(confirmed_emails(s.subscribers), newsletter_issue_id)
            &&& tasks_for_issue(s1.issue_delivery_queue, newsletter_issue_id).len()
                == confirmed_emails(s.subscribers).len()
            &&& forall|other: u128|
                other != newsletter_issue_id ==> #[trigger] tasks_for_issue(
                    s1.issue_delivery_queue,
                    other,
                ) == tasks_for_issue(s.issue_delivery_queue, other)
        }),
{
    let new_tasks = tasks_from_emails(confirmed_emails(s.subscribers), newsletter_issue_id);
    let s1 = fresh_publish_transition(
        s,
        user_id,
        key,
        title,
        text_content,
        html_content,
        newsletter_issue_id,
        now,
    );
    assert forall|i: int| 0 <= i < s.issue_delivery_queue.len()
        implies #[trigger] s.issue_delivery_queue[i].newsletter_issue_id
        != newsletter_issue_id by {
        lemma_find_issue_exists(
            s.newsletter_issues,
            s.issue_delivery_queue[i].newsletter_issue_id,
        );
    }
    lemma_tasks_for_issue_add(s.issue_delivery_queue, new_tasks, newsletter_issue_id);
    lemma_tasks_for_issue_none(s.issue_delivery_queue, newsletter_issue_id);
    lemma_tasks_for_issue_all(new_tasks, newsletter_issue_id);
    assert(tasks_for_issue(s1.issue_delivery_queue, newsletter_issue_id) =~= new_tasks);
    assert forall|other: u128| other != newsletter_issue_id implies #[trigger] tasks_for_issue(
        s1.issue_delivery_queue,
        other,
    ) == tasks_for_issue(s.issue_delivery_queue, other) by {
        lemma_tasks_for_issue_add(s.issue_delivery_queue, new_tasks, other);
        lemma_tasks_for_issue_none(new_tasks, other);
        assert(tasks_for_issue(s.issue_delivery_queue, other) + Seq::<TaskModel>::empty()
            =~= tasks_for_issue(s.issue_delivery_queue, other));
    }
}

/// Selecting an issue's tasks distributes over concatenation.
proof fn lemma_tasks_for_issue_add(a: Seq<TaskModel>, b: Seq<TaskModel>, id: u128)
    ensures
        tasks_for_issue(a + b, id) == tasks_for_issue(a, id) + tasks_for_issue(b, id),
    decreases a.len(),
{
    if a.len() == 0 {
        assert(a + b =~= b);
        assert(tasks_for_issue(a, id) =~= Seq::<TaskModel>::empty());
        assert(tasks_for_issue(a, id) + tasks_for_issue(b, id) =~= tasks_for_issue(b, id));
    } else {
        lemma_tasks_for_issue_add(a.drop_first(), b, id);
        assert((a + b).drop_first() =~= a.drop_first() + b);
        assert((a + b)[0] == a[0]);
        if a[0].newsletter_issue_id == id {
            assert(seq![a[0]] + (tasks_for_issue(a.drop_first(), id) + tasks_for_issue(b, id))
                =~= (seq![a[0]] + tasks_for_issue(a.drop_first(), id)) + tasks_for_issue(b, id));
        }
    }
}

/// A queue none of whose rows belong to the issue contributes no tasks.
proof fn lemma_tasks_for_issue_none(rows: Seq<TaskModel>, id: u128)
    requires
        forall|i: int|
            0 <= i < rows.len() ==> #[trigger] rows[i].newsletter_issue_id != id,
    ensures
        tasks_for_issue(rows, id) == Seq::<TaskModel>::empty(),
    decreases rows.len(),
{
    if rows.len() > 0 {
        assert(forall|i: int|
            0 <= i < rows.drop_first().len() ==> #[trigger] rows.drop_first()[i] == rows[i + 1]);
        lemma_tasks_for_issue_none(rows.drop_first(), id);
    }
}

/// A queue all of whose rows belong to the issue is its own task selection.
proof fn lemma_tasks_for_issue_all(rows: Seq<TaskModel>, id: u128)
    requires
        forall|i: int|
            0 <= i < rows.len() ==> #[trigger] rows[i].newsletter_issue_id == id,
    ensures
        tasks_for_issue(rows, id) == rows,
    decreases rows.len(),
{
    if rows.len() > 0 {
        assert(forall|i: int|
            0 <= i < rows.drop_first().len() ==> #[trigger] rows.drop_first()[i] == rows[i + 1]);
        lemma_tasks_for_issue_all(rows.drop_first(), id);
        assert(seq![rows[0]] + rows.drop_first() =~= rows);
    }
}

} // verus!
