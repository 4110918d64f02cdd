//! Persistence of the idempotency store and the commit step of the
//! publication protocol. A publish request first resolves its key: either a
//! completed response is replayed byte for byte, or the caller wins the
//! placeholder race and receives an open transaction. All writes the
//! transaction gathers — the placeholder, the issue, the delivery tasks —
//! reach the store only together, at `update_response`'s commit; a
//! transaction dropped before that leaves the store exactly as it was.

use crate::error::BizErrorEnum;
use crate::http::{ResponseModel, StoredResponse};
use crate::idempotency::IdempotencyKey;
use crate::store::{
    DeliveryTask, IdempotencyRow, IssueModel, NewsletterIssue, NewsletterStore, RecordModel,
    StoreModel, TaskModel, find_issue, find_record, lemma_find_issue_exists,
    lemma_find_issue_push, lemma_find_record_exists, lemma_find_record_push,
    lemma_issue_views_push, lemma_record_views_push, lemma_task_views_add, task_views,
};
use vstd::prelude::*;
use vstd::string::*;

verus! {

/// The writes a publish request has gathered but not yet committed: the
/// placeholder identity, and the issue and delivery tasks inserted under it.
/// Dropping a value of this type models a rollback: nothing of it reaches
/// the store.
pub struct PublishTransaction {
    pub user_id: u128,
    pub idempotency_key: String,
    pub created_at: i64,
    pub pending_issue: Option<NewsletterIssue>,
    pub pending_tasks: Vec<DeliveryTask>,
}

/// Mathematical value of a `PublishTransaction`.
#[verifier::ext_equal]
pub struct TransactionModel {
    pub user_id: u128,
    pub idempotency_key: Seq<char>,
    pub created_at: i64,
    pub pending_issue: Option<IssueModel>,
    pub pending_tasks: Seq<TaskModel>,
}

impl View for PublishTransaction {
    type V = TransactionModel;

    open spec fn view(&self) -> TransactionModel {
        TransactionModel {
            user_id: self.user_id,
            idempotency_key: self.idempotency_key@,
            created_at: self.created_at,
            pending_issue: match self.pending_issue {
                Some(ref i) => Some(i@),
                None => None,
            },
            pending_tasks: task_views(self.pending_tasks@),
        }
    }
}

/// What a well-behaved open transaction looks like against the store it was
/// opened on: its pending issue (if any) has a fresh id, its pending tasks
/// all belong to that pending issue, carry distinct emails, and are not yet
/// claimed, and no tasks exist without an issue to deliver.
pub open spec fn transaction_wf(tx: TransactionModel, s: StoreModel) -> bool {
    &&& match tx.pending_issue {
        Some(iss) => find_issue(s.newsletter_issues, iss.newsletter_issue_id) is None,
        None => tx.pending_tasks.len() == 0,
    }
    &&& forall|i: int|
        0 <= i < tx.pending_tasks.len() ==> #[trigger] tx.pending_tasks[i].newsletter_issue_id
            == tx.pending_issue->Some_0.newsletter_issue_id
    &&& forall|i: int| 0 <= i < tx.pending_tasks.len() ==> !#[trigger] tx.pending_tasks[i].claimed
    &&& forall|i: int, j: int|
        0 <= i < j < tx.pending_tasks.len() ==> tx.pending_tasks[i].subscriber_email
            != tx.pending_tasks[j].subscriber_email
}

/// What resolving an idempotency key yields: either an open transaction to
/// process under, or the previously completed response to replay.
pub enum NextAction {
    StartProcessing(PublishTransaction),
    ReturnSavedResponse(StoredResponse),
}

/// Position of the record for (`user_id`, `key`), if one exists.
fn find_record_position(store: &NewsletterStore, user_id: u128, key: &str) -> (r: Option<usize>)
    ensures
        match r {
            Some(i) => 0 <= i < store.idempotency.len() && find_record(
                store@.idempotency,
                user_id,
                key@,
            ) == Some(store@.idempotency[i as int]),
            None => find_record(store@.idempotency, user_id, key@) is None,
        },
{
    let key_string = String::from_str(key);
    let ghost rows = store@.idempotency;
    let n = store.idempotency.len();
    let mut i: usize = 0;
    proof {
        assert(rows.skip(0) =~= rows);
    }
    while i < n
        invariant
            0 <= i <= n,
            n == store.idempotency.len(),
            rows == store@.idempotency,
            rows.len() == n,
            key_string@ == key@,
            find_record(rows, user_id, key@) == find_record(rows.skip(i as int), user_id, key@),
            forall|j: int|
                0 <= j < i ==> !(#[trigger] rows[j].user_id == user_id
                    && rows[j].idempotency_key == key@),
        decreases n - i,
    {
        proof {
            assert(rows.skip(i as int)[0] == rows[i as int]);
            assert(rows.skip(i as int).drop_first() =~= rows.skip(i + 1));
        }
        let row = &store.idempotency[i];
        if row.user_id == user_id && row.idempotency_key == key_string {
            return Some(i);
        }
        i = i + 1;
    }
    proof {
        assert(rows.skip(n as int) =~= Seq::<RecordModel>::empty());
    }
    None
}

/// Looks up the completed response cached for (`user_id`,
/// `idempotency_key`). A placeholder row whose processing never completed
/// yields nothing, exactly as a missing row does.
pub fn get_saved_response(
    store: &NewsletterStore,
    idempotency_key: &IdempotencyKey,
    user_id: u128,
) -> (r: Option<StoredResponse>)
    ensures
        match find_record(store@.idempotency, user_id, idempotency_key@) {
            Some(rec) => match rec.response {
                Some(resp) => r matches Some(out) && out@ == resp,
                None => r is None,
            },
            None => r is None,
        },
{
    match find_record_position(store, user_id, idempotency_key.as_ref()) {
        Some(i) => match &store.idempotency[i].response {
            Some(resp) => Some(resp.duplicate()),
            None => None,
        },
        None => None,
    }
}

/// Resolves an idempotency key inside a fresh transaction. If no record
/// exists, the caller wins the placeholder insert and may start processing
/// under the returned transaction. If a completed record exists, its
/// response is returned for replay. A bare placeholder signals caller
/// misuse — a key resolved but never completed — and fails.
pub fn try_processing(
    store: &NewsletterStore,
    idempotency_key: &IdempotencyKey,
    user_id: u128,
    now: i64,
) -> (r: Result<NextAction, BizErrorEnum>)
    ensures
        match find_record(store@.idempotency, user_id, idempotency_key@) {
            None => r matches Ok(NextAction::StartProcessing(tx)) && tx@ == (TransactionModel {
                user_id,
                idempotency_key: idempotency_key@,
                created_at: now,
                pending_issue: None,
                pending_tasks: Seq::empty(),
            }),
            Some(rec) => match rec.response {
                Some(resp) => r matches Ok(NextAction::ReturnSavedResponse(out)) && out@ == resp,
                None => r == Err::<NextAction, BizErrorEnum>(
                    BizErrorEnum::FindExpectedSavedRecordError,
                ),
            },
        },
{
    match find_record_position(store, user_id, idempotency_key.as_ref()) {
        None => {
            let tx = PublishTransaction {
                user_id,
                idempotency_key: String::from_str(idempotency_key.as_ref()),
                created_at: now,
                pending_issue: None,
                pending_tasks: Vec::new(),
            };
            proof {
                assert(tx@.pending_tasks =~= Seq::<TaskModel>::empty());
            }
            Ok(NextAction::StartProcessing(tx))
        },
        Some(_) => match get_saved_response(store, idempotency_key, user_id) {
            Some(saved_response) => Ok(NextAction::ReturnSavedResponse(saved_response)),
            None => Err(BizErrorEnum::FindExpectedSavedRecordError),
        },
    }
}

/// The store after a successful commit: the completed record is added, the
/// pending issue row (if any) is added, the pending delivery tasks are
/// appended to the queue, and nothing else changes.
pub open spec fn commit_transition(
    s: StoreModel,
    tx: TransactionModel,
    response: ResponseModel,
) -> StoreModel {
    StoreModel {
        subscribers: s.subscribers,
        subscription_tokens: s.subscription_tokens,
        idempotency: s.idempotency.push(
            RecordModel {
                user_id: tx.user_id,
                idempotency_key: tx.idempotency_key,
                response: Some(response),
                created_at: tx.created_at,
            },
        ),
        newsletter_issues: match tx.pending_issue {
            Some(iss) => s.newsletter_issues.push(iss),
            None => s.newsletter_issues,
        },
        issue_delivery_queue: s.issue_delivery_queue + tx.pending_tasks,
    }
}

/// Fills the transaction's placeholder with the response and commits:
/// everything the transaction gathered reaches the store together, and the
/// very response that was cached is handed back to the caller.
pub fn update_response(
    store: &mut NewsletterStore,
    transaction: PublishTransaction,
    user_id: u128,
    idempotency_key: &IdempotencyKey,
    http_response: StoredResponse,
) -> (r: Result<StoredResponse, BizErrorEnum>)
    requires
        old(store)@.wf(),
        transaction@.user_id == user_id,
        transaction@.idempotency_key == idempotency_key@,
        find_record(old(store)@.idempotency, user_id, idempotency_key@) is None,
        transaction_wf(transaction@, old(store)@),
    ensures
        r matches Ok(resp) && resp@ == http_response@,
        final(store)@ == commit_transition(old(store)@, transaction@, http_response@),
        final(store)@.wf(),
{
    let ghost pre = store@;
    let ghost txm = transaction@;
    let ghost respm = http_response@;
    let PublishTransaction {
        user_id: _,
        idempotency_key: tx_key,
        created_at,
        pending_issue,
        mut pending_tasks,
    } = transaction;
    let cached = http_response.duplicate();
    let row = IdempotencyRow {
        user_id,
        idempotency_key: tx_key,
        response: Some(cached),
        created_at,
    };
    proof {
        lemma_record_views_push(store.idempotency@, row);
    }
    store.idempotency.push(row);
    match pending_issue {
        Some(issue) => {
            proof {
                lemma_issue_views_push(store.newsletter_issues@, issue);
            }
            store.newsletter_issues.push(issue);
        },
        None => {},
    }
    proof {
        lemma_task_views_add(store.issue_delivery_queue@, pending_tasks@);
    }
    store.issue_delivery_queue.append(&mut pending_tasks);
    proof {
        assert(store@ =~= commit_transition(pre, txm, respm));
        lemma_commit_preserves_wf(pre, txm, respm);
    }
    Ok(http_response)
}

/// A commit of a well-behaved transaction on a well-formed store, under a
/// key that holds no record yet, keeps the store well-formed.
proof fn lemma_commit_preserves_wf(s: StoreModel, tx: TransactionModel, response: ResponseModel)
    requires
        s.wf(),
        find_record(s.idempotency, tx.user_id, tx.idempotency_key) is None,
        transaction_wf(tx, s),
    ensures
        commit_transition(s, tx, response).wf(),
{
    let post = commit_transition(s, tx, response);
    // No existing record carries the transaction's (user, key) pair.
    lemma_find_record_exists(s.idempotency, tx.user_id, tx.idempotency_key);
    assert(forall|i: int|
        0 <= i < s.idempotency.len() ==> !(#[trigger] s.idempotency[i].user_id == tx.user_id
            && s.idempotency[i].idempotency_key == tx.idempotency_key));
    assert(forall|i: int|
        0 <= i < s.idempotency.len() ==> post.idempotency[i] == s.idempotency[i]);
    match tx.pending_issue {
        Some(iss) => {
            // The pending issue's id is fresh, so it collides with no row.
            lemma_find_issue_exists(s.newsletter_issues, iss.newsletter_issue_id);
            assert(forall|i: int|
                0 <= i < s.newsletter_issues.len()
                    ==> #[trigger] s.newsletter_issues[i].newsletter_issue_id
                    != iss.newsletter_issue_id);
            assert(forall|i: int|
                0 <= i < s.newsletter_issues.len() ==> post.newsletter_issues[i]
                    == s.newsletter_issues[i]);
            // Existing queue rows refer to existing issues, never to the
            // fresh id; pending rows all carry the fresh id.
            assert forall|i: int| 0 <= i < s.issue_delivery_queue.len()
                implies #[trigger] s.issue_delivery_queue[i].newsletter_issue_id
                != iss.newsletter_issue_id by {
                lemma_find_issue_exists(
                    s.newsletter_issues,
                    s.issue_delivery_queue[i].newsletter_issue_id,
                );
            }
            assert(forall|i: int|
                0 <= i < post.issue_delivery_queue.len() ==> #[trigger] post.issue_delivery_queue[i]
                    == if i < s.issue_delivery_queue.len() {
                    s.issue_delivery_queue[i]
                } else {
                    tx.pending_tasks[i - s.issue_delivery_queue.len()]
                });
            // Every queue row still refers to an existing issue.
            assert forall|i: int| 0 <= i < post.issue_delivery_queue.len() implies find_issue(
                post.newsletter_issues,
                #[trigger] post.issue_delivery_queue[i].newsletter_issue_id,
            ) is Some by {
                let id = post.issue_delivery_queue[i].newsletter_issue_id;
                lemma_find_issue_push(s.newsletter_issues, iss, id);
                if i < s.issue_delivery_queue.len() {
                    lemma_find_issue_exists(s.newsletter_issues, id);
                }
            }
        },
        None => {
            assert(post.newsletter_issues == s.newsletter_issues);
            assert(post.issue_delivery_queue =~= s.issue_delivery_queue);
        },
    }
}

} // verus!
