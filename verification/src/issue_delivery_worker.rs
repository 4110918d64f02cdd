//! The delivery worker: claim one queue row under a non-blocking row lock,
//! attempt delivery at most once, and remove the row whatever the attempt's
//! outcome — a permanent skip for an invalid stored address, a logged skip
//! for a failed send. Only a claimant that dies before its release makes
//! the row claimable again.

use crate::domain::{SubscriberEmail, email_parse_error};
use crate::error::BizErrorEnum;
use crate::store::{
    DeliveryTask, NewsletterIssue, NewsletterStore, StoreModel, TaskModel, count_unclaimed,
    find_issue, first_unclaimed_index, remove_task_pair, task_views,
};
use vstd::prelude::*;
use vstd::string::*;

verus! {

/// What one worker iteration did: completed (and removed) a claimed task,
/// or found the queue empty of claimable rows.
#[derive(Debug, PartialEq, Eq, Structural, Clone, Copy)]
pub enum ExecutionOutcome {
    TaskCompleted,
    EmptyQueue,
}

/// A claim on one queue row: exclusive, temporary ownership, held until
/// `delete_task` releases it or `abandon_claim` models the claimant dying.
/// The type is linear — no copy, no clone — so a claim is released at most
/// once.
pub struct TaskClaim {
    pub newsletter_issue_id: u128,
    pub subscriber_email: String,
}

/// Mathematical value of a `TaskClaim`.
#[verifier::ext_equal]
pub struct ClaimModel {
    pub newsletter_issue_id: u128,
    pub subscriber_email: Seq<char>,
}

impl View for TaskClaim {
    type V = ClaimModel;

    open spec fn view(&self) -> ClaimModel {
        ClaimModel {
            newsletter_issue_id: self.newsletter_issue_id,
            subscriber_email: self.subscriber_email@,
        }
    }
}

/// An email the transport model was asked to deliver.
pub struct SentEmail {
    pub recipient: String,
    pub subject: String,
    pub html_content: String,
    pub text_content: String,
}

/// Mathematical value of a `SentEmail`.
#[verifier::ext_equal]
pub struct SentEmailModel {
    pub recipient: Seq<char>,
    pub subject: Seq<char>,
    pub html_content: Seq<char>,
    pub text_content: Seq<char>,
}

impl View for SentEmail {
    type V = SentEmailModel;

    open spec fn view(&self) -> SentEmailModel {
        SentEmailModel {
            recipient: self.recipient@,
            subject: self.subject@,
            html_content: self.html_content@,
            text_content: self.text_content@,
        }
    }
}

/// The models of a sequence of sent emails.
pub open spec fn sent_views(s: Seq<SentEmail>) -> Seq<SentEmailModel> {
    s.map_values(|e: SentEmail| e@)
}

/// The delivery capability at the worker's boundary, modelled by its two
/// observable aspects: the requests it received, in order, and the
/// scripted outcome of each next call (success when the script runs out).
pub struct DeliveryTransport {
    pub outcomes: Vec<bool>,
    pub sent: Vec<SentEmail>,
}

/// Mathematical value of a `DeliveryTransport`.
#[verifier::ext_equal]
pub struct TransportModel {
    pub outcomes: Seq<bool>,
    pub sent: Seq<SentEmailModel>,
}

impl View for DeliveryTransport {
    type V = TransportModel;

    open spec fn view(&self) -> TransportModel {
        TransportModel { outcomes: self.outcomes@, sent: sent_views(self.sent@) }
    }
}

impl DeliveryTransport {
    /// A transport that accepts every delivery.
    pub fn new() -> (r: Self)
        ensures
            r@.outcomes == Seq::<bool>::empty(),
            r@.sent == Seq::<SentEmailModel>::empty(),
    {
        let r = DeliveryTransport { outcomes: Vec::new(), sent: Vec::new() };
        proof {
            assert(r@.sent =~= Seq::<SentEmailModel>::empty());
        }
        r
    }

    /// Records the delivery request and reports the next scripted outcome;
    /// with no script left, the delivery succeeds.
    pub fn send_email(
        &mut self,
        recipient: &SubscriberEmail,
        subject: &str,
        html_content: &str,
        text_content: &str,
    ) -> (r: Result<(), BizErrorEnum>)
        ensures
            final(self)@.sent == old(self)@.sent.push(
                SentEmailModel {
                    recipient: recipient@,
                    subject: subject@,
                    html_content: html_content@,
                    text_content: text_content@,
                },
            ),
            final(self)@.outcomes == if old(self)@.outcomes.len() > 0 {
                old(self)@.outcomes.drop_first()
            } else {
                old(self)@.outcomes
            },
            r is Ok <==> (old(self)@.outcomes.len() == 0 || old(self)@.outcomes[0]),
            r is Err ==> r == Err::<(), BizErrorEnum>(BizErrorEnum::SendEmailError),
    {
        let entry = SentEmail {
            recipient: String::from_str(recipient.as_ref()),
            subject: String::from_str(subject),
            html_content: String::from_str(html_content),
            text_content: String::from_str(text_content),
        };
        proof {
            assert(sent_views(self.sent@.push(entry)) =~= sent_views(self.sent@).push(entry@));
        }
        self.sent.push(entry);
        if self.outcomes.len() > 0 {
            let ok = self.outcomes.remove(0);
            proof {
                assert(self.outcomes@ =~= old(self)@.outcomes.drop_first());
            }
            if ok {
                Ok(())
            } else {
                Err(BizErrorEnum::SendEmailError)
            }
        } else {
            Ok(())
        }
    }
}

/// The queue with the row at `k` marked as claimed.
pub open spec fn claim_at(q: Seq<TaskModel>, k: int) -> Seq<TaskModel> {
    q.update(k, TaskModel { claimed: true, ..q[k] })
}

/// `first_unclaimed_index` is pinned down by a witness with only claimed
/// rows before it.
proof fn lemma_first_unclaimed_witness(q: Seq<TaskModel>, k: int)
    requires
        0 <= k < q.len(),
        !q[k].claimed,
        forall|j: int| 0 <= j < k ==> q[j].claimed,
    ensures
        first_unclaimed_index(q) == k,
    decreases q.len(),
{
    if k > 0 {
        assert(forall|j: int|
            0 <= j < q.drop_first().len() ==> q.drop_first()[j] == q[j + 1]);
        lemma_first_unclaimed_witness(q.drop_first(), k - 1);
    }
}

/// The first claimable position is `-1` or a claimable position in range.
proof fn lemma_first_unclaimed_bounds(q: Seq<TaskModel>)
    ensures
        first_unclaimed_index(q) == -1 || (0 <= first_unclaimed_index(q) < q.len()
            && !q[first_unclaimed_index(q)].claimed),
    decreases q.len(),
{
    if q.len() > 0 && q[0].claimed {
        lemma_first_unclaimed_bounds(q.drop_first());
    }
}

/// A queue whose rows are all claimed offers nothing to claim.
proof fn lemma_first_unclaimed_absent(q: Seq<TaskModel>)
    requires
        forall|j: int| 0 <= j < q.len() ==> q[j].claimed,
    ensures
        first_unclaimed_index(q) == -1,
    decreases q.len(),
{
    if q.len() > 0 {
        assert(forall|j: int|
            0 <= j < q.drop_first().len() ==> q.drop_first()[j] == q[j + 1]);
        lemma_first_unclaimed_absent(q.drop_first());
    }
}

/// Claims one queue row: the first row no other claimant holds, selected
/// with lock-skipping semantics — rows under a live claim are passed over,
/// never waited on. Returns the claim handle with the row's content, or
/// nothing when every row is claimed or the queue is empty.
pub fn dequeue_task(store: &mut NewsletterStore) -> (r: Option<(TaskClaim, u128, String)>)
    ensures
        ({
            let q = old(store)@.issue_delivery_queue;
            let k = first_unclaimed_index(q);
            if k == -1 {
                r is None && *final(store) == *old(store)
            } else {
                r matches Some((claim, issue_id, email)) && issue_id
                    == q[k].newsletter_issue_id && email@ == q[k].subscriber_email && claim@
                    == (ClaimModel {
                    newsletter_issue_id: q[k].newsletter_issue_id,
                    subscriber_email: q[k].subscriber_email,
                }) && final(store)@ == (StoreModel {
                    issue_delivery_queue: claim_at(q, k),
                    ..old(store)@
                })
            }
        }),
        old(store)@.wf() ==> final(store)@.wf(),
{
    let ghost q = store@.issue_delivery_queue;
    let n = store.issue_delivery_queue.len();
    let mut i: usize = 0;
    while i < n
        invariant
            0 <= i <= n,
            n == store.issue_delivery_queue.len(),
            *store == *old(store),
            q == store@.issue_delivery_queue,
            q.len() == n,
            forall|j: int| 0 <= j < i ==> q[j].claimed,
        decreases n - i,
    {
        if !store.issue_delivery_queue[i].claimed {
            proof {
                lemma_first_unclaimed_witness(q, i as int);
            }
            let mut row = store.issue_delivery_queue.remove(i);
            let claim = TaskClaim {
                newsletter_issue_id: row.newsletter_issue_id,
                subscriber_email: row.subscriber_email.clone(),
            };
            let issue_id = row.newsletter_issue_id;
            let email = row.subscriber_email.clone();
            row.claimed = true;
            store.issue_delivery_queue.insert(i, row);
            proof {
                assert(store@.issue_delivery_queue =~= claim_at(q, i as int));
                assert(store@ =~= (StoreModel {
                    issue_delivery_queue: claim_at(q, i as int),
                    ..old(store)@
                }));
                if old(store)@.wf() {
                    assert forall|a: int|
                        0 <= a < store@.issue_delivery_queue.len() implies find_issue(
                        store@.newsletter_issues,
                        #[trigger] store@.issue_delivery_queue[a].newsletter_issue_id,
                    ) is Some by {
                        assert(store@.issue_delivery_queue[a].newsletter_issue_id
                            == old(store)@.issue_delivery_queue[a].newsletter_issue_id);
                    }
                }
            }
            return Some((claim, issue_id, email));
        }
        i = i + 1;
    }
    proof {
        lemma_first_unclaimed_absent(q);
    }
    None
}

/// Rows of the queue after removing every row for the pair, each one a row
/// the queue already had; pairwise-distinct pairs stay pairwise distinct.
proof fn lemma_remove_pair_membership(rows: Seq<TaskModel>, id: u128, email: Seq<char>)
    ensures
        forall|k: int|
            0 <= k < remove_task_pair(rows, id, email).len() ==> rows.contains(
                #[trigger] remove_task_pair(rows, id, email)[k],
            ),
    decreases rows.len(),
{
    if rows.len() > 0 {
        lemma_remove_pair_membership(rows.drop_first(), id, email);
        let rest = remove_task_pair(rows.drop_first(), id, email);
        assert forall|k: int| 0 <= k < remove_task_pair(rows, id, email).len() implies rows
            .contains(#[trigger] remove_task_pair(rows, id, email)[k]) by {
            let out = remove_task_pair(rows, id, email);
            if rows[0].newsletter_issue_id == id && rows[0].subscriber_email == email {
                assert(out[k] == rest[k]);
                assert(rows.drop_first().contains(rest[k]));
                let w = choose|w: int|
                    0 <= w < rows.drop_first().len() && rows.drop_first()[w] == rest[k];
                assert(rows[w + 1] == rest[k]);
            } else {
                if k == 0 {
                    assert(out[0] == rows[0]);
                } else {
                    assert(out[k] == rest[k - 1]);
                    assert(rows.drop_first().contains(rest[k - 1]));
                    let w = choose|w: int|
                        0 <= w < rows.drop_first().len() && rows.drop_first()[w] == rest[k - 1];
                    assert(rows[w + 1] == rest[k - 1]);
                }
            }
        }
    }
}

/// Removing a pair from a queue of pairwise-distinct pairs leaves pairwise
/// distinct pairs, and leaves no row for the removed pair.
proof fn lemma_remove_pair_distinct(rows: Seq<TaskModel>, id: u128, email: Seq<char>)
    requires
        forall|i: int, j: int|
            0 <= i < j < rows.len() ==> !(rows[i].newsletter_issue_id
                == rows[j].newsletter_issue_id && rows[i].subscriber_email
                == rows[j].subscriber_email),
    ensures
        forall|i: int, j: int|
            0 <= i < j < remove_task_pair(rows, id, email).len() ==> !(remove_task_pair(
                rows,
                id,
                email,
            )[i].newsletter_issue_id == remove_task_pair(rows, id, email)[j].newsletter_issue_id
                && remove_task_pair(rows, id, email)[i].subscriber_email == remove_task_pair(
                rows,
                id,
                email,
            )[j].subscriber_email),
        forall|k: int|
            0 <= k < remove_task_pair(rows, id, email).len() ==> !(#[trigger] remove_task_pair(
                rows,
                id,
                email,
            )[k].newsletter_issue_id == id && remove_task_pair(rows, id, email)[k].subscriber_email
                == email),
    decreases rows.len(),
{
    if rows.len() > 0 {
        assert(forall|i: int|
            0 <= i < rows.drop_first().len() ==> rows.drop_first()[i] == rows[i + 1]);
        lemma_remove_pair_distinct(rows.drop_first(), id, email);
        lemma_remove_pair_membership(rows.drop_first(), id, email);
        let rest = remove_task_pair(rows.drop_first(), id, email);
        let out = remove_task_pair(rows, id, email);
        if rows[0].newsletter_issue_id == id && rows[0].subscriber_email == email {
        } else {
            assert forall|k: int| 0 <= k < rest.len() implies !(rest[k].newsletter_issue_id
                == rows[0].newsletter_issue_id && rest[k].subscriber_email
                == rows[0].subscriber_email) by {
                let w = choose|w: int|
                    0 <= w < rows.drop_first().len() && rows.drop_first()[w] == rest[k];
                assert(rows[w + 1] == rest[k]);
            }
            assert forall|i: int, j: int| 0 <= i < j < out.len() implies !(
            out[i].newsletter_issue_id == out[j].newsletter_issue_id && out[i].subscriber_email
                == out[j].subscriber_email) by {
                if i > 0 {
                    assert(out[i] == rest[i - 1]);
                    assert(out[j] == rest[j - 1]);
                } else {
                    assert(out[0] == rows[0]);
                    assert(out[j] == rest[j - 1]);
                }
            }
        }
    }
}

/// Deletes the claimed row and commits, permanently removing the task and
/// releasing the claim. The queue afterwards holds exactly the rows whose
/// (issue, email) pair differs from the claim's.
pub fn delete_task(
    store: &mut NewsletterStore,
    transaction: TaskClaim,
    issue_id: u128,
    email: &str,
)
    requires
        transaction@.newsletter_issue_id == issue_id,
        transaction@.subscriber_email == email@,
    ensures
        final(store)@ == (StoreModel {
            issue_delivery_queue: remove_task_pair(
                old(store)@.issue_delivery_queue,
                issue_id,
                email@,
            ),
            ..old(store)@
        }),
        old(store)@.wf() ==> final(store)@.wf(),
{
    let ghost q = store@.issue_delivery_queue;
    let email_string = String::from_str(email);
    let mut kept: Vec<DeliveryTask> = Vec::new();
    let n = store.issue_delivery_queue.len();
    let mut i: usize = 0;
    proof {
        assert(q.skip(0) =~= q);
        assert(task_views(kept@) =~= Seq::<TaskModel>::empty());
        assert(remove_task_pair(q, issue_id, email@) =~= task_views(kept@) + remove_task_pair(
            q.skip(0),
            issue_id,
            email@,
        ));
    }
    while i < n
        invariant
            0 <= i <= n,
            n == store.issue_delivery_queue.len(),
            q == store@.issue_delivery_queue,
            q.len() == n,
            email_string@ == email@,
            remove_task_pair(q, issue_id, email@) == task_views(kept@) + remove_task_pair(
                q.skip(i as int),
                issue_id,
                email@,
            ),
        decreases n - i,
    {
        proof {
            assert(q.skip(i as int)[0] == q[i as int]);
            assert(q.skip(i as int).drop_first() =~= q.skip(i + 1));
        }
        let row = &store.issue_delivery_queue[i];
        if row.newsletter_issue_id == issue_id && row.subscriber_email == email_string {
            proof {
                assert(remove_task_pair(q.skip(i as int), issue_id, email@)
                    =~= remove_task_pair(q.skip(i + 1), issue_id, email@));
            }
        } else {
            let copy = DeliveryTask {
                newsletter_issue_id: row.newsletter_issue_id,
                subscriber_email: row.subscriber_email.clone(),
                claimed: row.claimed,
            };
            proof {
                assert(task_views(kept@.push(copy)) =~= task_views(kept@).push(copy@));
                assert(remove_task_pair(q.skip(i as int), issue_id, email@) =~= seq![q[i as int]]
                    + remove_task_pair(q.skip(i + 1), issue_id, email@));
                assert(task_views(kept@).push(copy@) + remove_task_pair(
                    q.skip(i + 1),
                    issue_id,
                    email@,
                ) =~= task_views(kept@) + remove_task_pair(q.skip(i as int), issue_id, email@));
            }
            kept.push(copy);
        }
        i = i + 1;
    }
    proof {
        assert(q.skip(n as int) =~= Seq::<TaskModel>::empty());
        assert(remove_task_pair(q.skip(n as int), issue_id, email@) =~= Seq::<TaskModel>::empty());
        assert(task_views(kept@) + Seq::<TaskModel>::empty() =~= task_views(kept@));
    }
    store.issue_delivery_queue = kept;
    proof {
        assert(store@ =~= (StoreModel {
            issue_delivery_queue: remove_task_pair(q, issue_id, email@),
            ..old(store)@
        }));
        if old(store)@.wf() {
            lemma_remove_pair_distinct(q, issue_id, email@);
            lemma_remove_pair_membership(q, issue_id, email@);
            assert forall|a: int|
                0 <= a < store@.issue_delivery_queue.len() implies find_issue(
                store@.newsletter_issues,
                #[trigger] store@.issue_delivery_queue[a].newsletter_issue_id,
            ) is Some by {
                let out = remove_task_pair(q, issue_id, email@);
                assert(q.contains(out[a]));
                let w = choose|w: int| 0 <= w < q.len() && q[w] == out[a];
                assert(find_issue(old(store)@.newsletter_issues, q[w].newsletter_issue_id)
                    is Some);
            }
        }
    }
}

/// The queue with every row for the pair unclaimed again.
pub open spec fn unclaim_pair(q: Seq<TaskModel>, id: u128, email: Seq<char>) -> Seq<TaskModel> {
    q.map_values(
        |t: TaskModel|
            if t.newsletter_issue_id == id && t.subscriber_email == email {
                TaskModel { claimed: false, ..t }
            } else {
                t
            },
    )
}

/// Models a claimant dying before its release: the claim's transaction
/// aborts, the row lock goes with it, and the row becomes claimable again —
/// the at-least-once recovery path.
pub fn abandon_claim(store: &mut NewsletterStore, transaction: TaskClaim)
    ensures
        final(store)@ == (StoreModel {
            issue_delivery_queue: unclaim_pair(
                old(store)@.issue_delivery_queue,
                transaction@.newsletter_issue_id,
                transaction@.subscriber_email,
            ),
            ..old(store)@
        }),
        old(store)@.wf() ==> final(store)@.wf(),
{
    let ghost q = store@.issue_delivery_queue;
    let TaskClaim { newsletter_issue_id, subscriber_email } = transaction;
    let mut released: Vec<DeliveryTask> = Vec::new();
    let n = store.issue_delivery_queue.len();
    let mut i: usize = 0;
    while i < n
        invariant
            0 <= i <= n,
            n == store.issue_delivery_queue.len(),
            q == store@.issue_delivery_queue,
            q.len() == n,
            task_views(released@) == unclaim_pair(
                q,
                newsletter_issue_id,
                subscriber_email@,
            ).take(i as int),
        decreases n - i,
    {
        let row = &store.issue_delivery_queue[i];
        let claimed = if row.newsletter_issue_id == newsletter_issue_id && row.subscriber_email
            == subscriber_email {
            false
        } else {
            row.claimed
        };
        let copy = DeliveryTask {
            newsletter_issue_id: row.newsletter_issue_id,
            subscriber_email: row.subscriber_email.clone(),
            claimed,
        };
        proof {
            let u = unclaim_pair(q, newsletter_issue_id, subscriber_email@);
            assert(task_views(released@.push(copy)) =~= task_views(released@).push(copy@));
            assert(copy@ == u[i as int]);
            assert(u.take(i as int).push(u[i as int]) =~= u.take(i + 1));
        }
        released.push(copy);
        i = i + 1;
    }
    proof {
        let u = unclaim_pair(q, newsletter_issue_id, subscriber_email@);
        assert(u.take(n as int) =~= u);
    }
    store.issue_delivery_queue = released;
    proof {
        assert(store@ =~= (StoreModel {
            issue_delivery_queue: unclaim_pair(q, newsletter_issue_id, subscriber_email@),
            ..old(store)@
        }));
        if old(store)@.wf() {
            assert forall|a: int|
                0 <= a < store@.issue_delivery_queue.len() implies find_issue(
                store@.newsletter_issues,
                #[trigger] store@.issue_delivery_queue[a].newsletter_issue_id,
            ) is Some by {
                assert(store@.issue_delivery_queue[a].newsletter_issue_id
                    == old(store)@.issue_delivery_queue[a].newsletter_issue_id);
            }
        }
    }
}

/// Looks up the content of the issue a claimed task belongs to.
pub fn get_issue(store: &NewsletterStore, issue_id: u128) -> (r: Result<
    NewsletterIssue,
    BizErrorEnum,
>)
    ensures
        match find_issue(store@.newsletter_issues, issue_id) {
            Some(m) => r matches Ok(out) && out@ == m,
            None => r == Err::<NewsletterIssue, BizErrorEnum>(
                BizErrorEnum::QueryNewsletterIssuesError,
            ),
        },
{
    let ghost rows = store@.newsletter_issues;
    let n = store.newsletter_issues.len();
    let mut i: usize = 0;
    proof {
        assert(rows.skip(0) =~= rows);
    }
    while i < n
        invariant
            0 <= i <= n,
            n == store.newsletter_issues.len(),
            rows == store@.newsletter_issues,
            rows.len() == n,
            find_issue(rows, issue_id) == find_issue(rows.skip(i as int), issue_id),
        decreases n - i,
    {
        proof {
            assert(rows.skip(i as int)[0] == rows[i as int]);
            assert(rows.skip(i as int).drop_first() =~= rows.skip(i + 1));
        }
        let row = &store.newsletter_issues[i];
        if row.newsletter_issue_id == issue_id {
            return Ok(row.duplicate());
        }
        i = i + 1;
    }
    proof {
        assert(rows.skip(n as int) =~= Seq::<crate::store::IssueModel>::empty());
    }
    Err(BizErrorEnum::QueryNewsletterIssuesError)
}


/// Claiming a row of the pair does not change what removing the pair
/// leaves: the row goes either way.
proof fn lemma_remove_pair_claim_at(q: Seq<TaskModel>, k: int, id: u128, email: Seq<char>)
    requires
        0 <= k < q.len(),
        q[k].newsletter_issue_id == id,
        q[k].subscriber_email == email,
    ensures
        remove_task_pair(claim_at(q, k), id, email) == remove_task_pair(q, id, email),
    decreases q.len(),
{
    if k == 0 {
        assert(claim_at(q, 0).drop_first() =~= q.drop_first());
        assert(claim_at(q, 0)[0].newsletter_issue_id == id);
        assert(claim_at(q, 0)[0].subscriber_email == email);
    } else {
        assert(claim_at(q, k).drop_first() =~= claim_at(q.drop_first(), k - 1));
        assert(q.drop_first()[k - 1] == q[k]);
        lemma_remove_pair_claim_at(q.drop_first(), k - 1, id, email);
        assert(claim_at(q, k)[0] == q[0]);
    }
}

/// One worker iteration: claim one task non-blockingly; with nothing to
/// claim, report the queue empty. On a claimed task whose stored address
/// fails validation, remove the task without touching the transport — a
/// permanent skip, since the address will never become valid. On a valid
/// address, hand the issue's content to the transport exactly once and
/// remove the task whatever the transport answered: a failed send is
/// logged and skipped, never retried within this subsystem.
pub fn try_execute_task(store: &mut NewsletterStore, email_client: &mut DeliveryTransport) -> (r:
    Result<ExecutionOutcome, BizErrorEnum>)
    requires
        old(store)@.wf(),
    ensures
        ({
            let q = old(store)@.issue_delivery_queue;
            let k = first_unclaimed_index(q);
            if k == -1 {
                &&& r == Ok::<ExecutionOutcome, BizErrorEnum>(ExecutionOutcome::EmptyQueue)
                &&& *final(store) == *old(store)
                &&& *final(email_client) == *old(email_client)
            } else {
                let task = q[k];
                let issue = find_issue(
                    old(store)@.newsletter_issues,
                    task.newsletter_issue_id,
                )->Some_0;
                &&& r == Ok::<ExecutionOutcome, BizErrorEnum>(ExecutionOutcome::TaskCompleted)
                &&& final(store)@ == (StoreModel {
                    issue_delivery_queue: remove_task_pair(
                        q,
                        task.newsletter_issue_id,
                        task.subscriber_email,
                    ),
                    ..old(store)@
                })
                &&& final(store)@.wf()
                &&& if email_parse_error(task.subscriber_email) is Some {
                    *final(email_client) == *old(email_client)
                } else {
                    final(email_client)@.sent == old(email_client)@.sent.push(
                        SentEmailModel {
                            recipient: task.subscriber_email,
                            subject: issue.title,
                            html_content: issue.html_content,
                            text_content: issue.text_content,
                        },
                    ) && final(email_client)@.outcomes == (if old(email_client)@.outcomes.len()
                        > 0 {
                        old(email_client)@.outcomes.drop_first()
                    } else {
                        old(email_client)@.outcomes
                    })
                }
            }
        }),
{
    let task = dequeue_task(store);
    let (transaction, issue_id, email) = match task {
        None => {
            return Ok(ExecutionOutcome::EmptyQueue);
        },
        Some(t) => t,
    };
    let ghost q = old(store)@.issue_delivery_queue;
    let ghost k = first_unclaimed_index(q);
    proof {
        lemma_first_unclaimed_bounds(q);
    }
    match SubscriberEmail::parse(email.clone()) {
        Ok(parsed) => {
            let issue = match get_issue(store, issue_id) {
                Ok(issue) => issue,
                Err(e) => {
                    // Unreachable on a well-formed store: every queue row
                    // refers to an existing issue.
                    proof {
                        assert(store@.issue_delivery_queue[k].newsletter_issue_id == issue_id);
                        assert(false);
                    }
                    abandon_claim(store, transaction);
                    return Err(e);
                },
            };
            let send_outcome = email_client.send_email(
                &parsed,
                issue.title.as_str(),
                issue.html_content.as_str(),
                issue.text_content.as_str(),
            );
            match send_outcome {
                Ok(_) => {},
                Err(_) => {
                    // Failed to deliver the issue to a confirmed
                    // subscriber: skip it, by design, rather than retry.
                },
            }
        },
        Err(_) => {
            // The stored contact details are invalid: skip the subscriber
            // permanently, without invoking the transport.
        },
    }
    proof {
        lemma_remove_pair_claim_at(q, k, q[k].newsletter_issue_id, q[k].subscriber_email);
    }
    delete_task(store, transaction, issue_id, email.as_str());
    Ok(ExecutionOutcome::TaskCompleted)
}

/// How many seconds the worker loop rests after one iteration: ten when
/// the queue was empty, none after a completed task, one after an
/// unexpected failure — backing off without crashing the loop.
pub fn worker_sleep_seconds(outcome: &Result<ExecutionOutcome, BizErrorEnum>) -> (r: u64)
    ensures
        r == match outcome {
            Ok(ExecutionOutcome::EmptyQueue) => 10u64,
            Ok(ExecutionOutcome::TaskCompleted) => 0u64,
            Err(_) => 1u64,
        },
{
    match outcome {
        Ok(ExecutionOutcome::EmptyQueue) => 10,
        Ok(ExecutionOutcome::TaskCompleted) => 0,
        Err(_) => 1,
    }
}

/// A row that is unclaimed makes the unclaimed count positive.
proof fn lemma_one_unclaimed(q: Seq<TaskModel>, a: int)
    requires
        0 <= a < q.len(),
        !q[a].claimed,
    ensures
        count_unclaimed(q) >= 1,
    decreases q.len(),
{
    if a > 0 {
        assert(q.drop_first()[a - 1] == q[a]);
        lemma_one_unclaimed(q.drop_first(), a - 1);
    }
}

/// Two distinct unclaimed rows make the unclaimed count at least two.
proof fn lemma_two_unclaimed(q: Seq<TaskModel>, a: int, b: int)
    requires
        0 <= a < b < q.len(),
        !q[a].claimed,
        !q[b].claimed,
    ensures
        count_unclaimed(q) >= 2,
    decreases q.len(),
{
    if a == 0 {
        assert(q.drop_first()[b - 1] == q[b]);
        lemma_one_unclaimed(q.drop_first(), b - 1);
    } else {
        assert(q.drop_first()[a - 1] == q[a]);
        assert(q.drop_first()[b - 1] == q[b]);
        lemma_two_unclaimed(q.drop_first(), a - 1, b - 1);
    }
}

/// A claimable row exists exactly when the unclaimed count is positive.
proof fn lemma_first_unclaimed_in_range(q: Seq<TaskModel>)
    requires
        count_unclaimed(q) >= 1,
    ensures
        0 <= first_unclaimed_index(q) < q.len(),
        !q[first_unclaimed_index(q)].claimed,
    decreases q.len(),
{
    if q.len() > 0 && q[0].claimed {
        lemma_first_unclaimed_in_range(q.drop_first());
    }
}

/// No double claim: against a queue holding exactly one claimable row, one
/// claim attempt succeeds, and the queue it leaves behind offers nothing —
/// so every further concurrent attempt, serialized by the row lock, comes
/// back empty by `dequeue_task`'s contract, however many race.
pub proof fn lemma_no_double_claim(q: Seq<TaskModel>)
    requires
        count_unclaimed(q) == 1,
    ensures
        ({
            let k = first_unclaimed_index(q);
            &&& 0 <= k < q.len()
            &&& !q[k].claimed
            &&& first_unclaimed_index(claim_at(q, k)) == -1
        }),
{
    lemma_first_unclaimed_in_range(q);
    let k = first_unclaimed_index(q);
    assert forall|j: int| 0 <= j < claim_at(q, k).len() implies claim_at(q, k)[j].claimed by {
        if j != k && !q[j].claimed {
            if j < k {
                lemma_two_unclaimed(q, j, k);
            } else {
                lemma_two_unclaimed(q, k, j);
            }
        }
    }
    lemma_first_unclaimed_absent(claim_at(q, k));
}

} // verus!
