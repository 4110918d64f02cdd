//! The durable state the publication core owns, modelled as plain rows:
//! subscribers, subscription tokens, the idempotency record table, the
//! newsletter issues, and the issue delivery queue. All coordination of the
//! real system goes through one relational database; this model captures the
//! committed contents of its tables, and a pending claim's row-level lock as
//! a mark on the queue row.

use crate::http::{ResponseModel, StoredResponse};
use vstd::prelude::*;

verus! {

/// A subscription's lifecycle state.
#[derive(Debug, PartialEq, Eq, Structural, Clone, Copy)]
pub enum SubscriberStatus {
    PendingConfirmation,
    Confirmed,
}

/// One row of the subscriptions table.
pub struct SubscriberRow {
    pub id: u128,
    pub email: String,
    pub name: String,
    pub status: SubscriberStatus,
    pub subscribed_at: i64,
}

/// Mathematical value of a `SubscriberRow`.
#[verifier::ext_equal]
pub struct SubscriberModel {
    pub id: u128,
    pub email: Seq<char>,
    pub name: Seq<char>,
    pub status: SubscriberStatus,
    pub subscribed_at: i64,
}

impl View for SubscriberRow {
    type V = SubscriberModel;

    open spec fn view(&self) -> SubscriberModel {
        SubscriberModel {
            id: self.id,
            email: self.email@,
            name: self.name@,
            status: self.status,
            subscribed_at: self.subscribed_at,
        }
    }
}

/// One row of the subscription tokens table.
pub struct TokenRow {
    pub subscription_token: String,
    pub subscriber_id: u128,
}

/// Mathematical value of a `TokenRow`.
#[verifier::ext_equal]
pub struct TokenModel {
    pub subscription_token: Seq<char>,
    pub subscriber_id: u128,
}

impl View for TokenRow {
    type V = TokenModel;

    open spec fn view(&self) -> TokenModel {
        TokenModel {
            subscription_token: self.subscription_token@,
            subscriber_id: self.subscriber_id,
        }
    }
}

/// One row of the idempotency table. A row whose `response` is `None` is a
/// placeholder: processing has started but not completed.
pub struct IdempotencyRow {
    pub user_id: u128,
    pub idempotency_key: String,
    pub response: Option<StoredResponse>,
    pub created_at: i64,
}

/// Mathematical value of an `IdempotencyRow`.
#[verifier::ext_equal]
pub struct RecordModel {
    pub user_id: u128,
    pub idempotency_key: Seq<char>,
    pub response: Option<ResponseModel>,
    pub created_at: i64,
}

impl View for IdempotencyRow {
    type V = RecordModel;

    open spec fn view(&self) -> RecordModel {
        RecordModel {
            user_id: self.user_id,
            idempotency_key: self.idempotency_key@,
            response: match self.response {
                Some(ref r) => Some(r@),
                None => None,
            },
            created_at: self.created_at,
        }
    }
}

/// One row of the newsletter issues table. Immutable once created.
pub struct NewsletterIssue {
    pub newsletter_issue_id: u128,
    pub title: String,
    pub text_content: String,
    pub html_content: String,
    pub published_at: i64,
}

/// Mathematical value of a `NewsletterIssue`.
#[verifier::ext_equal]
pub struct IssueModel {
    pub newsletter_issue_id: u128,
    pub title: Seq<char>,
    pub text_content: Seq<char>,
    pub html_content: Seq<char>,
    pub published_at: i64,
}

impl View for NewsletterIssue {
    type V = IssueModel;

    open spec fn view(&self) -> IssueModel {
        IssueModel {
            newsletter_issue_id: self.newsletter_issue_id,
            title: self.title@,
            text_content: self.text_content@,
            html_content: self.html_content@,
            published_at: self.published_at,
        }
    }
}

impl NewsletterIssue {
    /// An exact copy; the contract (unlike a derived `Clone`'s) states it.
    pub fn duplicate(&self) -> (r: Self)
        ensures
            r@ == self@,
    {
        NewsletterIssue {
            newsletter_issue_id: self.newsletter_issue_id,
            title: self.title.clone(),
            text_content: self.text_content.clone(),
            html_content: self.html_content.clone(),
            published_at: self.published_at,
        }
    }
}

/// One row of the issue delivery queue. `claimed` is not a column: it models
/// the row-level lock held by a claimant's open transaction, under which
/// other claimants skip the row instead of blocking on it.
pub struct DeliveryTask {
    pub newsletter_issue_id: u128,
    pub subscriber_email: String,
    pub claimed: bool,
}

/// Mathematical value of a `DeliveryTask`.
#[verifier::ext_equal]
pub struct TaskModel {
    pub newsletter_issue_id: u128,
    pub subscriber_email: Seq<char>,
    pub claimed: bool,
}

impl View for DeliveryTask {
    type V = TaskModel;

    open spec fn view(&self) -> TaskModel {
        TaskModel {
            newsletter_issue_id: self.newsletter_issue_id,
            subscriber_email: self.subscriber_email@,
            claimed: self.claimed,
        }
    }
}

/// The committed contents of the tables the core owns.
pub struct NewsletterStore {
    pub subscribers: Vec<SubscriberRow>,
    pub subscription_tokens: Vec<TokenRow>,
    pub idempotency: Vec<IdempotencyRow>,
    pub newsletter_issues: Vec<NewsletterIssue>,
    pub issue_delivery_queue: Vec<DeliveryTask>,
}

/// Mathematical value of a `NewsletterStore`.
#[verifier::ext_equal]
pub struct StoreModel {
    pub subscribers: Seq<SubscriberModel>,
    pub subscription_tokens: Seq<TokenModel>,
    pub idempotency: Seq<RecordModel>,
    pub newsletter_issues: Seq<IssueModel>,
    pub issue_delivery_queue: Seq<TaskModel>,
}

/// The models of a sequence of subscriber rows.
pub open spec fn subscriber_views(s: Seq<SubscriberRow>) -> Seq<SubscriberModel> {
    s.map_values(|r: SubscriberRow| r@)
}

/// The models of a sequence of token rows.
pub open spec fn token_views(s: Seq<TokenRow>) -> Seq<TokenModel> {
    s.map_values(|r: TokenRow| r@)
}

/// The models of a sequence of idempotency rows.
pub open spec fn record_views(s: Seq<IdempotencyRow>) -> Seq<RecordModel> {
    s.map_values(|r: IdempotencyRow| r@)
}

/// The models of a sequence of issue rows.
pub open spec fn issue_views(s: Seq<NewsletterIssue>) -> Seq<IssueModel> {
    s.map_values(|r: NewsletterIssue| r@)
}

/// The models of a sequence of queue rows.
pub open spec fn task_views(s: Seq<DeliveryTask>) -> Seq<TaskModel> {
    s.map_values(|r: DeliveryTask| r@)
}

impl View for NewsletterStore {
    type V = StoreModel;

    open spec fn view(&self) -> StoreModel {
        StoreModel {
            subscribers: subscriber_views(self.subscribers@),
            subscription_tokens: token_views(self.subscription_tokens@),
            idempotency: record_views(self.idempotency@),
            newsletter_issues: issue_views(self.newsletter_issues@),
            issue_delivery_queue: task_views(self.issue_delivery_queue@),
        }
    }
}

impl NewsletterStore {
    /// A store with every table empty.
    pub fn new() -> (r: Self)
        ensures
            r@.subscribers == Seq::<SubscriberModel>::empty(),
            r@.subscription_tokens == Seq::<TokenModel>::empty(),
            r@.idempotency == Seq::<RecordModel>::empty(),
            r@.newsletter_issues == Seq::<IssueModel>::empty(),
            r@.issue_delivery_queue == Seq::<TaskModel>::empty(),
            r@.wf(),
    {
        let r = NewsletterStore {
            subscribers: Vec::new(),
            subscription_tokens: Vec::new(),
            idempotency: Vec::new(),
            newsletter_issues: Vec::new(),
            issue_delivery_queue: Vec::new(),
        };
        proof {
            assert(r@.subscribers =~= Seq::<SubscriberModel>::empty());
            assert(r@.subscription_tokens =~= Seq::<TokenModel>::empty());
            assert(r@.idempotency =~= Seq::<RecordModel>::empty());
            assert(r@.newsletter_issues =~= Seq::<IssueModel>::empty());
            assert(r@.issue_delivery_queue =~= Seq::<TaskModel>::empty());
        }
        r
    }
}

/// Mapping to models commutes with appending one subscriber row.
pub proof fn lemma_subscriber_views_push(s: Seq<SubscriberRow>, r: SubscriberRow)
    ensures
        subscriber_views(s.push(r)) == subscriber_views(s).push(r@),
{
    assert(subscriber_views(s.push(r)) =~= subscriber_views(s).push(r@));
}

/// Mapping to models commutes with appending one token row.
pub proof fn lemma_token_views_push(s: Seq<TokenRow>, r: TokenRow)
    ensures
        token_views(s.push(r)) == token_views(s).push(r@),
{
    assert(token_views(s.push(r)) =~= token_views(s).push(r@));
}

/// Mapping to models commutes with appending one record row.
pub proof fn lemma_record_views_push(s: Seq<IdempotencyRow>, r: IdempotencyRow)
    ensures
        record_views(s.push(r)) == record_views(s).push(r@),
{
    assert(record_views(s.push(r)) =~= record_views(s).push(r@));
}

/// Mapping to models commutes with appending one issue row.
pub proof fn lemma_issue_views_push(s: Seq<NewsletterIssue>, r: NewsletterIssue)
    ensures
        issue_views(s.push(r)) == issue_views(s).push(r@),
{
    assert(issue_views(s.push(r)) =~= issue_views(s).push(r@));
}

/// Mapping to models commutes with appending one queue row.
pub proof fn lemma_task_views_push(s: Seq<DeliveryTask>, r: DeliveryTask)
    ensures
        task_views(s.push(r)) == task_views(s).push(r@),
{
    assert(task_views(s.push(r)) =~= task_views(s).push(r@));
}

/// Mapping to models distributes over concatenation of queue rows.
pub proof fn lemma_task_views_add(a: Seq<DeliveryTask>, b: Seq<DeliveryTask>)
    ensures
        task_views(a + b) == task_views(a) + task_views(b),
{
    assert(task_views(a + b) =~= task_views(a) + task_views(b));
}

/// The record for (`user_id`, `key`), if one exists.
pub open spec fn find_record(
    rows: Seq<RecordModel>,
    user_id: u128,
    key: Seq<char>,
) -> Option<RecordModel>
    decreases rows.len(),
{
    if rows.len() == 0 {
        None
    } else if rows[0].user_id == user_id && rows[0].idempotency_key == key {
        Some(rows[0])
    } else {
        find_record(rows.drop_first(), user_id, key)
    }
}

/// The issue with `newsletter_issue_id`, if one exists.
pub open spec fn find_issue(rows: Seq<IssueModel>, newsletter_issue_id: u128) -> Option<IssueModel>
    decreases rows.len(),
{
    if rows.len() == 0 {
        None
    } else if rows[0].newsletter_issue_id == newsletter_issue_id {
        Some(rows[0])
    } else {
        find_issue(rows.drop_first(), newsletter_issue_id)
    }
}

/// Whether some subscriber row carries `email`.
pub open spec fn subscriber_email_taken(rows: Seq<SubscriberModel>, email: Seq<char>) -> bool
    decreases rows.len(),
{
    if rows.len() == 0 {
        false
    } else if rows[0].email == email {
        true
    } else {
        subscriber_email_taken(rows.drop_first(), email)
    }
}

/// The token row carrying `token`, if one exists.
pub open spec fn find_token(rows: Seq<TokenModel>, token: Seq<char>) -> Option<TokenModel>
    decreases rows.len(),
{
    if rows.len() == 0 {
        None
    } else if rows[0].subscription_token == token {
        Some(rows[0])
    } else {
        find_token(rows.drop_first(), token)
    }
}

/// The position of the first queue row no claimant holds, or `-1`.
pub open spec fn first_unclaimed_index(rows: Seq<TaskModel>) -> int
    decreases rows.len(),
{
    if rows.len() == 0 {
        -1
    } else if !rows[0].claimed {
        0
    } else {
        let rest = first_unclaimed_index(rows.drop_first());
        if rest == -1 {
            -1
        } else {
            rest + 1
        }
    }
}

/// How many queue rows no claimant holds.
pub open spec fn count_unclaimed(rows: Seq<TaskModel>) -> nat
    decreases rows.len(),
{
    if rows.len() == 0 {
        0
    } else {
        (if !rows[0].claimed {
            1nat
        } else {
            0nat
        }) + count_unclaimed(rows.drop_first())
    }
}

/// The queue without the rows for (`newsletter_issue_id`, `email`).
pub open spec fn remove_task_pair(
    rows: Seq<TaskModel>,
    newsletter_issue_id: u128,
    email: Seq<char>,
) -> Seq<TaskModel>
    decreases rows.len(),
{
    if rows.len() == 0 {
        Seq::empty()
    } else {
        let rest = remove_task_pair(rows.drop_first(), newsletter_issue_id, email);
        if rows[0].newsletter_issue_id == newsletter_issue_id && rows[0].subscriber_email
            == email {
            rest
        } else {
            seq![rows[0]] + rest
        }
    }
}

/// The queue rows that belong to `newsletter_issue_id`, in order.
pub open spec fn tasks_for_issue(rows: Seq<TaskModel>, newsletter_issue_id: u128) -> Seq<
    TaskModel,
>
    decreases rows.len(),
{
    if rows.len() == 0 {
        Seq::empty()
    } else {
        let rest = tasks_for_issue(rows.drop_first(), newsletter_issue_id);
        if rows[0].newsletter_issue_id == newsletter_issue_id {
            seq![rows[0]] + rest
        } else {
            rest
        }
    }
}

/// The emails of the confirmed subscribers, in table order: the snapshot the
/// commit protocol enumerates.
pub open spec fn confirmed_emails(rows: Seq<SubscriberModel>) -> Seq<Seq<char>>
    decreases rows.len(),
{
    if rows.len() == 0 {
        Seq::empty()
    } else {
        let rest = confirmed_emails(rows.drop_first());
        if rows[0].status == SubscriberStatus::Confirmed {
            seq![rows[0].email] + rest
        } else {
            rest
        }
    }
}

impl StoreModel {
    /// Whether a completed record exists for (`user_id`, `key`).
    pub open spec fn has_completed_record(self, user_id: u128, key: Seq<char>) -> bool {
        match find_record(self.idempotency, user_id, key) {
            Some(r) => r.response is Some,
            None => false,
        }
    }

    /// The table invariants the real schema enforces, plus referential
    /// integrity of the queue: at most one record per (user, key) pair, at
    /// most one issue per id, unique subscriber emails and ids, unique
    /// tokens, at most one queue row per (issue, email) pair, and every
    /// queue row referring to an existing issue.
    pub open spec fn wf(self) -> bool {
        &&& forall|i: int, j: int|
            0 <= i < j < self.idempotency.len() ==> !(self.idempotency[i].user_id
                == self.idempotency[j].user_id && self.idempotency[i].idempotency_key
                == self.idempotency[j].idempotency_key)
        &&& forall|i: int, j: int|
            0 <= i < j < self.newsletter_issues.len()
                ==> self.newsletter_issues[i].newsletter_issue_id
                != self.newsletter_issues[j].newsletter_issue_id
        &&& forall|i: int, j: int|
            0 <= i < j < self.subscribers.len() ==> self.subscribers[i].email
                != self.subscribers[j].email
        &&& forall|i: int, j: int|
            0 <= i < j < self.subscribers.len() ==> self.subscribers[i].id
                != self.subscribers[j].id
        &&& forall|i: int, j: int|
            0 <= i < j < self.subscription_tokens.len()
                ==> self.subscription_tokens[i].subscription_token
                != self.subscription_tokens[j].subscription_token
        &&& forall|i: int, j: int|
            0 <= i < j < self.issue_delivery_queue.len() ==> !(
            self.issue_delivery_queue[i].newsletter_issue_id
                == self.issue_delivery_queue[j].newsletter_issue_id
                && self.issue_delivery_queue[i].subscriber_email
                == self.issue_delivery_queue[j].subscriber_email)
        &&& forall|i: int|
            0 <= i < self.issue_delivery_queue.len() ==> find_issue(
                self.newsletter_issues,
                #[trigger] self.issue_delivery_queue[i].newsletter_issue_id,
            ) is Some
    }
}

/// `find_record` finds exactly the rows that are there: it returns a row
/// if and only if some position holds a matching one.
pub proof fn lemma_find_record_exists(rows: Seq<RecordModel>, user_id: u128, key: Seq<char>)
    ensures
        (find_record(rows, user_id, key) is Some) <==> exists|i: int|
            0 <= i < rows.len() && #[trigger] rows[i].user_id == user_id
                && rows[i].idempotency_key == key,
        find_record(rows, user_id, key) matches Some(r) ==> exists|i: int|
            0 <= i < rows.len() && rows[i] == r && r.user_id == user_id && r.idempotency_key
                == key,
    decreases rows.len(),
{
    if rows.len() > 0 {
        lemma_find_record_exists(rows.drop_first(), user_id, key);
        if rows[0].user_id == user_id && rows[0].idempotency_key == key {
        } else {
            assert forall|i: int|
                0 <= i < rows.len() && #[trigger] rows[i].user_id == user_id
                    && rows[i].idempotency_key == key implies exists|k: int|
                0 <= k < rows.drop_first().len() && #[trigger] rows.drop_first()[k].user_id
                    == user_id && rows.drop_first()[k].idempotency_key == key by {
                assert(rows.drop_first()[i - 1] == rows[i]);
            }
        }
    }
}

/// How a lookup behaves after appending one record row.
pub proof fn lemma_find_record_push(
    rows: Seq<RecordModel>,
    row: RecordModel,
    user_id: u128,
    key: Seq<char>,
)
    ensures
        find_record(rows.push(row), user_id, key) == if find_record(rows, user_id, key)
            is Some {
            find_record(rows, user_id, key)
        } else if row.user_id == user_id && row.idempotency_key == key {
            Some(row)
        } else {
            None::<RecordModel>
        },
    decreases rows.len(),
{
    if rows.len() == 0 {
        assert(rows.push(row)[0] == row);
        assert(rows.push(row).drop_first() =~= Seq::<RecordModel>::empty());
        assert(find_record(rows, user_id, key) is None);
        if row.user_id == user_id && row.idempotency_key == key {
            assert(find_record(rows.push(row), user_id, key) == Some(row));
        } else {
            assert(find_record(rows.push(row), user_id, key)
                == find_record(rows.push(row).drop_first(), user_id, key));
            assert(find_record(rows.push(row), user_id, key) is None);
        }
    } else {
        lemma_find_record_push(rows.drop_first(), row, user_id, key);
        assert(rows.push(row)[0] == rows[0]);
        assert(rows.push(row).drop_first() =~= rows.drop_first().push(row));
        if rows[0].user_id == user_id && rows[0].idempotency_key == key {
            assert(find_record(rows.push(row), user_id, key) == Some(rows[0]));
            assert(find_record(rows, user_id, key) == Some(rows[0]));
        } else {
            assert(find_record(rows.push(row), user_id, key)
                == find_record(rows.drop_first().push(row), user_id, key));
            assert(find_record(rows, user_id, key)
                == find_record(rows.drop_first(), user_id, key));
        }
    }
}

/// How a lookup behaves after appending one issue row.
pub proof fn lemma_find_issue_push(rows: Seq<IssueModel>, row: IssueModel, id: u128)
    ensures
        find_issue(rows.push(row), id) == if find_issue(rows, id) is Some {
            find_issue(rows, id)
        } else if row.newsletter_issue_id == id {
            Some(row)
        } else {
            None::<IssueModel>
        },
    decreases rows.len(),
{
    if rows.len() == 0 {
        assert(rows.push(row)[0] == row);
        assert(rows.push(row).drop_first() =~= Seq::<IssueModel>::empty());
        assert(find_issue(rows, id) is None);
        if row.newsletter_issue_id == id {
            assert(find_issue(rows.push(row), id) == Some(row));
        } else {
            assert(find_issue(rows.push(row), id)
                == find_issue(rows.push(row).drop_first(), id));
            assert(find_issue(rows.push(row), id) is None);
        }
    } else {
        lemma_find_issue_push(rows.drop_first(), row, id);
        assert(rows.push(row)[0] == rows[0]);
        assert(rows.push(row).drop_first() =~= rows.drop_first().push(row));
        if rows[0].newsletter_issue_id == id {
            assert(find_issue(rows.push(row), id) == Some(rows[0]));
            assert(find_issue(rows, id) == Some(rows[0]));
        } else {
            assert(find_issue(rows.push(row), id)
                == find_issue(rows.drop_first().push(row), id));
            assert(find_issue(rows, id) == find_issue(rows.drop_first(), id));
        }
    }
}

/// `find_issue` finds exactly the rows that are there.
pub proof fn lemma_find_issue_exists(rows: Seq<IssueModel>, id: u128)
    ensures
        (find_issue(rows, id) is Some) <==> exists|i: int|
            0 <= i < rows.len() && #[trigger] rows[i].newsletter_issue_id == id,
        find_issue(rows, id) matches Some(r) ==> r.newsletter_issue_id == id && exists|i: int|
            0 <= i < rows.len() && rows[i] == r,
    decreases rows.len(),
{
    if rows.len() > 0 {
        lemma_find_issue_exists(rows.drop_first(), id);
        if rows[0].newsletter_issue_id == id {
        } else {
            assert forall|i: int|
                0 <= i < rows.len() && #[trigger] rows[i].newsletter_issue_id == id
                implies exists|k: int|
                0 <= k < rows.drop_first().len()
                    && #[trigger] rows.drop_first()[k].newsletter_issue_id == id by {
                assert(rows.drop_first()[i - 1] == rows[i]);
            }
            if let Some(r) = find_issue(rows.drop_first(), id) {
                let k = choose|k: int|
                    0 <= k < rows.drop_first().len() && rows.drop_first()[k] == r;
                assert(rows[k + 1] == r);
            }
        }
    }
}

/// `subscriber_email_taken` holds exactly when some row carries the email.
pub proof fn lemma_email_taken_exists(rows: Seq<SubscriberModel>, email: Seq<char>)
    ensures
        subscriber_email_taken(rows, email) <==> exists|i: int|
            0 <= i < rows.len() && #[trigger] rows[i].email == email,
    decreases rows.len(),
{
    if rows.len() > 0 {
        lemma_email_taken_exists(rows.drop_first(), email);
        if rows[0].email == email {
        } else {
            assert forall|i: int|
                0 <= i < rows.len() && #[trigger] rows[i].email == email
                implies exists|k: int|
                0 <= k < rows.drop_first().len() && #[trigger] rows.drop_first()[k].email
                    == email by {
                assert(rows.drop_first()[i - 1] == rows[i]);
            }
        }
    }
}

/// `find_token` finds exactly the rows that are there.
pub proof fn lemma_find_token_exists(rows: Seq<TokenModel>, token: Seq<char>)
    ensures
        (find_token(rows, token) is Some) <==> exists|i: int|
            0 <= i < rows.len() && #[trigger] rows[i].subscription_token == token,
    decreases rows.len(),
{
    if rows.len() > 0 {
        lemma_find_token_exists(rows.drop_first(), token);
        if rows[0].subscription_token == token {
        } else {
            assert forall|i: int|
                0 <= i < rows.len() && #[trigger] rows[i].subscription_token == token
                implies exists|k: int|
                0 <= k < rows.drop_first().len()
                    && #[trigger] rows.drop_first()[k].subscription_token == token by {
                assert(rows.drop_first()[i - 1] == rows[i]);
            }
        }
    }
}

} // verus!
