//! The subscription repository: subscriber and token rows, and transactional
//! persistence with all-or-nothing visibility.
//!
//! A `Transaction` stages writes over a base store; nothing staged is visible
//! in the committed store until `commit`, and `rollback` discards every
//! staged write. Lookup-before-insert keeps one subscriber row per email.

use vstd::prelude::*;
use crate::domain::NewSubscriber;
use crate::domain::NewSubscriberModel;
use crate::domain::SubscriberEmail;

verus! {

/// The lifecycle state of a subscriber row.
#[derive(Clone, Copy, Debug, PartialEq, Eq, Structural)]
pub enum SubscriberStatus {
    PendingConfirmation,
    Confirmed,
}

/// One row of the subscribers table.
pub struct SubscriberRow {
    pub id: u128,
    pub email: String,
    pub name: String,
    pub status: SubscriberStatus,
    pub subscribed_at: i64,
}

/// One row of the subscription tokens table.
pub struct TokenRow {
    pub subscription_token: String,
    pub subscriber_id: u128,
}

/// What a subscriber row holds, as plain values.
#[verifier::ext_equal]
pub struct SubscriberRowModel {
    pub id: u128,
    pub email: Seq<char>,
    pub name: Seq<char>,
    pub status: SubscriberStatus,
    pub subscribed_at: i64,
}

/// What a token row holds, as plain values.
#[verifier::ext_equal]
pub struct TokenRowModel {
    pub subscription_token: Seq<char>,
    pub subscriber_id: u128,
}

impl View for SubscriberRow {
    type V = SubscriberRowModel;

    open spec fn view(&self) -> SubscriberRowModel {
        SubscriberRowModel {
            id: self.id,
            email: self.email@,
            name: self.name@,
            status: self.status,
            subscribed_at: self.subscribed_at,
        }
    }
}

impl View for TokenRow {
    type V = TokenRowModel;

    open spec fn view(&self) -> TokenRowModel {
        TokenRowModel {
            subscription_token: self.subscription_token@,
            subscriber_id: self.subscriber_id,
        }
    }
}

/// The committed persistent state.
#[verifier::ext_equal]
pub struct StoreModel {
    pub subscribers: Seq<SubscriberRowModel>,
    pub tokens: Seq<TokenRowModel>,
}

/// A transaction in flight: the committed state it started from, and the
/// state its staged writes would commit.
#[verifier::ext_equal]
pub struct TransactionModel {
    pub base: StoreModel,
    pub work: StoreModel,
}

/// One staged write.
pub enum TxOp {
    InsertSubscriber(SubscriberRowModel),
    StoreToken(TokenRowModel),
}

pub open spec fn rows_model(s: Seq<SubscriberRow>) -> Seq<SubscriberRowModel> {
    s.map_values(|r: SubscriberRow| r@)
}

pub open spec fn tokens_model(s: Seq<TokenRow>) -> Seq<TokenRowModel> {
    s.map_values(|t: TokenRow| t@)
}

pub open spec fn spec_empty_store() -> StoreModel {
    StoreModel { subscribers: Seq::empty(), tokens: Seq::empty() }
}

/// The id of the first subscriber row with this email, if any.
pub open spec fn spec_lookup(subs: Seq<SubscriberRowModel>, email: Seq<char>) -> Option<u128>
    decreases subs.len(),
{
    if subs.len() == 0 {
        None
    } else if subs[0].email == email {
        Some(subs[0].id)
    } else {
        spec_lookup(subs.skip(1), email)
    }
}

pub open spec fn spec_store_insert(m: StoreModel, row: SubscriberRowModel) -> StoreModel {
    StoreModel { subscribers: m.subscribers.push(row), tokens: m.tokens }
}

pub open spec fn spec_store_add_token(m: StoreModel, t: TokenRowModel) -> StoreModel {
    StoreModel { subscribers: m.subscribers, tokens: m.tokens.push(t) }
}

pub open spec fn spec_apply_op(m: StoreModel, op: TxOp) -> StoreModel {
    match op {
        TxOp::InsertSubscriber(row) => spec_store_insert(m, row),
        TxOp::StoreToken(t) => spec_store_add_token(m, t),
    }
}

pub open spec fn spec_tx_begin(s: StoreModel) -> TransactionModel {
    TransactionModel { base: s, work: s }
}

pub open spec fn spec_tx_apply(t: TransactionModel, op: TxOp) -> TransactionModel {
    TransactionModel { base: t.base, work: spec_apply_op(t.work, op) }
}

pub open spec fn spec_tx_apply_ops(t: TransactionModel, ops: Seq<TxOp>) -> TransactionModel
    decreases ops.len(),
{
    if ops.len() == 0 {
        t
    } else {
        spec_tx_apply_ops(spec_tx_apply(t, ops[0]), ops.skip(1))
    }
}

pub open spec fn spec_rollback(t: TransactionModel) -> StoreModel {
    t.base
}

pub open spec fn spec_commit(t: TransactionModel) -> StoreModel {
    t.work
}

/// Lookup-or-create: reuse the existing row's id, or stage a new row under
/// the caller-generated id.
pub open spec fn spec_get_or_insert(m: StoreModel, row: SubscriberRowModel) -> (StoreModel, u128) {
    match spec_lookup(m.subscribers, row.email) {
        Some(id) => (m, id),
        None => (spec_store_insert(m, row), row.id),
    }
}

/// The subscriber row a validated request creates.
pub open spec fn spec_subscriber_row(sub: NewSubscriberModel, id: u128, subscribed_at: i64)
    -> SubscriberRowModel {
    SubscriberRowModel {
        id,
        email: sub.email,
        name: sub.name,
        status: SubscriberStatus::PendingConfirmation,
        subscribed_at,
    }
}

/// At most one subscriber row per distinct email value.
pub open spec fn emails_unique(subs: Seq<SubscriberRowModel>) -> bool {
    forall|i: int, j: int| 0 <= i < j < subs.len() ==> subs[i].email != subs[j].email
}

pub open spec fn spec_id_present(subs: Seq<SubscriberRowModel>, id: u128) -> bool {
    exists|i: int| 0 <= i < subs.len() && subs[i].id == id
}

/// Every token row references an existing subscriber.
pub open spec fn tokens_linked(m: StoreModel) -> bool {
    forall|i: int|
        0 <= i < m.tokens.len() ==> spec_id_present(m.subscribers, m.tokens[i].subscriber_id)
}

pub open spec fn store_wf(m: StoreModel) -> bool {
    emails_unique(m.subscribers) && tokens_linked(m)
}

/// How many subscriber rows carry this email.
pub open spec fn count_with_email(subs: Seq<SubscriberRowModel>, email: Seq<char>) -> nat
    decreases subs.len(),
{
    if subs.len() == 0 {
        0
    } else {
        (if subs[0].email == email {
            1nat
        } else {
            0nat
        }) + count_with_email(subs.skip(1), email)
    }
}

pub proof fn lemma_lookup_props(subs: Seq<SubscriberRowModel>, email: Seq<char>)
    ensures
        spec_lookup(subs, email) is None ==> forall|i: int|
            0 <= i < subs.len() ==> subs[i].email != email,
        spec_lookup(subs, email) matches Some(id) ==> exists|i: int|
            0 <= i < subs.len() && subs[i].email == email && subs[i].id == id,
    decreases subs.len(),
{
    if subs.len() > 0 && subs[0].email != email {
        lemma_lookup_props(subs.skip(1), email);
        if spec_lookup(subs, email) is None {
            assert forall|i: int| 0 <= i < subs.len() implies subs[i].email != email by {
                if i > 0 {
                    assert(subs.skip(1)[i - 1] == subs[i]);
                    assert(subs.skip(1)[i - 1].email != email);
                }
            }
        } else {
            let id = spec_lookup(subs, email).unwrap();
            let i = choose|i: int|
                0 <= i < subs.skip(1).len() && subs.skip(1)[i].email == email && subs.skip(
                    1,
                )[i].id == id;
            assert(subs[i + 1] == subs.skip(1)[i]);
        }
    }
}

pub proof fn lemma_lookup_concat(
    a: Seq<SubscriberRowModel>,
    b: Seq<SubscriberRowModel>,
    email: Seq<char>,
)
    ensures
        spec_lookup(a + b, email) == if spec_lookup(a, email) is Some {
            spec_lookup(a, email)
        } else {
            spec_lookup(b, email)
        },
    decreases a.len(),
{
    if a.len() == 0 {
        assert(a + b =~= b);
    } else {
        assert((a + b)[0] == a[0]);
        lemma_lookup_concat(a.skip(1), b, email);
        assert((a + b).skip(1) =~= a.skip(1) + b);
    }
}

pub proof fn lemma_count_zero(subs: Seq<SubscriberRowModel>, email: Seq<char>)
    requires
        forall|i: int| 0 <= i < subs.len() ==> subs[i].email != email,
    ensures
        count_with_email(subs, email) == 0,
    decreases subs.len(),
{
    if subs.len() > 0 {
        assert(forall|i: int|
            0 <= i < subs.skip(1).len() ==> subs.skip(1)[i] == subs[i + 1]);
        lemma_count_zero(subs.skip(1), email);
    }
}

pub proof fn lemma_count_bounds(subs: Seq<SubscriberRowModel>, email: Seq<char>)
    ensures
        spec_lookup(subs, email) is Some ==> count_with_email(subs, email) >= 1,
        emails_unique(subs) ==> count_with_email(subs, email) <= 1,
    decreases subs.len(),
{
    if subs.len() > 0 {
        assert(forall|i: int|
            0 <= i < subs.skip(1).len() ==> subs.skip(1)[i] == subs[i + 1]);
        lemma_count_bounds(subs.skip(1), email);
        if subs[0].email == email && emails_unique(subs) {
            assert forall|i: int| 0 <= i < subs.skip(1).len() implies subs.skip(1)[i].email
                != email by {
                assert(subs[i + 1].email != subs[0].email);
            }
            lemma_count_zero(subs.skip(1), email);
        }
    }
}

/// Lookup-or-create keeps the store invariant, and the id it returns names
/// a row of the resulting store.
pub proof fn lemma_get_or_insert_wf(m: StoreModel, row: SubscriberRowModel)
    requires
        store_wf(m),
    ensures
        store_wf(spec_get_or_insert(m, row).0),
        spec_id_present(spec_get_or_insert(m, row).0.subscribers, spec_get_or_insert(m, row).1),
        spec_lookup(
            spec_get_or_insert(m, row).0.subscribers,
            row.email,
        ) == Some(spec_get_or_insert(m, row).1),
{
    lemma_lookup_props(m.subscribers, row.email);
    match spec_lookup(m.subscribers, row.email) {
        Some(id) => {},
        None => {
            let subs2 = m.subscribers.push(row);
            assert forall|i: int, j: int| 0 <= i < j < subs2.len() implies subs2[i].email
                != subs2[j].email by {
                if j < m.subscribers.len() {
                    assert(subs2[i] == m.subscribers[i]);
                    assert(subs2[j] == m.subscribers[j]);
                } else {
                    assert(subs2[i] == m.subscribers[i]);
                    assert(subs2[j] == row);
                }
            }
            assert forall|i: int|
                0 <= i < m.tokens.len() implies spec_id_present(
                subs2,
                m.tokens[i].subscriber_id,
            ) by {
                let k = choose|k: int|
                    0 <= k < m.subscribers.len() && m.subscribers[k].id
                        == m.tokens[i].subscriber_id;
                assert(subs2[k] == m.subscribers[k]);
            }
            assert(subs2[m.subscribers.len() as int] == row);
            lemma_lookup_concat(m.subscribers, seq![row], row.email);
            assert(m.subscribers + seq![row] =~= subs2);
        },
    }
}

/// A stored token referencing an existing subscriber keeps the invariant.
pub proof fn lemma_add_token_wf(m: StoreModel, t: TokenRowModel)
    requires
        store_wf(m),
        spec_id_present(m.subscribers, t.subscriber_id),
    ensures
        store_wf(spec_store_add_token(m, t)),
{
    let m2 = spec_store_add_token(m, t);
    assert forall|i: int| 0 <= i < m2.tokens.len() implies spec_id_present(
        m2.subscribers,
        m2.tokens[i].subscriber_id,
    ) by {
        if i < m.tokens.len() {
            assert(m2.tokens[i] == m.tokens[i]);
        } else {
            assert(m2.tokens[i] == t);
        }
    }
}

/// Law (idempotent identity): subscribing twice with the same email, with
/// any names and any candidate ids, leaves exactly one subscriber row for
/// that email; the second call changes nothing and returns the id of the
/// first.
pub proof fn lemma_get_or_insert_idempotent(
    m: StoreModel,
    r1: SubscriberRowModel,
    r2: SubscriberRowModel,
)
    requires
        emails_unique(m.subscribers),
        r1.email == r2.email,
    ensures
        ({
            let (m1, id1) = spec_get_or_insert(m, r1);
            let (m2, id2) = spec_get_or_insert(m1, r2);
            &&& m2 == m1
            &&& id2 == id1
            &&& count_with_email(m1.subscribers, r1.email) == 1
        }),
{
    lemma_lookup_props(m.subscribers, r1.email);
    lemma_count_bounds(m.subscribers, r1.email);
    match spec_lookup(m.subscribers, r1.email) {
        Some(id) => {
            assert(count_with_email(m.subscribers, r1.email) == 1);
        },
        None => {
            let subs1 = m.subscribers.push(r1);
            lemma_lookup_concat(m.subscribers, seq![r1], r1.email);
            assert(m.subscribers + seq![r1] =~= subs1);
            assert(spec_lookup(seq![r1], r1.email) == Some(r1.id));
            assert(spec_lookup(subs1, r1.email) == Some(r1.id));
            lemma_count_zero(m.subscribers, r1.email);
            lemma_count_concat(m.subscribers, seq![r1], r1.email);
            assert(count_with_email(seq![r1], r1.email) == 1) by {
                assert(seq![r1].skip(1) =~= Seq::<SubscriberRowModel>::empty());
                assert(count_with_email(Seq::<SubscriberRowModel>::empty(), r1.email) == 0);
            };
            assert(count_with_email(subs1, r1.email) == 1);
        },
    }
}

pub proof fn lemma_count_concat(
    a: Seq<SubscriberRowModel>,
    b: Seq<SubscriberRowModel>,
    email: Seq<char>,
)
    ensures
        count_with_email(a + b, email) == count_with_email(a, email) + count_with_email(b, email),
    decreases a.len(),
{
    if a.len() == 0 {
        assert(a + b =~= b);
    } else {
        assert((a + b)[0] == a[0]);
        lemma_count_concat(a.skip(1), b, email);
        assert((a + b).skip(1) =~= a.skip(1) + b);
    }
}

/// Staged writes never touch the committed store a transaction started from.
pub proof fn lemma_apply_ops_base(t: TransactionModel, ops: Seq<TxOp>)
    ensures
        spec_tx_apply_ops(t, ops).base == t.base,
    decreases ops.len(),
{
    if ops.len() > 0 {
        lemma_apply_ops_base(spec_tx_apply(t, ops[0]), ops.skip(1));
    }
}

/// Law (atomicity): however many writes a transaction has staged, rolling
/// it back leaves the committed store exactly as it was at begin.
pub proof fn lemma_rollback_atomic(s: StoreModel, ops: Seq<TxOp>)
    ensures
        spec_rollback(spec_tx_apply_ops(spec_tx_begin(s), ops)) == s,
{
    lemma_apply_ops_base(spec_tx_begin(s), ops);
}

/// The committed persistent state: two append-only tables.
pub struct SubscriptionStore {
    pub subscribers: Vec<SubscriberRow>,
    pub tokens: Vec<TokenRow>,
}

impl View for SubscriptionStore {
    type V = StoreModel;

    open spec fn view(&self) -> StoreModel {
        StoreModel { subscribers: rows_model(self.subscribers@), tokens: tokens_model(self.tokens@) }
    }
}

impl SubscriptionStore {
    pub fn new() -> (s: SubscriptionStore)
        ensures
            s@ == spec_empty_store(),
    {
        let s = SubscriptionStore { subscribers: Vec::new(), tokens: Vec::new() };
        proof {
            assert(s@.subscribers =~= spec_empty_store().subscribers);
            assert(s@.tokens =~= spec_empty_store().tokens);
        }
        s
    }
}

/// A transaction in flight: staged rows become visible only at commit.
pub struct Transaction {
    base: SubscriptionStore,
    new_subscribers: Vec<SubscriberRow>,
    new_tokens: Vec<TokenRow>,
}

impl View for Transaction {
    type V = TransactionModel;

    closed spec fn view(&self) -> TransactionModel {
        TransactionModel {
            base: self.base@,
            work: StoreModel {
                subscribers: rows_model(self.base.subscribers@) + rows_model(
                    self.new_subscribers@,
                ),
                tokens: tokens_model(self.base.tokens@) + tokens_model(self.new_tokens@),
            },
        }
    }
}

impl Transaction {
    /// Opens a transaction over the store's current state.
    pub fn begin(store: SubscriptionStore) -> (tx: Transaction)
        ensures
            tx@ == spec_tx_begin(store@),
    {
        let tx = Transaction { base: store, new_subscribers: Vec::new(), new_tokens: Vec::new() };
        proof {
            assert(tx@.work.subscribers =~= tx@.base.subscribers);
            assert(tx@.work.tokens =~= tx@.base.tokens);
            assert(tx@ =~= spec_tx_begin(tx@.base));
        }
        tx
    }

    /// Makes every staged write durable, atomically.
    pub fn commit(self) -> (s: SubscriptionStore)
        ensures
            s@ == spec_commit(self@),
    {
        let ghost tm = self@;
        let Transaction { mut base, mut new_subscribers, mut new_tokens } = self;
        base.subscribers.append(&mut new_subscribers);
        base.tokens.append(&mut new_tokens);
        proof {
            assert(rows_model(base.subscribers@) =~= tm.work.subscribers);
            assert(tokens_model(base.tokens@) =~= tm.work.tokens);
        }
        base
    }

    /// Discards every staged write; the committed store is untouched.
    pub fn rollback(self) -> (s: SubscriptionStore)
        ensures
            s@ == spec_rollback(self@),
    {
        let Transaction { base, .. } = self;
        base
    }
}

fn find_in(v: &Vec<SubscriberRow>, email: &SubscriberEmail) -> (r: Option<u128>)
    ensures
        r == spec_lookup(rows_model(v@), email@),
{
    let ghost m = rows_model(v@);
    proof {
        assert(m.skip(0) =~= m);
    }
    let mut i: usize = 0;
    while i < v.len()
        invariant
            i <= v.len(),
            m == rows_model(v@),
            spec_lookup(m, email@) == spec_lookup(m.skip(i as int), email@),
        decreases v.len() - i,
    {
        proof {
            assert(m.skip(i as int)[0] == m[i as int]);
            assert(m[i as int] == v@[i as int]@);
        }
        if v[i].email == *email.as_string() {
            return Some(v[i].id);
        }
        proof {
            assert(m.skip(i as int).skip(1) =~= m.skip(i + 1 as int));
        }
        i += 1;
    }
    proof {
        assert(m.skip(v@.len() as int) =~= Seq::<SubscriberRowModel>::empty());
    }
    None
}

/// Point lookup inside the transaction: staged rows are visible to it.
pub fn get_subscriber_id_by_email(tx: &Transaction, email: &SubscriberEmail) -> (r: Option<u128>)
    ensures
        r == spec_lookup(tx@.work.subscribers, email@),
{
    proof {
        lemma_lookup_concat(
            rows_model(tx.base.subscribers@),
            rows_model(tx.new_subscribers@),
            email@,
        );
    }
    let found = find_in(&tx.base.subscribers, email);
    match found {
        Some(id) => Some(id),
        None => find_in(&tx.new_subscribers, email),
    }
}

/// Stages a new subscriber row, pending confirmation, under the
/// caller-generated id.
pub fn insert_subscriber(
    tx: &mut Transaction,
    new_subscriber: &NewSubscriber,
    id: u128,
    subscribed_at: i64,
) -> (r: u128)
    ensures
        final(tx)@ == spec_tx_apply(
            old(tx)@,
            TxOp::InsertSubscriber(spec_subscriber_row(new_subscriber@, id, subscribed_at)),
        ),
        r == id,
{
    let row = SubscriberRow {
        id,
        email: new_subscriber.email.to_string(),
        name: new_subscriber.name.to_string(),
        status: SubscriberStatus::PendingConfirmation,
        subscribed_at,
    };
    tx.new_subscribers.push(row);
    proof {
        assert(tx@.work.subscribers =~= old(tx)@.work.subscribers.push(
            spec_subscriber_row(new_subscriber@, id, subscribed_at),
        ));
        assert(tx@.work.tokens =~= old(tx)@.work.tokens);
        assert(tx@ =~= spec_tx_apply(
            old(tx)@,
            TxOp::InsertSubscriber(spec_subscriber_row(new_subscriber@, id, subscribed_at)),
        ));
    }
    id
}

/// Lookup-or-create: the idempotency boundary. Repeated subscribe calls for
/// one email converge on the same subscriber id.
pub fn get_or_insert_subscriber(
    tx: &mut Transaction,
    new_subscriber: &NewSubscriber,
    candidate_id: u128,
    subscribed_at: i64,
) -> (r: u128)
    ensures
        ({
            let row = spec_subscriber_row(new_subscriber@, candidate_id, subscribed_at);
            let (w2, id) = spec_get_or_insert(old(tx)@.work, row);
            &&& final(tx)@.base == old(tx)@.base
            &&& final(tx)@.work == w2
            &&& r == id
        }),
{
    let found = get_subscriber_id_by_email(tx, &new_subscriber.email);
    match found {
        Some(id) => id,
        None => insert_subscriber(tx, new_subscriber, candidate_id, subscribed_at),
    }
}

/// Stages a token row for the given subscriber.
pub fn store_token(tx: &mut Transaction, subscriber_id: u128, subscription_token: &str)
    ensures
        final(tx)@ == spec_tx_apply(
            old(tx)@,
            TxOp::StoreToken(
                TokenRowModel { subscription_token: subscription_token@, subscriber_id },
            ),
        ),
{
    let row = TokenRow { subscription_token: subscription_token.to_owned(), subscriber_id };
    tx.new_tokens.push(row);
    proof {
        assert(tx@.work.tokens =~= old(tx)@.work.tokens.push(
            TokenRowModel { subscription_token: subscription_token@, subscriber_id },
        ));
        assert(tx@.work.subscribers =~= old(tx)@.work.subscribers);
        assert(tx@ =~= spec_tx_apply(
            old(tx)@,
            TxOp::StoreToken(
                TokenRowModel { subscription_token: subscription_token@, subscriber_id },
            ),
        ));
    }
}

} // verus!
