//! The subscription workflow: validate the request, persist subscriber and
//! token atomically, then build the confirmation email that is dispatched
//! after commit.
//!
//! The driver around the library performs the actual HTTP POST for the
//! returned `EmailRequest` and reports the outcome through
//! `dispatch_outcome` and `response_code`.

use vstd::prelude::*;
use vstd::string::*;
use crate::domain::NewSubscriber;
use crate::domain::NewSubscriberModel;
use crate::domain::SubscriberEmail;
use crate::domain::SubscriberName;
use crate::domain::ValidationError;
use crate::domain::spec_email_is_valid;
use crate::domain::spec_name_is_valid;
use crate::domain::count_char;
use crate::email_client::EmailClient;
use crate::email_client::EmailClientModel;
use crate::email_client::EmailRequest;
use crate::email_client::EmailRequestModel;
use crate::email_client::spec_send_request;
use crate::form::FormData;
use crate::form::FormDataModel;
use crate::form::parse_form_body;
use crate::form::spec_parse_form;
use crate::form::spec_pairs;
use crate::form::spec_decode;
use crate::form::spec_collect;
use crate::store::StoreModel;
use crate::store::SubscriptionStore;
use crate::store::Transaction;
use crate::store::TokenRowModel;
use crate::store::get_or_insert_subscriber;
use crate::store::spec_get_or_insert;
use crate::store::spec_store_add_token;
use crate::store::spec_subscriber_row;
use crate::store::store_token;
use crate::store::store_wf;
use crate::store::spec_lookup;
use crate::store::lemma_get_or_insert_wf;
use crate::store::lemma_add_token_wf;
use crate::store::lemma_get_or_insert_idempotent;
use crate::store::emails_unique;
use crate::store::count_with_email;
use crate::token::generate_subscription_token;
use crate::token::spec_token_is_valid;

verus! {

/// Relies on uuid's `Uuid::new_v4`: a freshly generated random v4 id,
/// carried as its 128-bit value. The value is random; nothing is promised
/// of it.
#[verifier::external_body]
fn new_subscriber_id() -> u128 {
    uuid::Uuid::new_v4().as_u128()
}

/// Relies on chrono's `Utc::now`: the current time as a Unix timestamp in
/// seconds. The value depends on the clock; nothing is promised of it.
#[verifier::external_body]
fn current_timestamp() -> i64 {
    chrono::Utc::now().timestamp()
}

/// Validation of the raw form fields: the email first, then the name.
pub open spec fn spec_try_from_form(f: FormDataModel) -> Result<
    NewSubscriberModel,
    ValidationError,
> {
    if !spec_email_is_valid(f.email) {
        Err(ValidationError::InvalidEmail)
    } else if !spec_name_is_valid(f.name) {
        Err(ValidationError::InvalidName)
    } else {
        Ok(NewSubscriberModel { email: f.email, name: f.name })
    }
}

/// The whole validation step: parse the body, then validate both fields.
pub open spec fn spec_validate(body: Seq<char>) -> Result<NewSubscriberModel, ValidationError> {
    match spec_parse_form(body) {
        Err(e) => Err(e),
        Ok(f) => spec_try_from_form(f),
    }
}

impl NewSubscriber {
    /// Validates the two raw form fields into a `NewSubscriber`.
    pub fn try_from(form: FormData) -> (r: Result<NewSubscriber, ValidationError>)
        ensures
            match r {
                Ok(ns) => spec_try_from_form(form@) == Ok::<NewSubscriberModel, ValidationError>(
                    ns@,
                ) && ns.wf(),
                Err(e) => spec_try_from_form(form@) == Err::<NewSubscriberModel, ValidationError>(
                    e,
                ),
            },
    {
        let email = match SubscriberEmail::parse(form.email) {
            Ok(e) => e,
            Err(e) => {
                return Err(e);
            },
        };
        let name = match SubscriberName::parse(form.name) {
            Ok(n) => n,
            Err(e) => {
                return Err(e);
            },
        };
        Ok(NewSubscriber { email, name })
    }
}

/// The confirmation link embedded in both email bodies.
pub open spec fn spec_confirmation_link(base_url: Seq<char>, token: Seq<char>) -> Seq<char> {
    base_url + "/subscriptions/confirm?subscription_token="@ + token
}

pub fn confirmation_link(base_url: &str, token: &str) -> (r: String)
    ensures
        r@ == spec_confirmation_link(base_url@, token@),
{
    let mut r = base_url.to_owned();
    r.append("/subscriptions/confirm?subscription_token=");
    r.append(token);
    r
}

/// The HTML body of the confirmation email.
pub open spec fn spec_html_body(link: Seq<char>) -> Seq<char> {
    "Welcome to our newsletter!<br />Click <a href=\""@ + link
        + "\">here</a> to confirm your subscription."@
}

/// The plain-text body of the confirmation email.
pub open spec fn spec_text_body(link: Seq<char>) -> Seq<char> {
    "Welcome to our newsletter!\nVisit "@ + link + " to confirm your subscription."@
}

fn html_body(link: &str) -> (r: String)
    ensures
        r@ == spec_html_body(link@),
{
    let mut r: String = "Welcome to our newsletter!<br />Click <a href=\"".to_owned();
    r.append(link);
    r.append("\">here</a> to confirm your subscription.");
    r
}

fn text_body(link: &str) -> (r: String)
    ensures
        r@ == spec_text_body(link@),
{
    let mut r: String = "Welcome to our newsletter!\nVisit ".to_owned();
    r.append(link);
    r.append(" to confirm your subscription.");
    r
}

/// The confirmation email for one subscription: subject `Welcome!`, both
/// bodies carrying the confirmation link.
pub open spec fn spec_confirmation_email(
    c: EmailClientModel,
    recipient: Seq<char>,
    base_url: Seq<char>,
    token: Seq<char>,
) -> EmailRequestModel {
    spec_send_request(
        c,
        recipient,
        "Welcome!"@,
        spec_html_body(spec_confirmation_link(base_url, token)),
        spec_text_body(spec_confirmation_link(base_url, token)),
    )
}

/// Builds the confirmation email that the driver dispatches after commit.
pub fn send_confirmation_email(
    email_client: &EmailClient,
    new_subscriber: &NewSubscriber,
    base_url: &str,
    subscription_token: &str,
) -> (r: EmailRequest)
    ensures
        r@ == spec_confirmation_email(
            email_client@,
            new_subscriber@.email,
            base_url@,
            subscription_token@,
        ),
{
    let link = confirmation_link(base_url, subscription_token);
    let html = html_body(link.as_str());
    let text = text_body(link.as_str());
    email_client.send_email_request(&new_subscriber.email, "Welcome!", html.as_str(), text.as_str())
}

/// What one accepted subscription writes: lookup-or-create the subscriber,
/// then store the token under the resolved id.
pub open spec fn spec_apply_subscription(
    m: StoreModel,
    sub: NewSubscriberModel,
    id: u128,
    now: i64,
    token: Seq<char>,
) -> (StoreModel, u128) {
    let (m1, sid) = spec_get_or_insert(m, spec_subscriber_row(sub, id, now));
    (
        spec_store_add_token(
            m1,
            TokenRowModel { subscription_token: token, subscriber_id: sid },
        ),
        sid,
    )
}

/// One accepted subscription keeps the store invariant.
pub proof fn lemma_apply_subscription_wf(
    m: StoreModel,
    sub: NewSubscriberModel,
    id: u128,
    now: i64,
    token: Seq<char>,
)
    requires
        store_wf(m),
    ensures
        store_wf(spec_apply_subscription(m, sub, id, now, token).0),
{
    let row = spec_subscriber_row(sub, id, now);
    lemma_get_or_insert_wf(m, row);
    let (m1, sid) = spec_get_or_insert(m, row);
    lemma_add_token_wf(m1, TokenRowModel { subscription_token: token, subscriber_id: sid });
}

/// Law (idempotent identity): subscribing twice with the same email,
/// whatever the second request's name, candidate id, timestamp, or token,
/// leaves exactly one subscriber row for that email; the second
/// subscription adds no subscriber row and resolves to the id the first
/// one did.
pub proof fn lemma_subscribe_idempotent(
    m: StoreModel,
    sub1: NewSubscriberModel,
    sub2: NewSubscriberModel,
    id1: u128,
    id2: u128,
    now1: i64,
    now2: i64,
    token1: Seq<char>,
    token2: Seq<char>,
)
    requires
        emails_unique(m.subscribers),
        sub1.email == sub2.email,
    ensures
        ({
            let (m1, sid1) = spec_apply_subscription(m, sub1, id1, now1, token1);
            let (m2, sid2) = spec_apply_subscription(m1, sub2, id2, now2, token2);
            &&& sid2 == sid1
            &&& m2.subscribers == m1.subscribers
            &&& count_with_email(m1.subscribers, sub1.email) == 1
            &&& count_with_email(m2.subscribers, sub1.email) == 1
        }),
{
    let r1 = spec_subscriber_row(sub1, id1, now1);
    let r2 = spec_subscriber_row(sub2, id2, now2);
    lemma_get_or_insert_idempotent(m, r1, r2);
}

/// The outcome of one subscribe request, before email dispatch.
pub enum SubscribeOutcome {
    /// Validation failed: the store is returned untouched.
    Rejected { store: SubscriptionStore, error: ValidationError },
    /// Subscriber and token are committed; the email is ready to dispatch.
    Accepted { store: SubscriptionStore, subscriber_id: u128, token: String, email: EmailRequest },
}

/// The subscription workflow up to and including commit: validate, open a
/// transaction, resolve the subscriber, issue and store a token, commit,
/// and build the confirmation email.
pub fn subscribe(
    store: SubscriptionStore,
    body: &str,
    email_client: &EmailClient,
    base_url: &str,
) -> (r: SubscribeOutcome)
    ensures
        match r {
            SubscribeOutcome::Rejected { store: s2, error } => {
                &&& spec_validate(body@) == Err::<NewSubscriberModel, ValidationError>(error)
                &&& s2 == store
            },
            SubscribeOutcome::Accepted { store: s2, subscriber_id, token, email } => {
                &&& spec_validate(body@) is Ok
                &&& spec_token_is_valid(token@)
                &&& exists|id: u128, now: i64|
                    {
                        &&& s2@ == #[trigger] spec_apply_subscription(
                            store@,
                            spec_validate(body@)->Ok_0,
                            id,
                            now,
                            token@,
                        ).0
                        &&& subscriber_id == spec_apply_subscription(
                            store@,
                            spec_validate(body@)->Ok_0,
                            id,
                            now,
                            token@,
                        ).1
                    }
                &&& email@ == spec_confirmation_email(
                    email_client@,
                    (spec_validate(body@)->Ok_0).email,
                    base_url@,
                    token@,
                )
                &&& store_wf(store@) ==> store_wf(s2@)
            },
        },
{
    let form = match parse_form_body(body) {
        Ok(f) => f,
        Err(e) => {
            return SubscribeOutcome::Rejected { store, error: e };
        },
    };
    let new_subscriber = match NewSubscriber::try_from(form) {
        Ok(ns) => ns,
        Err(e) => {
            return SubscribeOutcome::Rejected { store, error: e };
        },
    };
    let ghost m0 = store@;
    let mut tx = Transaction::begin(store);
    let candidate_id = new_subscriber_id();
    let now = current_timestamp();
    let subscriber_id = get_or_insert_subscriber(&mut tx, &new_subscriber, candidate_id, now);
    let token = generate_subscription_token();
    store_token(&mut tx, subscriber_id, token.as_str());
    let committed = tx.commit();
    let email = send_confirmation_email(email_client, &new_subscriber, base_url, token.as_str());
    proof {
        let sub = spec_validate(body@)->Ok_0;
        assert(sub == new_subscriber@);
        let (w2, sid) = spec_apply_subscription(m0, sub, candidate_id, now, token@);
        assert(committed@ == w2 && subscriber_id == sid);
        if store_wf(m0) {
            lemma_apply_subscription_wf(m0, sub, candidate_id, now, token@);
        }
    }
    SubscribeOutcome::Accepted { store: committed, subscriber_id, token, email }
}

/// The internal error taxonomy of one request.
#[derive(Clone, Copy, Debug, PartialEq, Eq, Structural)]
pub enum SubscribeError {
    /// Malformed or invalid request data; never reaches persistence.
    Validation,
    /// Transaction open, query, or commit failure.
    Persistence,
    /// Email send failure or timeout, after commit.
    Dispatch,
}

/// The HTTP status reported for one request outcome.
pub open spec fn spec_response_code(r: Result<(), SubscribeError>) -> u16 {
    match r {
        Ok(()) => 200,
        Err(SubscribeError::Validation) => 400,
        Err(SubscribeError::Persistence) => 500,
        Err(SubscribeError::Dispatch) => 500,
    }
}

/// Maps a request outcome to the (opaque) HTTP status the caller sees.
pub fn response_code(r: &Result<(), SubscribeError>) -> (c: u16)
    ensures
        c == spec_response_code(*r),
{
    match r {
        Ok(()) => 200,
        Err(SubscribeError::Validation) => 400,
        Err(SubscribeError::Persistence) => 500,
        Err(SubscribeError::Dispatch) => 500,
    }
}

proof fn lemma_collect_fields_come_from_pairs(pairs: Seq<(Seq<char>, Seq<char>)>)
    ensures
        spec_collect(pairs) matches Ok(nm) ==> {
            &&& (nm.0 is Some ==> exists|i: int|
                0 <= i < pairs.len() && spec_decode(pairs[i].0) == Some("name"@))
            &&& (nm.1 is Some ==> exists|i: int|
                0 <= i < pairs.len() && spec_decode(pairs[i].0) == Some("email"@))
        },
    decreases pairs.len(),
{
    if pairs.len() > 0 {
        lemma_collect_fields_come_from_pairs(pairs.skip(1));
        if spec_collect(pairs) is Ok {
            let nm = spec_collect(pairs)->Ok_0;
            if nm.0 is Some && spec_decode(pairs[0].0) != Some("name"@) {
                let i = choose|i: int|
                    0 <= i < pairs.skip(1).len() && spec_decode(pairs.skip(1)[i].0) == Some(
                        "name"@,
                    );
                assert(pairs[i + 1] == pairs.skip(1)[i]);
            }
            if nm.1 is Some && spec_decode(pairs[0].0) != Some("email"@) {
                let i = choose|i: int|
                    0 <= i < pairs.skip(1).len() && spec_decode(pairs.skip(1)[i].0) == Some(
                        "email"@,
                    );
                assert(pairs[i + 1] == pairs.skip(1)[i]);
            }
        }
    }
}

/// Law (validation gate): an empty body, and a body none of whose fields
/// decodes to `name`, or none to `email`, is rejected by validation, so
/// the workflow reports 400 and leaves the store untouched.
pub proof fn lemma_validation_gate(body: Seq<char>)
    requires
        body.len() == 0 || (forall|i: int|
            0 <= i < spec_pairs(body).len() ==> spec_decode(spec_pairs(body)[i].0) != Some(
                "name"@,
            )) || (forall|i: int|
            0 <= i < spec_pairs(body).len() ==> spec_decode(spec_pairs(body)[i].0) != Some(
                "email"@,
            )),
    ensures
        spec_validate(body) is Err,
        spec_response_code(Err(SubscribeError::Validation)) == 400,
{
    lemma_collect_fields_come_from_pairs(spec_pairs(body));
}

/// Law (email format rejection): a value with no `@` at all has no
/// local-part/domain structure and fails email validation.
pub proof fn lemma_email_without_at_rejected(s: Seq<char>)
    requires
        forall|i: int| 0 <= i < s.len() ==> s[i] != '@',
    ensures
        !spec_email_is_valid(s),
{
    lemma_count_char_zero(s, '@');
}

proof fn lemma_count_char_zero(s: Seq<char>, c: char)
    requires
        forall|i: int| 0 <= i < s.len() ==> s[i] != c,
    ensures
        count_char(s, c) == 0,
    decreases s.len(),
{
    if s.len() > 0 {
        assert(forall|i: int| 0 <= i < s.drop_last().len() ==> s.drop_last()[i] == s[i]);
        lemma_count_char_zero(s.drop_last(), c);
    }
}

/// Law (post-commit email failure visibility): once the transaction has
/// committed, the subscriber row and the token row are facts of the store;
/// a failed dispatch only changes the status the caller sees to 500, while
/// a successful one reports 200 over the very same store.
pub proof fn lemma_post_commit_dispatch_failure(
    m: StoreModel,
    sub: NewSubscriberModel,
    id: u128,
    now: i64,
    token: Seq<char>,
)
    requires
        store_wf(m),
    ensures
        ({
            let (m2, sid) = spec_apply_subscription(m, sub, id, now, token);
            &&& spec_lookup(m2.subscribers, sub.email) == Some(sid)
            &&& m2.tokens.len() == m.tokens.len() + 1
            &&& m2.tokens.last() == (TokenRowModel {
                subscription_token: token,
                subscriber_id: sid,
            })
            &&& spec_response_code(Err(SubscribeError::Dispatch)) == 500
            &&& spec_response_code(Ok(())) == 200
        }),
{
    let row = spec_subscriber_row(sub, id, now);
    lemma_get_or_insert_wf(m, row);
}

} // verus!
