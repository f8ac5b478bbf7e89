use vstd::prelude::*;

use crate::domain::{valid_email, valid_name, FormData, Row, RowModel, Subscriber};
use crate::token::{generate_subscription_token, valid_token};

verus! {

/// Lifecycle state of one subscriber row.
#[derive(Clone, Copy, PartialEq, Eq, Structural, Debug)]
pub enum SubscriberStatus {
    PendingConfirmation,
    Confirmed,
}

/// Why a subscription attempt failed.
#[derive(Clone, Copy, PartialEq, Eq, Structural, Debug)]
pub enum SubscribeError {
    /// The submitted name or email was rejected by the parsers.
    ValidationError,
    /// The store could not accept the new rows.
    StorageFailure,
    /// The confirmation email could not be dispatched.
    NotificationFailure,
}

impl SubscribeError {
    /// The HTTP status class the boundary layer must answer with.
    pub fn status_code(&self) -> (r: u16)
        ensures
            r == (if self is ValidationError {
                400u16
            } else {
                500u16
            }),
    {
        match self {
            SubscribeError::ValidationError => 400,
            SubscribeError::StorageFailure => 500,
            SubscribeError::NotificationFailure => 500,
        }
    }
}

/// Why a confirmation attempt failed.
#[derive(Clone, Copy, PartialEq, Eq, Structural, Debug)]
pub enum ConfirmError {
    /// No token was supplied with the request.
    MissingToken,
    /// The supplied token matches no stored token; deliberately the same
    /// answer whether the token never existed or is simply not present now.
    UnknownToken,
    /// The store could not persist the status change.
    StorageFailure,
}

impl ConfirmError {
    /// The HTTP status class the boundary layer must answer with.
    pub fn status_code(&self) -> (r: u16)
        ensures
            r == (if self is MissingToken {
                400u16
            } else if self is UnknownToken {
                401u16
            } else {
                500u16
            }),
    {
        match self {
            ConfirmError::MissingToken => 400,
            ConfirmError::UnknownToken => 401,
            ConfirmError::StorageFailure => 500,
        }
    }
}

/// Mathematical model of one subscriber row.
#[verifier::ext_equal]
pub ghost struct SubscriberModel {
    pub id: u128,
    pub email: Seq<char>,
    pub name: Seq<char>,
    pub status: SubscriberStatus,
    pub subscribed_at: i64,
}

/// Mathematical model of one confirmation-token row.
#[verifier::ext_equal]
pub ghost struct TokenModel {
    pub token: Seq<char>,
    pub subscriber_id: u128,
}

/// Mathematical model of the whole subscriber store.
#[verifier::ext_equal]
pub ghost struct StoreModel {
    pub subscribers: Seq<SubscriberModel>,
    pub tokens: Seq<TokenModel>,
}

pub open spec fn has_subscriber(m: StoreModel, id: u128) -> bool {
    exists|i: int| 0 <= i < m.subscribers.len() && (#[trigger] m.subscribers[i]).id == id
}

pub open spec fn subscriber_index(m: StoreModel, id: u128) -> int {
    choose|i: int| 0 <= i < m.subscribers.len() && (#[trigger] m.subscribers[i]).id == id
}

pub open spec fn has_token(m: StoreModel, t: Seq<char>) -> bool {
    exists|i: int| 0 <= i < m.tokens.len() && (#[trigger] m.tokens[i]).token == t
}

pub open spec fn token_index(m: StoreModel, t: Seq<char>) -> int {
    choose|i: int| 0 <= i < m.tokens.len() && (#[trigger] m.tokens[i]).token == t
}

/// The status of the subscriber with identifier `id`, if it is stored.
pub open spec fn subscriber_status(m: StoreModel, id: u128) -> Option<SubscriberStatus> {
    if has_subscriber(m, id) {
        Some(m.subscribers[subscriber_index(m, id)].status)
    } else {
        None
    }
}

/// Consistency of the store: unique subscriber identifiers, globally unique
/// tokens, at most one token per subscriber, every token referencing a stored
/// subscriber, and only validated values stored.
pub open spec fn wf_model(m: StoreModel) -> bool {
    &&& forall|i: int, j: int|
        0 <= i < j < m.subscribers.len() ==> (#[trigger] m.subscribers[i]).id != (
        #[trigger] m.subscribers[j]).id
    &&& forall|i: int, j: int|
        0 <= i < j < m.tokens.len() ==> (#[trigger] m.tokens[i]).token != (
        #[trigger] m.tokens[j]).token
    &&& forall|i: int, j: int|
        0 <= i < j < m.tokens.len() ==> (#[trigger] m.tokens[i]).subscriber_id != (
        #[trigger] m.tokens[j]).subscriber_id
    &&& forall|i: int|
        0 <= i < m.tokens.len() ==> has_subscriber(m, (#[trigger] m.tokens[i]).subscriber_id)
    &&& forall|i: int|
        0 <= i < m.subscribers.len() ==> valid_email((#[trigger] m.subscribers[i]).email)
            && valid_name(m.subscribers[i].name)
}

/// The store extended, in one transaction, by a pending subscriber and its
/// confirmation token.
pub open spec fn insert_model(
    m: StoreModel,
    name: Seq<char>,
    email: Seq<char>,
    id: u128,
    now: i64,
    token: Seq<char>,
) -> StoreModel {
    StoreModel {
        subscribers: m.subscribers.push(
            SubscriberModel {
                id,
                email,
                name,
                status: SubscriberStatus::PendingConfirmation,
                subscribed_at: now,
            },
        ),
        tokens: m.tokens.push(TokenModel { token, subscriber_id: id }),
    }
}

/// One subscription attempt as a transition of the store model: the next
/// store and the operation's result, given the raw inputs, the identifier and
/// timestamp the attempt would use, the generated token, and whether the
/// confirmation email could be dispatched. Every failure leaves the store
/// unchanged: nothing persists unless the whole transaction commits.
pub open spec fn spec_subscribe(
    m: StoreModel,
    name: Seq<char>,
    email: Seq<char>,
    id: u128,
    now: i64,
    token: Seq<char>,
    send_ok: bool,
) -> (StoreModel, Result<Seq<char>, SubscribeError>) {
    if !(valid_name(name) && valid_email(email)) {
        (m, Err(SubscribeError::ValidationError))
    } else if has_subscriber(m, id) || has_token(m, token) {
        (m, Err(SubscribeError::StorageFailure))
    } else if !send_ok {
        (m, Err(SubscribeError::NotificationFailure))
    } else {
        (insert_model(m, name, email, id, now, token), Ok(token))
    }
}

/// The same subscriber row with its status set to confirmed.
pub open spec fn confirmed_subscriber(s: SubscriberModel) -> SubscriberModel {
    SubscriberModel { status: SubscriberStatus::Confirmed, ..s }
}

/// One confirmation attempt as a transition of the store model: the next
/// store and the operation's result. Only the matched subscriber's status
/// changes, and only on success.
pub open spec fn spec_confirm(m: StoreModel, token: Option<Seq<char>>) -> (
    StoreModel,
    Result<(), ConfirmError>,
) {
    match token {
        None => (m, Err(ConfirmError::MissingToken)),
        Some(t) => {
            if !has_token(m, t) {
                (m, Err(ConfirmError::UnknownToken))
            } else {
                let sid = m.tokens[token_index(m, t)].subscriber_id;
                if !has_subscriber(m, sid) {
                    (m, Err(ConfirmError::UnknownToken))
                } else {
                    let si = subscriber_index(m, sid);
                    (
                        StoreModel {
                            subscribers: m.subscribers.update(
                                si,
                                confirmed_subscriber(m.subscribers[si]),
                            ),
                            tokens: m.tokens,
                        },
                        Ok(()),
                    )
                }
            }
        },
    }
}

/// One stored subscriber row.
pub struct SubscriberRecord {
    pub id: u128,
    pub email: crate::domain::SubscriberEmail,
    pub name: crate::domain::SubscriberName,
    pub status: SubscriberStatus,
    pub subscribed_at: i64,
}

impl View for SubscriberRecord {
    type V = SubscriberModel;

    open spec fn view(&self) -> SubscriberModel {
        SubscriberModel {
            id: self.id,
            email: self.email@,
            name: self.name@,
            status: self.status,
            subscribed_at: self.subscribed_at,
        }
    }
}

/// One stored confirmation-token row.
pub struct TokenRecord {
    token: String,
    subscriber_id: u128,
}

impl View for TokenRecord {
    type V = TokenModel;

    closed spec fn view(&self) -> TokenModel {
        TokenModel { token: self.token@, subscriber_id: self.subscriber_id }
    }
}

/// The transactional store of subscribers and their confirmation tokens.
pub struct SubscriberStore {
    subscribers: Vec<SubscriberRecord>,
    tokens: Vec<TokenRecord>,
}

impl View for SubscriberStore {
    type V = StoreModel;

    closed spec fn view(&self) -> StoreModel {
        StoreModel {
            subscribers: self.subscribers@.map_values(|r: SubscriberRecord| r@),
            tokens: self.tokens@.map_values(|r: TokenRecord| r@),
        }
    }
}

impl SubscriberStore {
    /// An empty store.
    pub fn new() -> (r: SubscriberStore)
        ensures
            wf_model(r@),
            r@.subscribers.len() == 0,
            r@.tokens.len() == 0,
    {
        SubscriberStore { subscribers: Vec::new(), tokens: Vec::new() }
    }

    fn contains_subscriber_id(&self, id: u128) -> (r: bool)
        ensures
            r == has_subscriber(self@, id),
    {
        let n = self.subscribers.len();
        let mut i: usize = 0;
        while i < n
            invariant
                n == self.subscribers.len(),
                i <= n,
                self@.subscribers.len() == n,
                forall|k: int| 0 <= k < i ==> (#[trigger] self@.subscribers[k]).id != id,
            decreases n - i,
        {
            if self.subscribers[i].id == id {
                assert(self@.subscribers[i as int].id == id);
                return true;
            }
            i += 1;
        }
        false
    }

    fn find_token_index(&self, token: &String) -> (r: Option<usize>)
        ensures
            r matches Some(i) ==> i < self@.tokens.len() && self@.tokens[i as int].token == token@,
            r is None ==> !has_token(self@, token@),
    {
        let n = self.tokens.len();
        let mut i: usize = 0;
        while i < n
            invariant
                n == self.tokens.len(),
                i <= n,
                self@.tokens.len() == n,
                forall|k: int| 0 <= k < i ==> (#[trigger] self@.tokens[k]).token != token@,
            decreases n - i,
        {
            if self.tokens[i].token == *token {
                assert(self@.tokens[i as int].token == token@);
                return Some(i);
            }
            i += 1;
        }
        None
    }

    /// How many subscriber rows the store holds.
    pub fn subscriber_count(&self) -> (r: usize)
        ensures
            r == self@.subscribers.len(),
    {
        self.subscribers.len()
    }

    /// How many confirmation-token rows the store holds.
    pub fn token_count(&self) -> (r: usize)
        ensures
            r == self@.tokens.len(),
    {
        self.tokens.len()
    }

    /// The stored subscriber row at position `i`.
    pub fn subscriber_at(&self, i: usize) -> (r: &SubscriberRecord)
        requires
            i < self@.subscribers.len(),
        ensures
            r@ == self@.subscribers[i as int],
    {
        &self.subscribers[i]
    }

    /// The raw rows of all confirmed subscribers, in store order; the model
    /// of the dispatcher's query against the store.
    pub fn confirmed_rows(&self) -> (r: Vec<Row>)
        ensures
            r@.map_values(|row: Row| row@) == spec_confirmed_rows(self@),
    {
        let n = self.subscribers.len();
        let mut out: Vec<Row> = Vec::new();
        let mut i: usize = 0;
        while i < n
            invariant
                n == self.subscribers.len(),
                i <= n,
                self@.subscribers.len() == n,
                out@.map_values(|row: Row| row@) == self@.subscribers.take(i as int).filter(
                    |s: SubscriberModel| is_confirmed(s),
                ).map_values(|s: SubscriberModel| RowModel { email: s.email, name: s.name }),
            decreases n - i,
        {
            let ghost pre = self@.subscribers.take(i as int);
            let ghost cur = self@.subscribers[i as int];
            let ghost out_pre = out@.map_values(|row: Row| row@);
            let rec = &self.subscribers[i];
            proof {
                assert(cur == rec@);
            }
            let confirmed = match rec.status {
                SubscriberStatus::Confirmed => true,
                SubscriberStatus::PendingConfirmation => false,
            };
            if confirmed {
                out.push(Row { email: rec.email.as_ref().to_owned(), name: rec.name.as_ref().to_owned() });
            }
            proof {
                assert(self@.subscribers.take(i as int + 1) =~= pre.push(cur));
                lemma_filter_push(pre, cur, |s: SubscriberModel| is_confirmed(s));
                if confirmed {
                    assert(out@.map_values(|row: Row| row@) =~= out_pre.push(
                        RowModel { email: cur.email, name: cur.name },
                    ));
                    assert(pre.push(cur).filter(|s: SubscriberModel| is_confirmed(s)).map_values(
                        |s: SubscriberModel| RowModel { email: s.email, name: s.name },
                    ) =~= pre.filter(|s: SubscriberModel| is_confirmed(s)).map_values(
                        |s: SubscriberModel| RowModel { email: s.email, name: s.name },
                    ).push(RowModel { email: cur.email, name: cur.name }));
                } else {
                    assert(pre.push(cur).filter(|s: SubscriberModel| is_confirmed(s)).map_values(
                        |s: SubscriberModel| RowModel { email: s.email, name: s.name },
                    ) =~= pre.filter(|s: SubscriberModel| is_confirmed(s)).map_values(
                        |s: SubscriberModel| RowModel { email: s.email, name: s.name },
                    ));
                }
            }
            i += 1;
        }
        proof {
            assert(self@.subscribers.take(n as int) =~= self@.subscribers);
        }
        out
    }
}

/// Whether a stored subscriber row may receive the newsletter.
pub open spec fn is_confirmed(s: SubscriberModel) -> bool {
    s.status == SubscriberStatus::Confirmed
}

/// The rows of all confirmed subscribers, in store order.
pub open spec fn spec_confirmed_rows(m: StoreModel) -> Seq<RowModel> {
    m.subscribers.filter(|s: SubscriberModel| is_confirmed(s)).map_values(
        |s: SubscriberModel| RowModel { email: s.email, name: s.name },
    )
}

/// Filtering a sequence extended by one element keeps the filtered prefix
/// and appends the new element exactly when it satisfies the predicate.
pub(crate) proof fn lemma_filter_push<A>(s: Seq<A>, x: A, pred: spec_fn(A) -> bool)
    ensures
        s.push(x).filter(pred) == if pred(x) {
            s.filter(pred).push(x)
        } else {
            s.filter(pred)
        },
{
    reveal(Seq::filter);
    assert(s.push(x).drop_last() =~= s);
    assert(s.push(x).last() == x);
}

/// Relies on uuid's `Uuid::new_v4` and `Uuid::as_u128`: a fresh random
/// 128-bit identifier. The value is random, so nothing is promised of it.
#[verifier::external_body]
fn new_subscriber_id() -> (r: u128) {
    uuid::Uuid::new_v4().as_u128()
}

/// Relies on chrono's `Utc::now` and `DateTime::timestamp`: the current time
/// as Unix seconds. The value depends on the clock, so nothing is promised.
#[verifier::external_body]
fn now_timestamp() -> (r: i64) {
    chrono::Utc::now().timestamp()
}

/// Mathematical model of a prepared, not yet committed subscription.
#[verifier::ext_equal]
pub ghost struct PendingModel {
    pub name: Seq<char>,
    pub email: Seq<char>,
    pub token: Seq<char>,
}

/// A subscription that passed validation and received its confirmation
/// token, but has not been committed to the store yet. The caller dispatches
/// the confirmation email between preparing and committing.
pub struct PendingSubscription {
    subscriber: Subscriber,
    token: String,
}

impl View for PendingSubscription {
    type V = PendingModel;

    closed spec fn view(&self) -> PendingModel {
        PendingModel {
            name: self.subscriber.name@,
            email: self.subscriber.email@,
            token: self.token@,
        }
    }
}

impl PendingSubscription {
    pub open spec fn wf(&self) -> bool {
        &&& valid_name(self@.name)
        &&& valid_email(self@.email)
        &&& valid_token(self@.token)
    }

    /// The confirmation token to embed in the confirmation email.
    pub fn token(&self) -> (r: &String)
        ensures
            r@ == self@.token,
    {
        &self.token
    }

    /// The validated subscriber the email goes to.
    pub fn subscriber(&self) -> (r: &Subscriber)
        ensures
            r.name@ == self@.name,
            r.email@ == self@.email,
    {
        &self.subscriber
    }
}

/// Validates the raw subscription input and draws a confirmation token;
/// touches no store. Succeeds exactly when both fields are valid.
pub fn begin_subscribe(raw_name: &String, raw_email: &String) -> (r: Result<
    PendingSubscription,
    SubscribeError,
>)
    ensures
        r is Ok <==> valid_name(raw_name@) && valid_email(raw_email@),
        r matches Err(e) ==> e == SubscribeError::ValidationError,
        r matches Ok(p) ==> p.wf() && p@.name == raw_name@ && p@.email == raw_email@,
{
    let form_data = FormData { email: raw_email.clone(), name: raw_name.clone() };
    let subscriber = match Subscriber::try_from(form_data) {
        Ok(subscriber) => subscriber,
        Err(_) => {
            return Err(SubscribeError::ValidationError);
        },
    };
    let token = generate_subscription_token();
    Ok(PendingSubscription { subscriber, token })
}

impl SubscriberStore {
    /// Runs the storage transaction of one subscription: inserts the pending
    /// subscriber row and its token row, and commits only if the
    /// confirmation email was dispatched (`send_ok`). Every failure leaves
    /// the store exactly as it was.
    pub fn commit_subscription(&mut self, pending: PendingSubscription, send_ok: bool) -> (r:
        Result<String, SubscribeError>)
        requires
            wf_model(old(self)@),
            pending.wf(),
        ensures
            wf_model(final(self)@),
            r is Err ==> final(self)@ == old(self)@,
            !send_ok ==> (r matches Err(e) && (e == SubscribeError::NotificationFailure || e
                == SubscribeError::StorageFailure)),
            send_ok ==> (r is Ok || (r matches Err(e) && e == SubscribeError::StorageFailure)),
            // a storage failure comes only from a key collision with existing
            // rows; on a store where none is possible, success is owed
            (r matches Err(e) && e == SubscribeError::StorageFailure) ==> old(
                self,
            )@.subscribers.len() > 0 || has_token(old(self)@, pending@.token),
            r matches Ok(t) ==> t@ == pending@.token && send_ok && !has_token(old(self)@, t@)
                && exists|id: u128, now: i64|
                {
                    &&& !has_subscriber(old(self)@, id)
                    &&& final(self)@ == insert_model(
                        old(self)@,
                        pending@.name,
                        pending@.email,
                        id,
                        now,
                        t@,
                    )
                },
    {
        let id = new_subscriber_id();
        let now = now_timestamp();
        self.subscribe_transaction(pending, id, now, send_ok)
    }

    /// The storage transaction of one subscription, with the identifier and
    /// timestamp it uses made explicit: the executable counterpart of
    /// `spec_subscribe`, exact for every value of them. The subscriber row
    /// and the token row persist exactly when both are fresh and the
    /// confirmation email was dispatched.
    pub fn subscribe_transaction(
        &mut self,
        pending: PendingSubscription,
        id: u128,
        now: i64,
        send_ok: bool,
    ) -> (r: Result<String, SubscribeError>)
        requires
            wf_model(old(self)@),
            pending.wf(),
        ensures
            wf_model(final(self)@),
            final(self)@ == spec_subscribe(
                old(self)@,
                pending@.name,
                pending@.email,
                id,
                now,
                pending@.token,
                send_ok,
            ).0,
            r matches Ok(t) ==> t@ == pending@.token && spec_subscribe(
                old(self)@,
                pending@.name,
                pending@.email,
                id,
                now,
                pending@.token,
                send_ok,
            ).1 == Ok::<Seq<char>, SubscribeError>(pending@.token),
            r matches Err(e) ==> spec_subscribe(
                old(self)@,
                pending@.name,
                pending@.email,
                id,
                now,
                pending@.token,
                send_ok,
            ).1 == Err::<Seq<char>, SubscribeError>(e),
    {
        let ghost m0 = self@;
        if self.contains_subscriber_id(id) {
            return Err(SubscribeError::StorageFailure);
        }
        if self.find_token_index(&pending.token).is_some() {
            return Err(SubscribeError::StorageFailure);
        }
        if !send_ok {
            return Err(SubscribeError::NotificationFailure);
        }
        let PendingSubscription { subscriber, token } = pending;
        let Subscriber { email, name } = subscriber;
        let token_out = token.clone();
        self.subscribers.push(
            SubscriberRecord {
                id,
                email,
                name,
                status: SubscriberStatus::PendingConfirmation,
                subscribed_at: now,
            },
        );
        self.tokens.push(TokenRecord { token, subscriber_id: id });
        proof {
            let m1 = insert_model(m0, pending@.name, pending@.email, id, now, token_out@);
            assert(self@.subscribers =~= m1.subscribers);
            assert(self@.tokens =~= m1.tokens);
            assert(self@ =~= m1);
            lemma_insert_model_wf(m0, pending@.name, pending@.email, id, now, token_out@);
        }
        Ok(token_out)
    }

    /// One full subscription attempt against this store, given whether the
    /// confirmation email could be dispatched: validate, insert, and commit
    /// or roll back. Returns the confirmation token on success.
    pub fn subscribe(&mut self, raw_name: &String, raw_email: &String, send_ok: bool) -> (r: Result<
        String,
        SubscribeError,
    >)
        requires
            wf_model(old(self)@),
        ensures
            wf_model(final(self)@),
            r is Err ==> final(self)@ == old(self)@,
            !(valid_name(raw_name@) && valid_email(raw_email@)) ==> (r matches Err(e) && e
                == SubscribeError::ValidationError),
            valid_name(raw_name@) && valid_email(raw_email@) && !send_ok ==> (r matches Err(e)
                && (e == SubscribeError::NotificationFailure || e
                == SubscribeError::StorageFailure)),
            valid_name(raw_name@) && valid_email(raw_email@) && send_ok ==> (r is Ok || (r matches
            Err(e) && e == SubscribeError::StorageFailure)),
            // a storage failure comes only from a key collision with existing
            // rows; on an empty store, valid input and a dispatched email are
            // owed success, and a failed dispatch is owed exactly the
            // notification error
            (r matches Err(e) && e == SubscribeError::StorageFailure) ==> old(
                self,
            )@.subscribers.len() > 0 || old(self)@.tokens.len() > 0,
            r matches Ok(t) ==> valid_token(t@) && send_ok && !has_token(old(self)@, t@)
                && exists|id: u128, now: i64|
                {
                    &&& !has_subscriber(old(self)@, id)
                    &&& final(self)@ == insert_model(
                        old(self)@,
                        raw_name@,
                        raw_email@,
                        id,
                        now,
                        t@,
                    )
                },
    {
        let pending = match begin_subscribe(raw_name, raw_email) {
            Ok(pending) => pending,
            Err(e) => {
                return Err(e);
            },
        };
        self.commit_subscription(pending, send_ok)
    }
}

impl SubscriberStore {
    fn find_subscriber_index(&self, id: u128) -> (r: Option<usize>)
        ensures
            r matches Some(i) ==> i < self@.subscribers.len() && self@.subscribers[i as int].id
                == id,
            r is None ==> !has_subscriber(self@, id),
    {
        let n = self.subscribers.len();
        let mut i: usize = 0;
        while i < n
            invariant
                n == self.subscribers.len(),
                i <= n,
                self@.subscribers.len() == n,
                forall|k: int| 0 <= k < i ==> (#[trigger] self@.subscribers[k]).id != id,
            decreases n - i,
        {
            if self.subscribers[i].id == id {
                assert(self@.subscribers[i as int].id == id);
                return Some(i);
            }
            i += 1;
        }
        None
    }

    /// Resolves one confirmation attempt: looks the token up and marks the
    /// subscriber it references as confirmed. A missing token is a client
    /// error; an unknown token is answered as unauthorized without any state
    /// change; confirming an already confirmed subscriber succeeds again.
    pub fn confirm(&mut self, token: Option<&String>) -> (r: Result<(), ConfirmError>)
        requires
            wf_model(old(self)@),
        ensures
            wf_model(final(self)@),
            final(self)@ == spec_confirm(
                old(self)@,
                match token {
                    Some(t) => Some(t@),
                    None => None,
                },
            ).0,
            r == spec_confirm(
                old(self)@,
                match token {
                    Some(t) => Some(t@),
                    None => None,
                },
            ).1,
    {
        let ghost m0 = self@;
        let t = match token {
            None => {
                return Err(ConfirmError::MissingToken);
            },
            Some(t) => t,
        };
        let ti = match self.find_token_index(t) {
            None => {
                return Err(ConfirmError::UnknownToken);
            },
            Some(ti) => ti,
        };
        proof {
            assert(has_token(m0, t@));
            assert(m0.tokens[token_index(m0, t@)].token == t@);
            if token_index(m0, t@) != ti as int {
                assert(false);
            }
        }
        let sid = self.tokens[ti].subscriber_id;
        let si = match self.find_subscriber_index(sid) {
            None => {
                proof {
                    assert(has_subscriber(m0, m0.tokens[ti as int].subscriber_id));
                }
                return Err(ConfirmError::StorageFailure);
            },
            Some(si) => si,
        };
        proof {
            assert(has_subscriber(m0, sid));
            assert(m0.subscribers[subscriber_index(m0, sid)].id == sid);
            if subscriber_index(m0, sid) != si as int {
                assert(false);
            }
        }
        let mut record = self.subscribers.remove(si);
        record.status = SubscriberStatus::Confirmed;
        self.subscribers.insert(si, record);
        proof {
            let target = spec_confirm(m0, Some(t@)).0;
            assert(self@.subscribers =~= target.subscribers);
            assert(self@.tokens =~= target.tokens);
            assert(self@ =~= target);
            lemma_confirm_wf(m0, si as int);
        }
        Ok(())
    }
}

/// Law: a subscription that succeeds, immediately followed by a confirmation
/// with the token it returned, leaves the new subscriber in confirmed status;
/// and confirming is idempotent: a second confirmation with the same token
/// succeeds again and changes nothing, so no duplicate state arises.
pub proof fn lemma_subscribe_then_confirm(
    m: StoreModel,
    name: Seq<char>,
    email: Seq<char>,
    id: u128,
    now: i64,
    token: Seq<char>,
)
    requires
        wf_model(m),
        valid_name(name),
        valid_email(email),
        !has_subscriber(m, id),
        !has_token(m, token),
    ensures
        ({
            let sub = spec_subscribe(m, name, email, id, now, token, true);
            let conf = spec_confirm(sub.0, Some(token));
            let again = spec_confirm(conf.0, Some(token));
            &&& sub.1 == Ok::<Seq<char>, SubscribeError>(token)
            &&& conf.1 == Ok::<(), ConfirmError>(())
            &&& subscriber_status(conf.0, id) == Some(SubscriberStatus::Confirmed)
            &&& again.1 == Ok::<(), ConfirmError>(())
            &&& again.0 == conf.0
        }),
{
    let m1 = insert_model(m, name, email, id, now, token);
    let nt = m.tokens.len() as int;
    let ns = m.subscribers.len() as int;
    assert(m1.tokens[nt].token == token);
    assert(has_token(m1, token));
    assert(token_index(m1, token) == nt) by {
        let w = token_index(m1, token);
        if w != nt {
            assert(m1.tokens[w] == m.tokens[w]);
            assert(has_token(m, token));
        }
    }
    assert(m1.subscribers[ns].id == id);
    assert(has_subscriber(m1, id));
    assert(subscriber_index(m1, id) == ns) by {
        let w = subscriber_index(m1, id);
        if w != ns {
            assert(m1.subscribers[w] == m.subscribers[w]);
            assert(has_subscriber(m, id));
        }
    }
    let conf = spec_confirm(m1, Some(token));
    let m2 = conf.0;
    assert(m2.subscribers == m1.subscribers.update(ns, confirmed_subscriber(m1.subscribers[ns])));
    assert(m2.tokens == m1.tokens);
    assert(has_token(m2, token)) by {
        assert(m2.tokens[nt].token == token);
    }
    assert(token_index(m2, token) == nt) by {
        let w = token_index(m2, token);
        if w != nt {
            assert(m1.tokens[w] == m.tokens[w]);
            assert(has_token(m, token));
        }
    }
    assert(m2.subscribers[ns].id == id);
    assert(has_subscriber(m2, id));
    assert(subscriber_index(m2, id) == ns) by {
        let w = subscriber_index(m2, id);
        if w != ns {
            assert(m2.subscribers[w] == m.subscribers[w]);
            assert(has_subscriber(m, id));
        }
    }
    assert(subscriber_status(m2, id) == Some(SubscriberStatus::Confirmed));
    let again = spec_confirm(m2, Some(token));
    assert(confirmed_subscriber(m2.subscribers[ns]) =~= m2.subscribers[ns]);
    assert(again.0.subscribers =~= m2.subscribers);
    assert(again.0 =~= m2);
}

/// Law: a malformed email — one with no `'@'`, an empty local part, or an
/// empty domain — makes the subscription attempt fail with a validation
/// error and leaves the store exactly as it was, whatever the other inputs.
pub proof fn lemma_malformed_email_rejected(
    m: StoreModel,
    name: Seq<char>,
    email: Seq<char>,
    id: u128,
    now: i64,
    token: Seq<char>,
    send_ok: bool,
)
    requires
        ({
            ||| forall|i: int| 0 <= i < email.len() ==> #[trigger] email[i] != '@'
            ||| (email.len() > 0 && email[0] == '@')
            ||| (email.len() > 0 && email[email.len() - 1] == '@')
        }),
    ensures
        spec_subscribe(m, name, email, id, now, token, send_ok).0 == m,
        spec_subscribe(m, name, email, id, now, token, send_ok).1 == Err::<
            Seq<char>,
            SubscribeError,
        >(SubscribeError::ValidationError),
{
    assert(!valid_email(email)) by {
        if valid_email(email) {
            let a = choose|a: int| crate::domain::email_at_ok(email, a);
            assert(crate::domain::email_at_ok(email, a));
            assert(email[a] == '@');
            if email.len() > 0 && email[0] == '@' {
                assert(a != 0 ==> email[0] != '@');
            } else if email.len() > 0 && email[email.len() - 1] == '@' {
                assert(a != email.len() - 1 ==> email[email.len() - 1] != '@');
            }
        }
    }
}

/// Law: a confirmation attempt with a token the store does not hold fails as
/// unauthorized and changes no state.
pub proof fn lemma_unknown_token_rejected(m: StoreModel, token: Seq<char>)
    requires
        !has_token(m, token),
    ensures
        spec_confirm(m, Some(token)).0 == m,
        spec_confirm(m, Some(token)).1 == Err::<(), ConfirmError>(ConfirmError::UnknownToken),
{
}

/// Law: when the confirmation email cannot be dispatched, the subscription
/// attempt fails and neither the subscriber row nor the token row persists:
/// the whole transaction rolls back.
pub proof fn lemma_send_failure_rolls_back(
    m: StoreModel,
    name: Seq<char>,
    email: Seq<char>,
    id: u128,
    now: i64,
    token: Seq<char>,
)
    ensures
        spec_subscribe(m, name, email, id, now, token, false).0 == m,
        spec_subscribe(m, name, email, id, now, token, false).1 is Err,
{
}

/// Marking one stored subscriber as confirmed keeps the store consistent.
proof fn lemma_confirm_wf(m: StoreModel, si: int)
    requires
        wf_model(m),
        0 <= si < m.subscribers.len(),
    ensures
        wf_model(
            StoreModel {
                subscribers: m.subscribers.update(si, confirmed_subscriber(m.subscribers[si])),
                tokens: m.tokens,
            },
        ),
{
    let m1 = StoreModel {
        subscribers: m.subscribers.update(si, confirmed_subscriber(m.subscribers[si])),
        tokens: m.tokens,
    };
    assert forall|i: int| 0 <= i < m1.tokens.len() implies has_subscriber(
        m1,
        (#[trigger] m1.tokens[i]).subscriber_id,
    ) by {
        assert(has_subscriber(m, m.tokens[i].subscriber_id));
        let w = subscriber_index(m, m.tokens[i].subscriber_id);
        assert(m1.subscribers[w].id == m.tokens[i].subscriber_id);
    }
}

/// Inserting a fresh subscriber and a fresh token into a consistent store
/// keeps it consistent.
proof fn lemma_insert_model_wf(
    m: StoreModel,
    name: Seq<char>,
    email: Seq<char>,
    id: u128,
    now: i64,
    token: Seq<char>,
)
    requires
        wf_model(m),
        valid_name(name),
        valid_email(email),
        !has_subscriber(m, id),
        !has_token(m, token),
    ensures
        wf_model(insert_model(m, name, email, id, now, token)),
{
    let m1 = insert_model(m, name, email, id, now, token);
    assert forall|i: int, j: int| 0 <= i < j < m1.subscribers.len() implies (
    #[trigger] m1.subscribers[i]).id != (#[trigger] m1.subscribers[j]).id by {
        if j == m1.subscribers.len() - 1 {
            assert(m1.subscribers[i] == m.subscribers[i]);
        }
    }
    assert forall|i: int, j: int| 0 <= i < j < m1.tokens.len() implies (
    #[trigger] m1.tokens[i]).token != (#[trigger] m1.tokens[j]).token by {
        if j == m1.tokens.len() - 1 {
            assert(m1.tokens[i] == m.tokens[i]);
        }
    }
    assert forall|i: int, j: int| 0 <= i < j < m1.tokens.len() implies (
    #[trigger] m1.tokens[i]).subscriber_id != (#[trigger] m1.tokens[j]).subscriber_id by {
        if j == m1.tokens.len() - 1 {
            assert(m1.tokens[i] == m.tokens[i]);
            assert(has_subscriber(m, m.tokens[i].subscriber_id));
        }
    }
    assert forall|i: int| 0 <= i < m1.tokens.len() implies has_subscriber(
        m1,
        (#[trigger] m1.tokens[i]).subscriber_id,
    ) by {
        if i == m1.tokens.len() - 1 {
            assert(m1.subscribers[m1.subscribers.len() - 1].id == id);
        } else {
            assert(m1.tokens[i] == m.tokens[i]);
            assert(has_subscriber(m, m.tokens[i].subscriber_id));
            let w = subscriber_index(m, m.tokens[i].subscriber_id);
            assert(m1.subscribers[w].id == m.tokens[i].subscriber_id);
        }
    }
    assert forall|i: int| 0 <= i < m1.subscribers.len() implies valid_email(
        (#[trigger] m1.subscribers[i]).email,
    ) && valid_name(m1.subscribers[i].name) by {
        if i < m.subscribers.len() {
            assert(m1.subscribers[i] == m.subscribers[i]);
        }
    }
}

} // verus!
