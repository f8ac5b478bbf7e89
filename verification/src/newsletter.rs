use vstd::prelude::*;

use crate::auth::{
    basic_authentication, creds_wf, spec_parse_basic_auth, spec_verify, verify, AuthError,
    CredentialModel, CredentialStore,
};
use crate::domain::{valid_email, valid_name, Row, RowModel, Subscriber};
use crate::store::{
    is_confirmed, lemma_filter_push, spec_confirmed_rows, wf_model, StoreModel, SubscriberStore,
};

verus! {

/// The payload of one publish request.
pub struct BodyData {
    pub subject: String,
    pub content: String,
}

/// A raw row converts back into domain values exactly when both stored
/// strings still parse.
pub open spec fn row_valid(rm: RowModel) -> bool {
    valid_email(rm.email) && valid_name(rm.name)
}

/// The rows that convert back into domain values, in order; rows that fail
/// to convert are silently skipped, by the accepted-lossy policy.
pub open spec fn spec_valid_rows(rows: Seq<RowModel>) -> Seq<RowModel> {
    rows.filter(|rm: RowModel| row_valid(rm))
}

/// Converts the fetched raw rows back into validated subscribers, silently
/// skipping every row that no longer parses: a corrupted stored value loses
/// one recipient, it does not fail the whole dispatch.
pub fn get_confirmed_subscribers(rows: Vec<Row>) -> (r: Vec<Subscriber>)
    ensures
        r@.map_values(|s: Subscriber| RowModel { email: s.email@, name: s.name@ })
            == spec_valid_rows(rows@.map_values(|row: Row| row@)),
{
    let ghost all = rows@.map_values(|row: Row| row@);
    let n = rows.len();
    let mut out: Vec<Subscriber> = Vec::new();
    let mut i: usize = 0;
    while i < n
        invariant
            n == rows.len(),
            i <= n,
            all == rows@.map_values(|row: Row| row@),
            out@.map_values(|s: Subscriber| RowModel { email: s.email@, name: s.name@ })
                == spec_valid_rows(all.take(i as int)),
        decreases n - i,
    {
        let ghost pre = all.take(i as int);
        let ghost cur = all[i as int];
        let ghost out_pre = out@.map_values(
            |s: Subscriber| RowModel { email: s.email@, name: s.name@ },
        );
        let row = Row { email: rows[i].email.clone(), name: rows[i].name.clone() };
        proof {
            assert(row@ == cur);
        }
        match row.try_into() {
            Ok(subscriber) => {
                out.push(subscriber);
            },
            Err(_) => {},
        }
        proof {
            assert(all.take(i as int + 1) =~= pre.push(cur));
            lemma_filter_push(pre, cur, |rm: RowModel| row_valid(rm));
            if row_valid(cur) {
                assert(out@.map_values(
                    |s: Subscriber| RowModel { email: s.email@, name: s.name@ },
                ) =~= out_pre.push(cur));
                assert(spec_valid_rows(pre.push(cur)) =~= spec_valid_rows(pre).push(cur));
            } else {
                assert(spec_valid_rows(pre.push(cur)) =~= spec_valid_rows(pre));
            }
        }
        i += 1;
    }
    proof {
        assert(all.take(n as int) =~= all);
    }
    out
}

/// The challenge value the boundary layer must attach, in a
/// `WWW-Authenticate` header, to every unauthorized publishing answer.
pub fn www_authenticate_value() -> (r: &'static str)
    ensures
        r@ == "Basic realm=\"publish\""@,
{
    "Basic realm=\"publish\""
}

/// Mathematical model of one outgoing newsletter message.
#[verifier::ext_equal]
pub ghost struct OutgoingModel {
    pub recipient_email: Seq<char>,
    pub recipient_name: Seq<char>,
    pub subject: Seq<char>,
    pub content: Seq<char>,
}

/// One newsletter message to hand to the notification gateway.
pub struct OutgoingEmail {
    pub recipient_email: String,
    pub recipient_name: String,
    pub subject: String,
    pub content: String,
}

impl View for OutgoingEmail {
    type V = OutgoingModel;

    open spec fn view(&self) -> OutgoingModel {
        OutgoingModel {
            recipient_email: self.recipient_email@,
            recipient_name: self.recipient_name@,
            subject: self.subject@,
            content: self.content@,
        }
    }
}

/// The messages a publish request emits: one per confirmed subscriber, in
/// store order, all carrying the request's subject and content.
pub open spec fn spec_dispatches(m: StoreModel, subject: Seq<char>, content: Seq<char>) -> Seq<
    OutgoingModel,
> {
    m.subscribers.filter(|s: crate::store::SubscriberModel| is_confirmed(s)).map_values(
        |s: crate::store::SubscriberModel| OutgoingModel {
            recipient_email: s.email,
            recipient_name: s.name,
            subject: subject,
            content: content,
        },
    )
}

/// Whether a publish request is authorized: it carries an `Authorization`
/// header that parses as `Basic` credentials which verify against the
/// credential store.
pub open spec fn spec_authorized(
    users: Seq<CredentialModel>,
    authorization: Option<Seq<char>>,
) -> bool {
    match authorization {
        None => false,
        Some(header) => match spec_parse_basic_auth(header) {
            None => false,
            Some(c) => spec_verify(users, c.0, c.1) is Ok,
        },
    }
}

/// Every element a filter keeps is an element of the sequence it filtered.
proof fn lemma_filter_subset<A>(s: Seq<A>, pred: spec_fn(A) -> bool)
    ensures
        forall|k: int|
            0 <= k < s.filter(pred).len() ==> s.contains(#[trigger] s.filter(pred)[k]),
    decreases s.len(),
{
    reveal(Seq::filter);
    if s.len() > 0 {
        lemma_filter_subset(s.drop_last(), pred);
        let f = s.filter(pred);
        let fd = s.drop_last().filter(pred);
        assert forall|k: int| 0 <= k < f.len() implies s.contains(#[trigger] f[k]) by {
            if k < fd.len() {
                assert(s.drop_last().contains(fd[k]));
                let w = choose|w: int|
                    0 <= w < s.drop_last().len() && s.drop_last()[w] == fd[k];
                assert(s[w] == fd[k]);
            } else {
                assert(f[k] == s.last());
                assert(s[s.len() - 1] == s.last());
            }
        }
    }
}

/// A filter that every element satisfies keeps the sequence unchanged.
proof fn lemma_filter_all<A>(s: Seq<A>, pred: spec_fn(A) -> bool)
    requires
        forall|i: int| 0 <= i < s.len() ==> pred(#[trigger] s[i]),
    ensures
        s.filter(pred) == s,
    decreases s.len(),
{
    reveal(Seq::filter);
    if s.len() > 0 {
        lemma_filter_all(s.drop_last(), pred);
        assert(pred(s.last()));
        assert(s.drop_last().push(s.last()) =~= s);
    }
}

/// One publish request: authorize the presented credentials, fetch the
/// confirmed subscribers, and emit one message per recipient. An
/// unauthorized request changes nothing and yields no message.
pub fn publish_newsletter(
    body: &BodyData,
    authorization: Option<&String>,
    subscribers: &SubscriberStore,
    credentials: &CredentialStore,
) -> (r: Result<Vec<OutgoingEmail>, AuthError>)
    requires
        wf_model(subscribers@),
        creds_wf(credentials@),
    ensures
        r is Ok <==> spec_authorized(
            credentials@,
            match authorization {
                Some(h) => Some(h@),
                None => None,
            },
        ),
        r matches Err(e) ==> e == AuthError::Unauthorized,
        r matches Ok(es) ==> es@.map_values(|e: OutgoingEmail| e@) == spec_dispatches(
            subscribers@,
            body.subject@,
            body.content@,
        ),
{
    let header = match authorization {
        None => {
            return Err(AuthError::Unauthorized);
        },
        Some(header) => header,
    };
    let presented = match basic_authentication(header.as_str()) {
        Ok(presented) => presented,
        Err(e) => {
            return Err(e);
        },
    };
    match verify(credentials, &presented.username, &presented.password) {
        Ok(_user_id) => {},
        Err(_) => {
            return Err(AuthError::Unauthorized);
        },
    }
    let rows = subscribers.confirmed_rows();
    let ghost rows_model = rows@.map_values(|row: Row| row@);
    proof {
        let filtered = subscribers@.subscribers.filter(
            |s: crate::store::SubscriberModel| is_confirmed(s),
        );
        lemma_filter_subset(
            subscribers@.subscribers,
            |s: crate::store::SubscriberModel| is_confirmed(s),
        );
        assert forall|k: int| 0 <= k < rows_model.len() implies row_valid(
            #[trigger] rows_model[k],
        ) by {
            assert(rows_model[k] == RowModel { email: filtered[k].email, name: filtered[k].name });
            assert(subscribers@.subscribers.contains(filtered[k]));
            let w = choose|w: int|
                0 <= w < subscribers@.subscribers.len() && subscribers@.subscribers[w]
                    == filtered[k];
            assert(valid_email(subscribers@.subscribers[w].email));
        }
        lemma_filter_all(rows_model, |rm: RowModel| row_valid(rm));
        assert(spec_valid_rows(rows_model) == rows_model);
    }
    let subs = get_confirmed_subscribers(rows);
    let n = subs.len();
    let mut out: Vec<OutgoingEmail> = Vec::new();
    let mut i: usize = 0;
    let ghost target = spec_dispatches(subscribers@, body.subject@, body.content@);
    proof {
        assert(subs@.map_values(|s: Subscriber| RowModel { email: s.email@, name: s.name@ })
            == rows_model);
        assert(target.len() == rows_model.len());
    }
    while i < n
        invariant
            n == subs.len(),
            i <= n,
            target == spec_dispatches(subscribers@, body.subject@, body.content@),
            subs@.map_values(|s: Subscriber| RowModel { email: s.email@, name: s.name@ })
                == rows_model,
            rows_model == spec_confirmed_rows(subscribers@),
            target.len() == n,
            out@.len() == i,
            forall|k: int| 0 <= k < i ==> #[trigger] out@[k]@ == target[k],
        decreases n - i,
    {
        let sub = &subs[i];
        let message = OutgoingEmail {
            recipient_email: sub.email.as_ref().to_owned(),
            recipient_name: sub.name.as_ref().to_owned(),
            subject: body.subject.clone(),
            content: body.content.clone(),
        };
        proof {
            let filtered = subscribers@.subscribers.filter(
                |s: crate::store::SubscriberModel| is_confirmed(s),
            );
            assert(rows_model[i as int] == RowModel {
                email: filtered[i as int].email,
                name: filtered[i as int].name,
            });
            assert(subs@.map_values(
                |s: Subscriber| RowModel { email: s.email@, name: s.name@ },
            )[i as int] == RowModel { email: subs@[i as int].email@, name: subs@[i as int].name@ });
            assert(message@ == target[i as int]);
        }
        out.push(message);
        i += 1;
    }
    proof {
        assert(out@.map_values(|e: OutgoingEmail| e@) =~= target);
    }
    Ok(out)
}

} // verus!
