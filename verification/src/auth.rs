use vstd::prelude::*;

use argon2::PasswordVerifier;
use base64::Engine;

verus! {

/// Why an authentication attempt failed.
#[derive(Clone, Copy, PartialEq, Eq, Structural, Debug)]
pub enum AuthError {
    /// Bad header, unknown username or wrong password: deliberately one
    /// uniform answer for all of them.
    Unauthorized,
    /// The credential store itself failed; distinct from a rejection.
    InternalFailure,
}

impl AuthError {
    /// The HTTP status class the boundary layer must answer with.
    pub fn status_code(&self) -> (r: u16)
        ensures
            r == (if self is Unauthorized {
                401u16
            } else {
                500u16
            }),
    {
        match self {
            AuthError::Unauthorized => 401,
            AuthError::InternalFailure => 500,
        }
    }
}

/// Whether the Argon2 hash encoded in the PHC string `hash` matches
/// `password`. Stands for the outcome of argon2's verification, a function of
/// the two strings alone; false also when `hash` is not a well-formed PHC
/// string.
pub uninterp spec fn phc_matches(hash: Seq<char>, password: Seq<char>) -> bool;

/// Relies on argon2's `Argon2::default().verify_password`: it parses the PHC
/// hash string, recomputes Argon2 over the candidate with the algorithm,
/// version, salt and cost parameters the hash string itself carries, and
/// compares the outputs in constant time. The outcome is a function of the
/// two strings alone; any parse or algorithm error counts as no match.
#[verifier::external_body]
pub(crate) fn verify_password_hash(expected_password_hash: &str, password_candidate: &str) -> (r:
    bool)
    ensures
        r == phc_matches(expected_password_hash@, password_candidate@),
{
    argon2::Argon2::default().verify_password(
        password_candidate.as_bytes(),
        expected_password_hash,
    ).is_ok()
}

/// What base64's standard-alphabet, padded engine decodes `s` to: the
/// decoded bytes when `s` is valid base64, nothing otherwise.
pub uninterp spec fn b64_standard_decode(s: Seq<char>) -> Option<Seq<u8>>;

/// Relies on base64's `STANDARD` engine `decode`: standard alphabet with
/// padding; returns the decoded bytes exactly when the input is valid
/// base64. The outcome is a function of the input alone.
#[verifier::external_body]
fn base64_decode(s: &str) -> (r: Option<Vec<u8>>)
    ensures
        r matches Some(v) ==> b64_standard_decode(s@) == Some(v@),
        r is None ==> b64_standard_decode(s@) is None,
{
    match base64::engine::general_purpose::STANDARD.decode(s) {
        Ok(v) => Some(v),
        Err(_) => None,
    }
}

/// The characters whose UTF-8 encoding is `b`, when `b` is valid UTF-8.
pub uninterp spec fn utf8_decode(b: Seq<u8>) -> Option<Seq<char>>;

/// Relies on std's `String::from_utf8`: returns the string whose UTF-8
/// encoding is exactly the input bytes when they are valid UTF-8, and an
/// error otherwise.
#[verifier::external_body]
fn utf8_to_string(bytes: Vec<u8>) -> (r: Option<String>)
    ensures
        r matches Some(s) ==> utf8_decode(bytes@) == Some(s@) && vstd::utf8::encode_utf8(s@)
            == bytes@,
        r is None ==> utf8_decode(bytes@) is None,
{
    String::from_utf8(bytes).ok()
}

/// The username and password presented by a request.
pub struct Credentials {
    pub username: String,
    pub password: String,
}

pub open spec fn has_colon(s: Seq<char>) -> bool {
    exists|i: int| 0 <= i < s.len() && #[trigger] s[i] == ':'
}

pub open spec fn first_colon(s: Seq<char>) -> int {
    choose|i: int|
        0 <= i < s.len() && #[trigger] s[i] == ':' && (forall|j: int|
            0 <= j < i ==> #[trigger] s[j] != ':')
}

/// Splitting the decoded credential string at its first colon: username
/// before it, password (which may itself contain colons) after it.
pub open spec fn split_credentials(s: Seq<char>) -> Option<(Seq<char>, Seq<char>)> {
    if has_colon(s) {
        Some((s.take(first_colon(s)), s.skip(first_colon(s) + 1)))
    } else {
        None
    }
}

/// What a `Basic` authorization header yields: the `(username, password)`
/// pair when the header has the `Basic ` scheme, a base64 payload, UTF-8
/// decoded content and a colon separator; nothing otherwise.
pub open spec fn spec_parse_basic_auth(header: Seq<char>) -> Option<(Seq<char>, Seq<char>)> {
    if header.len() < 6 || header.subrange(0, 6) != "Basic "@ {
        None
    } else {
        match b64_standard_decode(header.skip(6)) {
            None => None,
            Some(bytes) => match utf8_decode(bytes) {
                None => None,
                Some(decoded) => split_credentials(decoded),
            },
        }
    }
}

/// Decodes a `Basic` authorization header into the presented credentials.
/// Every malformed header is answered uniformly as unauthorized.
pub fn basic_authentication(header: &str) -> (r: Result<Credentials, AuthError>)
    ensures
        spec_parse_basic_auth(header@) matches Some(c) ==> (r matches Ok(cr) && cr.username@ == c.0
            && cr.password@ == c.1),
        spec_parse_basic_auth(header@) is None ==> (r matches Err(e) && e
            == AuthError::Unauthorized),
{
    proof {
        reveal_strlit("Basic ");
    }
    let n = header.unicode_len();
    if n < 6 {
        return Err(AuthError::Unauthorized);
    }
    if !(header.get_char(0) == 'B' && header.get_char(1) == 'a' && header.get_char(2) == 's'
        && header.get_char(3) == 'i' && header.get_char(4) == 'c' && header.get_char(5) == ' ') {
        proof {
            assert(header@.subrange(0, 6) != "Basic "@) by {
                assert(header@.subrange(0, 6)[0] == header@[0]);
                assert(header@.subrange(0, 6)[1] == header@[1]);
                assert(header@.subrange(0, 6)[2] == header@[2]);
                assert(header@.subrange(0, 6)[3] == header@[3]);
                assert(header@.subrange(0, 6)[4] == header@[4]);
                assert(header@.subrange(0, 6)[5] == header@[5]);
            }
        }
        return Err(AuthError::Unauthorized);
    }
    proof {
        assert(header@.subrange(0, 6) =~= "Basic "@);
    }
    let rest = header.substring_char(6, n);
    proof {
        assert(rest@ == header@.skip(6));
    }
    let bytes = match base64_decode(rest) {
        Some(bytes) => bytes,
        None => {
            return Err(AuthError::Unauthorized);
        },
    };
    let decoded = match utf8_to_string(bytes) {
        Some(decoded) => decoded,
        None => {
            return Err(AuthError::Unauthorized);
        },
    };
    let ds = decoded.as_str();
    let dn = ds.unicode_len();
    let mut fc: usize = 0;
    let mut found = false;
    while fc < dn && !found
        invariant
            dn == ds@.len(),
            fc <= dn,
            found ==> fc < dn && ds@[fc as int] == ':',
            forall|j: int| 0 <= j < fc ==> #[trigger] ds@[j] != ':',
        decreases dn - fc, (if found { 0int } else { 1int }),
    {
        if ds.get_char(fc) == ':' {
            found = true;
        } else {
            fc += 1;
        }
    }
    if !found {
        proof {
            assert(!has_colon(ds@));
        }
        return Err(AuthError::Unauthorized);
    }
    proof {
        assert(has_colon(ds@));
        let c = first_colon(ds@);
        assert(0 <= c < ds@.len() && ds@[c] == ':' && (forall|j: int|
            0 <= j < c ==> #[trigger] ds@[j] != ':'));
        if c < fc as int {
            assert(ds@[c] != ':');
        }
        if c > fc as int {
            assert(ds@[fc as int] != ':');
        }
        assert(first_colon(ds@) == fc as int);
    }
    let username = ds.substring_char(0, fc).to_owned();
    let password = ds.substring_char(fc + 1, dn).to_owned();
    proof {
        assert(username@ == ds@.take(fc as int));
        assert(password@ == ds@.skip(fc as int + 1));
    }
    Ok(Credentials { username, password })
}

/// Mathematical model of one stored credential row.
#[verifier::ext_equal]
pub ghost struct CredentialModel {
    pub user_id: u128,
    pub username: Seq<char>,
    pub password_hash: Seq<char>,
}

/// One stored credential row: an operator allowed to publish.
pub struct Credential {
    pub user_id: u128,
    pub username: String,
    pub password_hash: String,
}

impl View for Credential {
    type V = CredentialModel;

    open spec fn view(&self) -> CredentialModel {
        CredentialModel {
            user_id: self.user_id,
            username: self.username@,
            password_hash: self.password_hash@,
        }
    }
}

/// Usernames are unique across the credential store.
pub open spec fn creds_wf(users: Seq<CredentialModel>) -> bool {
    forall|i: int, j: int|
        0 <= i < j < users.len() ==> (#[trigger] users[i]).username != (
        #[trigger] users[j]).username
}

pub open spec fn has_username(users: Seq<CredentialModel>, name: Seq<char>) -> bool {
    exists|i: int| 0 <= i < users.len() && (#[trigger] users[i]).username == name
}

pub open spec fn username_index(users: Seq<CredentialModel>, name: Seq<char>) -> int {
    choose|i: int| 0 <= i < users.len() && (#[trigger] users[i]).username == name
}

/// The stored credential of `name`, if one exists.
pub open spec fn spec_lookup(users: Seq<CredentialModel>, name: Seq<char>) -> Option<
    CredentialModel,
> {
    if has_username(users, name) {
        Some(users[username_index(users, name)])
    } else {
        None
    }
}

/// The read-only store of operator credentials.
pub struct CredentialStore {
    users: Vec<Credential>,
}

impl View for CredentialStore {
    type V = Seq<CredentialModel>;

    closed spec fn view(&self) -> Seq<CredentialModel> {
        self.users@.map_values(|c: Credential| c@)
    }
}

impl CredentialStore {
    /// An empty credential store.
    pub fn new() -> (r: CredentialStore)
        ensures
            r@.len() == 0,
            creds_wf(r@),
    {
        CredentialStore { users: Vec::new() }
    }

    /// Registers one credential row; refused when the username is taken.
    pub fn add_user(&mut self, user: Credential) -> (r: bool)
        requires
            creds_wf(old(self)@),
        ensures
            creds_wf(final(self)@),
            r == !has_username(old(self)@, user@.username),
            r ==> final(self)@ == old(self)@.push(user@),
            !r ==> final(self)@ == old(self)@,
    {
        let ghost m0 = self@;
        let n = self.users.len();
        let mut i: usize = 0;
        while i < n
            invariant
                n == self.users.len(),
                i <= n,
                self@.len() == n,
                self@ == old(self)@,
                creds_wf(self@),
                forall|k: int| 0 <= k < i ==> (#[trigger] self@[k]).username != user@.username,
            decreases n - i,
        {
            if self.users[i].username == user.username {
                assert(self@[i as int].username == user@.username);
                return false;
            }
            i += 1;
        }
        self.users.push(user);
        proof {
            assert(self@ =~= m0.push(user@));
            assert forall|i2: int, j2: int| 0 <= i2 < j2 < self@.len() implies (
            #[trigger] self@[i2]).username != (#[trigger] self@[j2]).username by {
                if j2 == self@.len() - 1 {
                    assert(self@[i2] == m0[i2]);
                }
            }
        }
        true
    }

    /// Looks a username up; the model of the external credential-store read.
    pub fn get_stored_credentials(&self, username: &String) -> (r: Option<(u128, String)>)
        requires
            creds_wf(self@),
        ensures
            match spec_lookup(self@, username@) {
                Some(c) => r matches Some(p) && p.0 == c.user_id && p.1@ == c.password_hash,
                None => r is None,
            },
    {
        let n = self.users.len();
        let mut i: usize = 0;
        while i < n
            invariant
                n == self.users.len(),
                i <= n,
                self@.len() == n,
                creds_wf(self@),
                forall|k: int| 0 <= k < i ==> (#[trigger] self@[k]).username != username@,
            decreases n - i,
        {
            if self.users[i].username == *username {
                proof {
                    assert(self@[i as int].username == username@);
                    assert(has_username(self@, username@));
                    let w = username_index(self@, username@);
                    assert(self@[w].username == username@);
                    if w < i as int {
                        assert(self@[w].username != username@);
                    }
                    if w > i as int {
                        assert(self@[i as int].username != self@[w].username);
                    }
                    assert(w == i as int);
                }
                let found = &self.users[i];
                return Some((found.user_id, found.password_hash.clone()));
            }
            i += 1;
        }
        None
    }
}

/// What the credential-store read handed back: a stored row, no row, or a
/// storage-level failure.
pub enum CredentialLookup {
    Found(u128, String),
    NotFound,
    StoreError,
}

/// Mathematical model of a credential-store read outcome.
pub ghost enum LookupModel {
    Found(u128, Seq<char>),
    NotFound,
    StoreError,
}

impl View for CredentialLookup {
    type V = LookupModel;

    open spec fn view(&self) -> LookupModel {
        match self {
            CredentialLookup::Found(id, hash) => LookupModel::Found(*id, hash@),
            CredentialLookup::NotFound => LookupModel::NotFound,
            CredentialLookup::StoreError => LookupModel::StoreError,
        }
    }
}

/// The decision taken on one credential-store read outcome and password
/// candidate: a storage failure is surfaced as an internal failure, an
/// unknown username and a failed hash verification are both answered
/// uniformly as unauthorized, and a successful verification yields the
/// stored user id.
pub open spec fn spec_validate(lookup: LookupModel, password: Seq<char>) -> Result<
    u128,
    AuthError,
> {
    match lookup {
        LookupModel::StoreError => Err(AuthError::InternalFailure),
        LookupModel::NotFound => Err(AuthError::Unauthorized),
        LookupModel::Found(id, hash) => if phc_matches(hash, password) {
            Ok(id)
        } else {
            Err(AuthError::Unauthorized)
        },
    }
}

/// Decides authorization from a credential-store read outcome. The hash
/// verification is always performed — against a fixed dummy hash with the
/// same cost parameters when the username is unknown — so the work done does
/// not reveal whether the username exists.
pub fn validate_credentials(lookup: CredentialLookup, password_candidate: &String) -> (r: Result<
    u128,
    AuthError,
>)
    ensures
        r == spec_validate(lookup@, password_candidate@),
{
    match lookup {
        CredentialLookup::StoreError => Err(AuthError::InternalFailure),
        CredentialLookup::NotFound => {
            let _ = verify_password_hash(
                "$argon2id$v=19$m=15000,t=2,p=1$\
                gZiV/M1gPc22ElAH/Jh1Hw$\
                CWOrkoo7oJBQ/iyh7uJ0LO2aLEfrHwTWllSAxT0zRno",
                password_candidate.as_str(),
            );
            Err(AuthError::Unauthorized)
        },
        CredentialLookup::Found(user_id, stored_hash) => {
            if verify_password_hash(stored_hash.as_str(), password_candidate.as_str()) {
                Ok(user_id)
            } else {
                Err(AuthError::Unauthorized)
            }
        },
    }
}

/// The decision `verify` takes: look the username up, then validate the
/// password candidate against the stored (or dummy) hash.
pub open spec fn spec_verify(
    users: Seq<CredentialModel>,
    username: Seq<char>,
    password: Seq<char>,
) -> Result<u128, AuthError> {
    match spec_lookup(users, username) {
        Some(c) => spec_validate(LookupModel::Found(c.user_id, c.password_hash), password),
        None => spec_validate(LookupModel::NotFound, password),
    }
}

/// Verifies presented credentials against the store: the stored user id when
/// the username exists and the password matches its hash, a uniform
/// unauthorized answer otherwise.
pub fn verify(store: &CredentialStore, username: &String, password_candidate: &String) -> (r:
    Result<u128, AuthError>)
    requires
        creds_wf(store@),
    ensures
        r == spec_verify(store@, username@, password_candidate@),
{
    let lookup = match store.get_stored_credentials(username) {
        Some((user_id, password_hash)) => CredentialLookup::Found(user_id, password_hash),
        None => CredentialLookup::NotFound,
    };
    validate_credentials(lookup, password_candidate)
}

/// Law: an unknown username and a wrong password for a known username are
/// answered identically: both verifications fail with the same uniform
/// unauthorized result. (The unknown-username path performs the same hash
/// computation against a fixed dummy hash, so the two rejections also do the
/// same work; the latency itself is outside what can be stated here.)
pub proof fn lemma_uniform_unauthorized(
    users: Seq<CredentialModel>,
    unknown_user: Seq<char>,
    password_a: Seq<char>,
    known_user: Seq<char>,
    password_b: Seq<char>,
)
    requires
        spec_lookup(users, unknown_user) is None,
        spec_lookup(users, known_user) matches Some(c) && !phc_matches(c.password_hash, password_b),
    ensures
        spec_verify(users, unknown_user, password_a) == spec_verify(users, known_user, password_b),
        spec_verify(users, unknown_user, password_a) == Err::<u128, AuthError>(AuthError::Unauthorized),
{
}

} // verus!
