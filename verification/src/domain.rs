use vstd::prelude::*;

verus! {

/// Characters that a subscriber display name must not contain: ASCII control
/// characters and a small set of punctuation that could be used for header or
/// markup injection.
pub open spec fn is_forbidden_name_char(c: char) -> bool {
    ||| (c as u32) < 32
    ||| (c as u32) == 127
    ||| c == '/'
    ||| c == '\\'
    ||| c == '('
    ||| c == ')'
    ||| c == '"'
    ||| c == '<'
    ||| c == '>'
    ||| c == '{'
    ||| c == '}'
}

/// A valid display name is non-empty, at most 256 characters long, and free of
/// forbidden characters.
pub open spec fn valid_name(s: Seq<char>) -> bool {
    &&& 1 <= s.len() <= 256
    &&& forall|i: int| 0 <= i < s.len() ==> !is_forbidden_name_char(#[trigger] s[i])
}

/// ASCII whitespace, which an email address must not contain anywhere.
pub open spec fn is_space_char(c: char) -> bool {
    c == ' ' || c == '\t' || c == '\n' || c == '\r'
}

/// `a` is the position of the one `'@'` of `s`, with a non-empty local part
/// before it and a non-empty, dot-containing domain after it.
pub open spec fn email_at_ok(s: Seq<char>, a: int) -> bool {
    &&& 0 < a < s.len() - 1
    &&& s[a] == '@'
    &&& forall|i: int| 0 <= i < s.len() && i != a ==> #[trigger] s[i] != '@'
    &&& exists|d: int| a < d < s.len() && #[trigger] s[d] == '.'
}

/// A syntactically valid email address: `local@domain` with exactly one `'@'`,
/// a non-empty local part, a non-empty domain containing at least one dot, and
/// no whitespace anywhere.
pub open spec fn valid_email(s: Seq<char>) -> bool {
    &&& exists|a: int| #[trigger] email_at_ok(s, a)
    &&& forall|i: int| 0 <= i < s.len() ==> !is_space_char(#[trigger] s[i])
}

fn is_forbidden_name_char_exec(c: char) -> (r: bool)
    ensures
        r == is_forbidden_name_char(c),
{
    (c as u32) < 32 || (c as u32) == 127 || c == '/' || c == '\\' || c == '(' || c == ')'
        || c == '"' || c == '<' || c == '>' || c == '{' || c == '}'
}

fn is_space_char_exec(c: char) -> (r: bool)
    ensures
        r == is_space_char(c),
{
    c == ' ' || c == '\t' || c == '\n' || c == '\r'
}

/// Decides `valid_name` for a real string.
pub fn check_name(s: &str) -> (r: bool)
    ensures
        r == valid_name(s@),
{
    let n = s.unicode_len();
    if n == 0 || n > 256 {
        return false;
    }
    let mut i: usize = 0;
    while i < n
        invariant
            n == s@.len(),
            1 <= n <= 256,
            i <= n,
            forall|k: int| 0 <= k < i ==> !is_forbidden_name_char(#[trigger] s@[k]),
        decreases n - i,
    {
        let c = s.get_char(i);
        if is_forbidden_name_char_exec(c) {
            return false;
        }
        i += 1;
    }
    true
}

/// Decides `valid_email` for a real string.
pub fn check_email(s: &str) -> (r: bool)
    ensures
        r == valid_email(s@),
{
    let n = s.unicode_len();
    let mut at_found = false;
    let mut at_pos: usize = 0;
    let mut at_dup = false;
    let ghost mut dup_idx: int = 0;
    let mut dot_after = false;
    let ghost mut dot_idx: int = 0;
    let mut has_space = false;
    let ghost mut space_idx: int = 0;
    let mut i: usize = 0;
    while i < n
        invariant
            n == s@.len(),
            i <= n,
            at_found ==> at_pos < i && s@[at_pos as int] == '@',
            !at_found ==> forall|k: int| 0 <= k < i ==> #[trigger] s@[k] != '@',
            at_found && !at_dup ==> forall|k: int| 0 <= k < i && k != at_pos ==> #[trigger] s@[k]
                != '@',
            at_dup ==> at_found && 0 <= dup_idx < i && dup_idx != at_pos && s@[dup_idx] == '@',
            dot_after ==> at_found && at_pos < dot_idx < i && s@[dot_idx] == '.',
            at_found && !dot_after ==> forall|k: int| at_pos < k < i ==> #[trigger] s@[k] != '.',
            has_space ==> 0 <= space_idx < i && is_space_char(s@[space_idx]),
            !has_space ==> forall|k: int| 0 <= k < i ==> !is_space_char(#[trigger] s@[k]),
        decreases n - i,
    {
        let c = s.get_char(i);
        if c == '@' {
            if at_found {
                if !at_dup {
                    at_dup = true;
                    proof {
                        dup_idx = i as int;
                    }
                }
            } else {
                at_found = true;
                at_pos = i;
            }
        } else if c == '.' {
            if at_found && !dot_after {
                dot_after = true;
                proof {
                    dot_idx = i as int;
                }
            }
        }
        if is_space_char_exec(c) {
            if !has_space {
                has_space = true;
                proof {
                    space_idx = i as int;
                }
            }
        }
        i += 1;
    }
    let ok = at_found && !at_dup && at_pos > 0 && at_pos + 1 < n && dot_after && !has_space;
    proof {
        if ok {
            assert(email_at_ok(s@, at_pos as int));
        } else {
            assert(!valid_email(s@)) by {
                if valid_email(s@) {
                    let a = choose|a: int| email_at_ok(s@, a);
                    assert(email_at_ok(s@, a));
                    if !at_found {
                        assert(s@[a] != '@');
                    } else if at_dup {
                        if a == at_pos {
                            assert(s@[dup_idx] != '@');
                        } else {
                            assert(s@[at_pos as int] != '@');
                        }
                    } else {
                        assert(a == at_pos) by {
                            if a != at_pos {
                                assert(s@[at_pos as int] != '@');
                            }
                        }
                        if !has_space && dot_after {
                            assert(at_pos == 0 || at_pos + 1 >= n);
                        } else if !has_space {
                            let d = choose|d: int| a < d < s@.len() && #[trigger] s@[d] == '.';
                            assert(s@[d] != '.');
                        } else {
                            assert(!is_space_char(s@[space_idx]));
                        }
                    }
                }
            }
        }
    }
    ok
}

/// The display name of one mailing-list subscriber, validated on construction.
pub struct SubscriberName {
    name: String,
}

impl View for SubscriberName {
    type V = Seq<char>;

    closed spec fn view(&self) -> Seq<char> {
        self.name@
    }
}

impl SubscriberName {
    /// Validates a raw display name; accepts exactly the strings satisfying
    /// `valid_name`.
    pub fn parse(s: String) -> (r: Result<SubscriberName, String>)
        ensures
            r is Ok <==> valid_name(s@),
            r matches Ok(v) ==> v@ == s@,
    {
        if check_name(s.as_str()) {
            Ok(SubscriberName { name: s })
        } else {
            Err(String::from_str("not a valid subscriber name"))
        }
    }

    pub fn as_ref(&self) -> (r: &str)
        ensures
            r@ == self@,
    {
        self.name.as_str()
    }

    /// A copy with the same characters.
    pub fn duplicate(&self) -> (r: SubscriberName)
        ensures
            r@ == self@,
    {
        SubscriberName { name: self.name.clone() }
    }
}

/// The email address of one mailing-list subscriber, validated on
/// construction.
pub struct SubscriberEmail {
    email: String,
}

impl View for SubscriberEmail {
    type V = Seq<char>;

    closed spec fn view(&self) -> Seq<char> {
        self.email@
    }
}

impl SubscriberEmail {
    /// Validates a raw email address; accepts exactly the strings satisfying
    /// `valid_email`.
    pub fn parse(s: String) -> (r: Result<SubscriberEmail, String>)
        ensures
            r is Ok <==> valid_email(s@),
            r matches Ok(v) ==> v@ == s@,
    {
        if check_email(s.as_str()) {
            Ok(SubscriberEmail { email: s })
        } else {
            Err(String::from_str("not a valid subscriber email"))
        }
    }

    pub fn as_ref(&self) -> (r: &str)
        ensures
            r@ == self@,
    {
        self.email.as_str()
    }

    /// A copy with the same characters.
    pub fn duplicate(&self) -> (r: SubscriberEmail)
        ensures
            r@ == self@,
    {
        SubscriberEmail { email: self.email.clone() }
    }
}

/// The raw subscription form fields, as the transport layer hands them over.
pub struct FormData {
    pub email: String,
    pub name: String,
}

/// A subscriber whose name and email have both been validated.
pub struct Subscriber {
    pub email: SubscriberEmail,
    pub name: SubscriberName,
}

impl Subscriber {
    /// Validates both form fields; succeeds exactly when both are valid.
    pub fn try_from(form_data: FormData) -> (r: Result<Subscriber, String>)
        ensures
            r is Ok <==> valid_name(form_data.name@) && valid_email(form_data.email@),
            r matches Ok(v) ==> v.name@ == form_data.name@ && v.email@ == form_data.email@,
    {
        let name = match SubscriberName::parse(form_data.name) {
            Ok(name) => name,
            Err(e) => {
                return Err(e);
            },
        };
        match SubscriberEmail::parse(form_data.email) {
            Ok(email) => Ok(Subscriber { email, name }),
            Err(e) => Err(e),
        }
    }
}

/// Mathematical model of one raw stored row, before conversion back into
/// domain values.
#[verifier::ext_equal]
pub ghost struct RowModel {
    pub email: Seq<char>,
    pub name: Seq<char>,
}

/// One raw subscriber row as the store hands it back: unvalidated strings.
pub struct Row {
    pub email: String,
    pub name: String,
}

impl View for Row {
    type V = RowModel;

    open spec fn view(&self) -> RowModel {
        RowModel { email: self.email@, name: self.name@ }
    }
}

impl Row {
    /// Converts a raw row back into validated domain values; fails exactly
    /// when the stored strings no longer parse.
    pub fn try_into(self) -> (r: Result<Subscriber, String>)
        ensures
            r is Ok <==> valid_email(self.email@) && valid_name(self.name@),
            r matches Ok(s) ==> s.email@ == self.email@ && s.name@ == self.name@,
    {
        let email = match SubscriberEmail::parse(self.email) {
            Ok(email) => email,
            Err(e) => {
                return Err(e);
            },
        };
        match SubscriberName::parse(self.name) {
            Ok(name) => Ok(Subscriber { email, name }),
            Err(e) => Err(e),
        }
    }
}

/// A subscriber candidate built from the subscription form, not yet stored.
pub struct NewSubscriber {
    pub email: SubscriberEmail,
    pub name: SubscriberName,
}

impl NewSubscriber {
    /// Validates both form fields; succeeds exactly when both are valid.
    pub fn try_from(form_data: FormData) -> (r: Result<NewSubscriber, String>)
        ensures
            r is Ok <==> valid_name(form_data.name@) && valid_email(form_data.email@),
            r matches Ok(v) ==> v.name@ == form_data.name@ && v.email@ == form_data.email@,
    {
        let subscriber_name = match SubscriberName::parse(form_data.name) {
            Ok(name) => name,
            Err(e) => {
                return Err(e);
            },
        };
        let subscriber_email = match SubscriberEmail::parse(form_data.email) {
            Ok(email) => email,
            Err(e) => {
                return Err(e);
            },
        };
        Ok(NewSubscriber { email: subscriber_email, name: subscriber_name })
    }
}

} // verus!
