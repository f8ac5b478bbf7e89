use vstd::prelude::*;

verus! {

/// The character with upper-case ASCII letters folded to lower case.
pub open spec fn ascii_lower_char(c: char) -> char {
    if 'A' <= c && c <= 'Z' {
        ((((c as u8) + 32) as u8) as char)
    } else {
        c
    }
}

/// The string with upper-case ASCII letters folded to lower case.
pub open spec fn ascii_lower(s: Seq<char>) -> Seq<char> {
    s.map_values(|c: char| ascii_lower_char(c))
}

fn lower_char_exec(c: char) -> (r: char)
    ensures
        r == ascii_lower_char(c),
{
    if 'A' <= c && c <= 'Z' {
        ((((c as u8) + 32) as u8) as char)
    } else {
        c
    }
}

/// Compares two strings up to ASCII case folding.
fn eq_ignore_ascii_case_str(s: &str, t: &str) -> (r: bool)
    ensures
        r == (ascii_lower(s@) == ascii_lower(t@)),
{
    let ns = s.unicode_len();
    let nt = t.unicode_len();
    if ns != nt {
        proof {
            assert(ascii_lower(s@).len() != ascii_lower(t@).len());
        }
        return false;
    }
    let mut i: usize = 0;
    while i < ns
        invariant
            ns == s@.len(),
            ns == t@.len(),
            i <= ns,
            forall|k: int|
                0 <= k < i ==> ascii_lower_char(#[trigger] s@[k]) == ascii_lower_char(t@[k]),
        decreases ns - i,
    {
        let cs = lower_char_exec(s.get_char(i));
        let ct = lower_char_exec(t.get_char(i));
        if cs != ct {
            proof {
                assert(ascii_lower(s@)[i as int] != ascii_lower(t@)[i as int]);
            }
            return false;
        }
        i += 1;
    }
    proof {
        assert(ascii_lower(s@) =~= ascii_lower(t@));
    }
    true
}

/// Which configuration profile the process runs under.
#[derive(Clone, Copy, PartialEq, Eq, Structural, Debug)]
pub enum Enviroment {
    Local,
    Production,
}

impl Enviroment {
    /// The profile's name, as configuration files spell it.
    pub fn as_str(&self) -> (r: &str)
        ensures
            self is Local ==> r@ == "local"@,
            self is Production ==> r@ == "production"@,
    {
        match self {
            Enviroment::Local => "local",
            Enviroment::Production => "production",
        }
    }

    /// Reads a profile name, up to ASCII case; every other string is
    /// rejected.
    pub fn try_from(s: &str) -> (r: Result<Enviroment, String>)
        ensures
            ascii_lower(s@) == "local"@ ==> (r matches Ok(e) && e == Enviroment::Local),
            ascii_lower(s@) == "production"@ ==> (r matches Ok(e) && e == Enviroment::Production),
            r is Err <==> ascii_lower(s@) != "local"@ && ascii_lower(s@) != "production"@,
            r matches Err(m) ==> m@ == "Expect local or production found "@ + s@,
    {
        proof {
            reveal_strlit("local");
            reveal_strlit("production");
            assert(ascii_lower("local"@) =~= "local"@);
            assert(ascii_lower("production"@) =~= "production"@);
        }
        if eq_ignore_ascii_case_str(s, "local") {
            Ok(Enviroment::Local)
        } else if eq_ignore_ascii_case_str(s, "production") {
            Ok(Enviroment::Production)
        } else {
            let mut message = String::from_str("Expect local or production found ");
            message.append(s);
            Err(message)
        }
    }
}

/// Where the application listens and under which public base URL it runs.
pub struct ApplicationSettings {
    pub port: u16,
    pub host: String,
    pub base_url: String,
}

/// The public base URL confirmation links are built against.
pub struct ApplicationBaseUrl(pub String);

} // verus!
