//! The HTTP methods the client supports, and their names.

use vstd::prelude::*;

verus! {

/// The HTTP methods supported by the client
#[derive(Copy, Clone, Debug, Eq, PartialEq, Structural)]
pub enum Method {
    Get,
    Post,
    Patch,
    Put,
    Delete,
}

/// Error returned when a method name cannot be parsed
#[derive(Copy, Clone, Debug, Eq, PartialEq, Hash, Structural)]
pub struct ParseMethodError;

/// ASCII uppercasing of one character, as `char::to_ascii_uppercase` does it
pub open spec fn spec_upper_char(c: char) -> char {
    if 'a' <= c && c <= 'z' {
        ((c as u32) - 32) as char
    } else {
        c
    }
}

/// ASCII uppercasing of a whole string
pub open spec fn spec_upper(s: Seq<char>) -> Seq<char> {
    s.map_values(|c: char| spec_upper_char(c))
}

impl Method {
    /// Returns `true` if the method is a mutating method (POST, PATCH, PUT, or
    /// DELETE)
    pub fn is_mutating(&self) -> (r: bool)
        ensures
            r == !(self is Get),
    {
        matches!(self, Method::Post | Method::Patch | Method::Put | Method::Delete)
    }

    /// The name that `as_str` returns for this method
    pub open spec fn spec_name(&self) -> Seq<char> {
        match self {
            Method::Get => "GET"@,
            Method::Post => "POST"@,
            Method::Patch => "PATCH"@,
            Method::Put => "PUT"@,
            Method::Delete => "DELETE"@,
        }
    }

    /// Returns the name of the method as an uppercase string
    pub fn as_str(&self) -> (r: &'static str)
        ensures
            r@ == self.spec_name(),
    {
        match self {
            Method::Get => "GET",
            Method::Post => "POST",
            Method::Patch => "PATCH",
            Method::Put => "PUT",
            Method::Delete => "DELETE",
        }
    }
}

fn upper_char(c: char) -> (r: char)
    ensures
        r == spec_upper_char(c),
{
    if 'a' <= c && c <= 'z' {
        let b: u8 = c as u8;
        (b - 32) as char
    } else {
        c
    }
}

/// Whether two strings are equal after ASCII uppercasing
fn eq_upper(s: &str, t: &str) -> (r: bool)
    ensures
        r == (spec_upper(s@) == spec_upper(t@)),
{
    let n: usize = s.unicode_len();
    if n != t.unicode_len() {
        proof {
            assert(spec_upper(s@).len() != spec_upper(t@).len());
        }
        return false;
    }
    let mut i: usize = 0;
    while i < n
        invariant
            n == s@.len(),
            n == t@.len(),
            i <= n,
            forall|j: int| 0 <= j < i ==> spec_upper_char(s@[j]) == spec_upper_char(t@[j]),
        decreases n - i,
    {
        let a = upper_char(s.get_char(i));
        let b = upper_char(t.get_char(i));
        if a != b {
            proof {
                assert(spec_upper(s@)[i as int] != spec_upper(t@)[i as int]);
            }
            return false;
        }
        i = i + 1;
    }
    proof {
        assert(spec_upper(s@) =~= spec_upper(t@));
    }
    true
}

/// The method named by `s`, matched case-insensitively; `Err` when `s` names
/// none of the five supported methods
pub open spec fn spec_parse_method(s: Seq<char>) -> Result<Method, ParseMethodError> {
    if spec_upper(s) == "GET"@ {
        Ok(Method::Get)
    } else if spec_upper(s) == "POST"@ {
        Ok(Method::Post)
    } else if spec_upper(s) == "PUT"@ {
        Ok(Method::Put)
    } else if spec_upper(s) == "PATCH"@ {
        Ok(Method::Patch)
    } else if spec_upper(s) == "DELETE"@ {
        Ok(Method::Delete)
    } else {
        Err(ParseMethodError)
    }
}

/// Parse a method from its name, case insensitive
pub fn parse_method(s: &str) -> (r: Result<Method, ParseMethodError>)
    ensures
        r == spec_parse_method(s@),
{
    proof {
        lemma_method_names_upper();
    }
    if eq_upper(s, "GET") {
        Ok(Method::Get)
    } else if eq_upper(s, "POST") {
        Ok(Method::Post)
    } else if eq_upper(s, "PUT") {
        Ok(Method::Put)
    } else if eq_upper(s, "PATCH") {
        Ok(Method::Patch)
    } else if eq_upper(s, "DELETE") {
        Ok(Method::Delete)
    } else {
        Err(ParseMethodError)
    }
}

/// The five method names are unchanged by ASCII uppercasing
proof fn lemma_method_names_upper()
    ensures
        spec_upper("GET"@) == "GET"@,
        spec_upper("POST"@) == "POST"@,
        spec_upper("PUT"@) == "PUT"@,
        spec_upper("PATCH"@) == "PATCH"@,
        spec_upper("DELETE"@) == "DELETE"@,
{
    reveal_strlit("GET");
    reveal_strlit("POST");
    reveal_strlit("PUT");
    reveal_strlit("PATCH");
    reveal_strlit("DELETE");
    assert(spec_upper("GET"@) =~= "GET"@);
    assert(spec_upper("POST"@) =~= "POST"@);
    assert(spec_upper("PUT"@) =~= "PUT"@);
    assert(spec_upper("PATCH"@) =~= "PATCH"@);
    assert(spec_upper("DELETE"@) =~= "DELETE"@);
}

impl std::str::FromStr for Method {
    type Err = ParseMethodError;

    /// Parse a method from its name, case insensitive
    fn from_str(s: &str) -> Result<Method, ParseMethodError> {
        parse_method(s)
    }
}

} // verus!
