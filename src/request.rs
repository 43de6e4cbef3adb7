//! Outbound requests: a path under the API's base URL and query parameters.
use vstd::prelude::*;
use vstd::string::*;
use crate::text::{append_decimal, decimal};

verus! {

/// One GET request to the API.
#[derive(Debug, Clone, PartialEq, Eq)]
pub struct Request {
    /// The API's base URL, without a trailing `/`.
    pub base_url: String,
    /// The path under the base URL, starting with `/`.
    pub path: String,
    /// Query parameters in the order in which they are sent.
    pub query: Vec<(String, String)>,
}

/// Query parameters as pairs of name and value.
pub open spec fn query_view(q: Seq<(String, String)>) -> Seq<(Seq<char>, Seq<char>)> {
    q.map_values(|p: (String, String)| (p.0@, p.1@))
}

/// The parameter `name=v` when a text value is given, nothing otherwise.
pub open spec fn text_param(name: Seq<char>, v: Option<String>) -> Seq<(Seq<char>, Seq<char>)> {
    match v {
        Some(s) => seq![(name, s@)],
        None => seq![],
    }
}

/// The parameter `name=<decimal n>` when a number is given, nothing otherwise.
pub open spec fn int_param(name: Seq<char>, v: Option<i32>) -> Seq<(Seq<char>, Seq<char>)> {
    match v {
        Some(n) => seq![(name, decimal(n as int))],
        None => seq![],
    }
}

/// The parameter `name=true` or `name=false` when a flag is given, nothing otherwise.
pub open spec fn flag_param(name: Seq<char>, v: Option<bool>) -> Seq<(Seq<char>, Seq<char>)> {
    match v {
        Some(b) => seq![(name, if b { "true"@ } else { "false"@ })],
        None => seq![],
    }
}

impl Request {
    /// The full URL without the query: base URL followed by the path.
    pub fn url(&self) -> (r: String)
        ensures
            r@ == self.base_url@ + self.path@,
    {
        self.base_url.clone().concat(self.path.as_str())
    }
}

proof fn lemma_query_push(q: Seq<(String, String)>, p: (String, String))
    ensures
        query_view(q.push(p)) == query_view(q) + seq![(p.0@, p.1@)],
{
    assert(query_view(q.push(p)) =~= query_view(q) + seq![(p.0@, p.1@)]);
}

/// Adds `name=v` to `q` when a text value is given.
pub fn push_text(q: &mut Vec<(String, String)>, name: &str, v: Option<String>)
    ensures
        query_view(final(q)@) == query_view(old(q)@) + text_param(name@, v),
{
    match v {
        Some(s) => {
            let p = (String::from_str(name), s);
            proof {
                lemma_query_push(q@, p);
            }
            q.push(p);
        },
        None => {
            assert(query_view(q@) + text_param(name@, v) =~= query_view(q@));
        },
    }
}

/// Adds `name=<decimal n>` to `q` when a number is given.
pub fn push_int(q: &mut Vec<(String, String)>, name: &str, v: Option<i32>)
    ensures
        query_view(final(q)@) == query_view(old(q)@) + int_param(name@, v),
{
    match v {
        Some(n) => {
            let mut s = String::new();
            append_decimal(&mut s, n as i64);
            let p = (String::from_str(name), s);
            proof {
                assert(s@ =~= decimal(n as int));
                lemma_query_push(q@, p);
            }
            q.push(p);
        },
        None => {
            assert(query_view(q@) + int_param(name@, v) =~= query_view(q@));
        },
    }
}

/// Adds `name=true` or `name=false` to `q` when a flag is given.
pub fn push_flag(q: &mut Vec<(String, String)>, name: &str, v: Option<bool>)
    ensures
        query_view(final(q)@) == query_view(old(q)@) + flag_param(name@, v),
{
    match v {
        Some(b) => {
            let s = if b { String::from_str("true") } else { String::from_str("false") };
            let p = (String::from_str(name), s);
            proof {
                lemma_query_push(q@, p);
            }
            q.push(p);
        },
        None => {
            assert(query_view(q@) + flag_param(name@, v) =~= query_view(q@));
        },
    }
}

} // verus!
