//! What the pipeline knows of an inbound request.
use vstd::prelude::*;
use vstd::string::StrSliceExecFns;
use vstd::string::StringExecFns;
use crate::router::RouteResult;
use crate::text::chars_of;

verus! {

/// HTTP request methods.
#[derive(PartialEq, Eq, Structural, Clone, Copy, Debug)]
pub enum Method {
    Options,
    Get,
    Post,
    Put,
    Delete,
    Head,
    Trace,
    Connect,
    Patch,
}

/// The method that a request line names, in upper case.
pub open spec fn method_named(name: Seq<char>) -> Option<Method> {
    if name == "OPTIONS"@ {
        Some(Method::Options)
    } else if name == "GET"@ {
        Some(Method::Get)
    } else if name == "POST"@ {
        Some(Method::Post)
    } else if name == "PUT"@ {
        Some(Method::Put)
    } else if name == "DELETE"@ {
        Some(Method::Delete)
    } else if name == "HEAD"@ {
        Some(Method::Head)
    } else if name == "TRACE"@ {
        Some(Method::Trace)
    } else if name == "CONNECT"@ {
        Some(Method::Connect)
    } else if name == "PATCH"@ {
        Some(Method::Patch)
    } else {
        None
    }
}

impl Method {
    /// The method that `name` names.
    pub fn from_name(name: &str) -> (r: Option<Method>)
        ensures
            r == method_named(name@),
    {
        let n = String::from_str(name);
        if n == String::from_str("OPTIONS") {
            Some(Method::Options)
        } else if n == String::from_str("GET") {
            Some(Method::Get)
        } else if n == String::from_str("POST") {
            Some(Method::Post)
        } else if n == String::from_str("PUT") {
            Some(Method::Put)
        } else if n == String::from_str("DELETE") {
            Some(Method::Delete)
        } else if n == String::from_str("HEAD") {
            Some(Method::Head)
        } else if n == String::from_str("TRACE") {
            Some(Method::Trace)
        } else if n == String::from_str("CONNECT") {
            Some(Method::Connect)
        } else if n == String::from_str("PATCH") {
            Some(Method::Patch)
        } else {
            None
        }
    }
}

/// Where the query string of `uri` starts, searching from `i`: the first `?`,
/// or the end.
pub open spec fn query_start(uri: Seq<char>, i: int) -> int
    decreases uri.len() - i,
{
    if i < 0 || i >= uri.len() {
        uri.len() as int
    } else if uri[i] == '?' {
        i
    } else {
        query_start(uri, i + 1)
    }
}

/// `uri` without its query string.
pub open spec fn path_of(uri: Seq<char>) -> Seq<char> {
    uri.subrange(0, query_start(uri, 0))
}

proof fn lemma_query_start_bounds(uri: Seq<char>, i: int)
    requires
        0 <= i <= uri.len(),
    ensures
        i <= query_start(uri, i) <= uri.len(),
    decreases uri.len() - i,
{
    if i < uri.len() && uri[i] != '?' {
        lemma_query_start_bounds(uri, i + 1);
    }
}

/// A request: its method, its target (path and optional query string), and
/// the route that matched it, once one has.
pub struct Request {
    pub method: Method,
    pub uri: String,
    pub route_result: Option<RouteResult>,
}

impl Request {
    /// A request that no route has matched yet.
    pub fn from_internal(method: Method, uri: String) -> (r: Request)
        ensures
            r.method == method,
            r.uri == uri,
            r.route_result is None,
    {
        Request { method, uri, route_result: None }
    }

    /// The value of the route variable `key`, once a route has matched.
    pub fn param(&self, key: &str) -> (r: Option<&str>)
        ensures
            match self.route_result {
                None => r is None,
                Some(found) => match r {
                    Some(v) => found.spec_params().contains_key(key@) && v@ == found.spec_params()[key@],
                    None => !found.spec_params().contains_key(key@),
                },
            },
    {
        match &self.route_result {
            None => None,
            Some(found) => found.param(key),
        }
    }

    /// The target without its query string.
    pub fn path_without_query(&self) -> (r: &str)
        ensures
            r@ == path_of(self.uri@),
    {
        let s = self.uri.as_str();
        let chars = chars_of(s);
        let len = chars.len();
        let mut i: usize = 0;
        while i < len
            invariant
                len == s@.len(),
                chars@ == s@,
                s@ == self.uri@,
                i <= len,
                query_start(s@, i as int) == query_start(s@, 0),
            decreases len - i,
        {
            if chars[i] == '?' {
                return s.substring_char(0, i);
            }
            i += 1;
        }
        s.substring_char(0, len)
    }
}

} // verus!
