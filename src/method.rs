//! The closed set of request methods.

use vstd::prelude::*;

verus! {

/// A request method; any other text is refused before the network is used.
#[derive(Clone, Copy, Debug, PartialEq, Eq, Structural)]
pub enum Method {
    Get,
    Post,
    Put,
    Patch,
    Delete,
}

/// The method that a text names, matched exactly.
pub open spec fn method_of(s: Seq<char>) -> Option<Method> {
    if s == "GET"@ {
        Some(Method::Get)
    } else if s == "POST"@ {
        Some(Method::Post)
    } else if s == "PUT"@ {
        Some(Method::Put)
    } else if s == "PATCH"@ {
        Some(Method::Patch)
    } else if s == "DELETE"@ {
        Some(Method::Delete)
    } else {
        None
    }
}

/// The name of a method, as it is written in a request.
pub open spec fn method_name(m: Method) -> Seq<char> {
    match m {
        Method::Get => "GET"@,
        Method::Post => "POST"@,
        Method::Put => "PUT"@,
        Method::Patch => "PATCH"@,
        Method::Delete => "DELETE"@,
    }
}

impl Method {
    /// The method that `s` names, if it is one of the five.
    pub fn parse(s: &str) -> (r: Option<Method>)
        ensures
            r == method_of(s@),
    {
        let t = String::from_str(s);
        if t == String::from_str("GET") {
            Some(Method::Get)
        } else if t == String::from_str("POST") {
            Some(Method::Post)
        } else if t == String::from_str("PUT") {
            Some(Method::Put)
        } else if t == String::from_str("PATCH") {
            Some(Method::Patch)
        } else if t == String::from_str("DELETE") {
            Some(Method::Delete)
        } else {
            None
        }
    }

    /// The name of the method.
    pub fn as_str(&self) -> (r: &'static str)
        ensures
            r@ == method_name(*self),
    {
        match self {
            Method::Get => "GET",
            Method::Post => "POST",
            Method::Put => "PUT",
            Method::Patch => "PATCH",
            Method::Delete => "DELETE",
        }
    }
}

} // verus!
