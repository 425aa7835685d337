use vstd::prelude::*;
use vstd::string::*;

use crate::comment::opt_clone;

verus! {

/// Adds cross-origin headers to every response when an origin is allowed.
#[derive(Clone, Debug)]
pub struct CorsMiddleware {
    pub origin: Option<String>,
}

/// The views of a list of header pairs.
pub open spec fn header_views(h: Seq<(String, String)>) -> Seq<(Seq<char>, Seq<char>)> {
    h.map_values(|p: (String, String)| (p.0@, p.1@))
}

/// The headers added for an allowed origin, and none without one.
pub open spec fn cors_headers_spec(origin: Option<Seq<char>>) -> Seq<(Seq<char>, Seq<char>)> {
    match origin {
        Some(o) => seq![
            ("Access-Control-Allow-Origin"@, o),
            ("Access-Control-Allow-Methods"@, "*"@),
            ("Access-Control-Allow-Headers"@, "*"@),
            ("Access-Control-Expose-Headers"@, "location"@),
        ],
        None => Seq::empty(),
    }
}

impl CorsMiddleware {
    pub fn new(origin: &Option<String>) -> (r: CorsMiddleware)
        ensures
            r.origin == *origin,
    {
        CorsMiddleware { origin: opt_clone(origin) }
    }

    /// The headers to add to a response, as name and value.
    pub fn response_headers(&self) -> (r: Vec<(String, String)>)
        ensures
            header_views(r@) == cors_headers_spec(
                match self.origin {
                    Some(o) => Some(o@),
                    None => None,
                },
            ),
    {
        let mut headers: Vec<(String, String)> = Vec::new();
        if let Some(origin) = &self.origin {
            headers.push((String::from_str("Access-Control-Allow-Origin"), origin.clone()));
            headers.push((String::from_str("Access-Control-Allow-Methods"), String::from_str("*")));
            headers.push((String::from_str("Access-Control-Allow-Headers"), String::from_str("*")));
            headers.push(
                (String::from_str("Access-Control-Expose-Headers"), String::from_str("location")),
            );
        }
        proof {
            assert(header_views(headers@) =~= cors_headers_spec(
                match self.origin {
                    Some(o) => Some(o@),
                    None => None,
                },
            ));
        }
        headers
    }
}

} // verus!
