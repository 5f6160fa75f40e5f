//! CORS: the `Access-Control-*` headers set on every response, and the answer
//! to the browser's preflight `OPTIONS` request.

use vstd::prelude::*;
use crate::error::STATUS_NO_CONTENT;
use crate::models::opt_view;

verus! {

/// The environment variable naming the browser origin allowed to call the API.
pub const ORIGIN_ENV: &'static str = "CORS_ALLOWED_ORIGIN";

/// The origin allowed when the variable is not set: the Next.js dev server.
pub const DEFAULT_ORIGIN: &'static str = "http://localhost:3000";

/// The methods the API implements.
pub const ALLOWED_METHODS: &'static str = "GET, POST, PUT, DELETE, OPTIONS";

/// The one request header the frontend sends.
pub const ALLOWED_HEADERS: &'static str = "Content-Type";

/// How long, in seconds, the browser may cache a preflight answer: 24 h.
pub const MAX_AGE: &'static str = "86400";

/// The CORS policy of the process: one allowed origin, fixed when the policy
/// is built, so that every response of the process says the same.
#[derive(Clone, Debug)]
pub struct Cors {
    origin: String,
}

impl View for Cors {
    type V = Seq<char>;

    closed spec fn view(&self) -> Seq<char> {
        self.origin@
    }
}

/// The headers set on a response under the policy allowing `origin`, in the
/// order they are set. Each replaces any earlier header of the same name.
pub open spec fn cors_headers(origin: Seq<char>) -> Seq<(Seq<char>, Seq<char>)> {
    seq![
        ("Access-Control-Allow-Origin"@, origin),
        ("Access-Control-Allow-Methods"@, ALLOWED_METHODS@),
        ("Access-Control-Allow-Headers"@, ALLOWED_HEADERS@),
        ("Access-Control-Max-Age"@, MAX_AGE@),
    ]
}

/// The view of a list of headers.
pub open spec fn headers_view(h: Seq<(&'static str, String)>) -> Seq<(Seq<char>, Seq<char>)> {
    h.map_values(|p: (&'static str, String)| (p.0@, p.1@))
}

/// The origin allowed when the variable holds `value`: the value when it is
/// set and not empty, else [`DEFAULT_ORIGIN`].
pub open spec fn origin_spec(value: Option<Seq<char>>) -> Seq<char> {
    match value {
        Some(v) => if v.len() > 0 {
            v
        } else {
            DEFAULT_ORIGIN@
        },
        None => DEFAULT_ORIGIN@,
    }
}

impl Cors {
    /// The policy whose allowed origin is the value of [`ORIGIN_ENV`], read once
    /// at start-up, or [`DEFAULT_ORIGIN`] when the variable is not set or empty:
    /// the allowed origin is never empty.
    pub fn from_env(value: Option<String>) -> (c: Cors)
        ensures
            c@ == origin_spec(opt_view(value)),
            c@.len() > 0,
    {
        proof {
            reveal_strlit("http://localhost:3000");
        }
        match value {
            Some(origin) => if origin.as_str().unicode_len() > 0 {
                Cors { origin }
            } else {
                Cors { origin: String::from_str(DEFAULT_ORIGIN) }
            },
            None => Cors { origin: String::from_str(DEFAULT_ORIGIN) },
        }
    }

    /// The allowed origin.
    pub fn origin(&self) -> (r: &str)
        ensures
            r@ == self@,
    {
        self.origin.as_str()
    }

    /// The four headers to set on every outgoing response, whatever the
    /// request, catchers' answers included.
    pub fn headers(&self) -> (r: Vec<(&'static str, String)>)
        ensures
            headers_view(r@) == cors_headers(self@),
    {
        let mut r: Vec<(&'static str, String)> = Vec::new();
        r.push(("Access-Control-Allow-Origin", self.origin.clone()));
        r.push(("Access-Control-Allow-Methods", String::from_str(ALLOWED_METHODS)));
        r.push(("Access-Control-Allow-Headers", String::from_str(ALLOWED_HEADERS)));
        r.push(("Access-Control-Max-Age", String::from_str(MAX_AGE)));
        assert(headers_view(r@) =~= cors_headers(self@));
        r
    }

    /// The whole answer to a preflight `OPTIONS` request of any path: 204, no
    /// body, and the four CORS headers of the policy.
    pub fn preflight_answer(&self) -> (r: (u16, Vec<(&'static str, String)>))
        ensures
            r.0 == STATUS_NO_CONTENT,
            headers_view(r.1@) == cors_headers(self@),
    {
        (preflight(), self.headers())
    }
}

/// Answers the preflight `OPTIONS` request of any path: 204 and no body; the
/// CORS headers are added to it like to every other response.
pub fn preflight() -> (status: u16)
    ensures
        status == STATUS_NO_CONTENT,
{
    STATUS_NO_CONTENT
}

} // verus!
