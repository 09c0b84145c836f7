//! Loading content into the view: the translation of a load request into
//! the plain values the native side consumes, and the read-back of the
//! view's current location.
//!
//! A request to load content either carries raw HTML with a base URI, or a
//! structured HTTP request. The native side only ever consumes plain
//! strings and bytes, so the whole translation is ordinary computation over
//! the `http` crate's types, done here.

use vstd::prelude::*;

verus! {

#[verifier::external_type_specification]
#[verifier::external_body]
pub struct ExUri(http::Uri);

#[verifier::external_type_specification]
#[verifier::external_body]
#[verifier::reject_recursive_types(T)]
pub struct ExRequest<T>(http::Request<T>);

/// What to load into the view: raw HTML resolved against a base URI, or a
/// structured HTTP request.
pub enum Load<'a> {
    Html { data: &'a str, base: http::Uri },
    Request(http::Request<()>),
}

/// The plain values a load request turns into, ready for the native side:
/// either the HTML text with the string form of its base URI, or the string
/// forms of the request's method and URI with its header list.
pub enum LoadPlan {
    Html { html: String, base: String },
    Request(RequestPlan),
}

/// The plain form of a structured HTTP request: method and URI as strings,
/// and each header as its name with its value's bytes, in the order the
/// request's header map yields them.
pub struct RequestPlan {
    pub method: String,
    pub uri: String,
    pub headers: Vec<(String, Vec<u8>)>,
}

/// The string form of a URI.
pub uninterp spec fn uri_str_of(u: http::Uri) -> Seq<char>;

/// The string form of a request's method.
pub uninterp spec fn req_method_str_of(r: http::Request<()>) -> Seq<char>;

/// The string form of a request's URI.
pub uninterp spec fn req_uri_str_of(r: http::Request<()>) -> Seq<char>;

/// A request's headers, each as its name with its value's bytes, in the
/// order the request's header map yields them.
pub uninterp spec fn req_headers_of(r: http::Request<()>) -> Seq<(String, Vec<u8>)>;

/// What parsing the given bytes as a URI returns.
pub uninterp spec fn uri_parse(b: Seq<u8>) -> Option<http::Uri>;

/// Relies on `http::Uri`'s `Display` impl: writes the URI out as the string
/// it denotes, a function of the URI value alone.
#[verifier::external_body]
fn uri_string(u: &http::Uri) -> (r: String)
    ensures
        r@ == uri_str_of(*u),
{
    u.to_string()
}

/// Relies on `http::Request::method` and `http::Method::as_str`: hands the
/// request's method out as the string that names it.
#[verifier::external_body]
fn request_method_string(r: &http::Request<()>) -> (s: String)
    ensures
        s@ == req_method_str_of(*r),
{
    r.method().as_str().to_string()
}

/// Relies on `http::Request::uri` and `http::Uri`'s `Display` impl: hands
/// the request's URI out as the string it denotes.
#[verifier::external_body]
fn request_uri_string(r: &http::Request<()>) -> (s: String)
    ensures
        s@ == req_uri_str_of(*r),
{
    r.uri().to_string()
}

/// Relies on `http::Request::headers` and `http::HeaderMap::iter`, whose
/// order its documentation says is consistent for a given map: hands each
/// header out as its name with its value's bytes.
#[verifier::external_body]
fn request_header_list(r: &http::Request<()>) -> (h: Vec<(String, Vec<u8>)>)
    ensures
        h@ == req_headers_of(*r),
{
    r.headers().iter().map(|(name, value)| (name.as_str().to_string(), value.as_bytes().to_vec())).collect()
}

/// Relies on `<http::Uri as TryFrom<&[u8]>>::try_from`: parses the bytes as
/// a URI, and fails on empty input.
#[verifier::external_body]
fn parse_uri_bytes(b: &[u8]) -> (r: Option<http::Uri>)
    ensures
        r == uri_parse(b@),
        b@.len() == 0 ==> r is None,
{
    http::Uri::try_from(b).ok()
}

/// Builds the plan that loads raw HTML against an already-rendered base URI
/// string: both are carried over unchanged.
pub fn plan_for_html(data: &str, base: String) -> (r: LoadPlan)
    ensures
        (r matches LoadPlan::Html { html, base: b } && html@ == data@ && b@ == base@),
{
    LoadPlan::Html { html: data.to_string(), base }
}

/// Builds the plan that loads a structured request from its already-rendered
/// parts: method, URI and header list are carried over unchanged.
pub fn plan_for_request(method: String, uri: String, headers: Vec<(String, Vec<u8>)>) -> (r: LoadPlan)
    ensures
        (r matches LoadPlan::Request(p) && p.method@ == method@ && p.uri@ == uri@ && p.headers@
            == headers@),
{
    LoadPlan::Request(RequestPlan { method, uri, headers })
}

/// Turns a load request into the plain values the native side consumes:
/// HTML text with its base URI's string form, or the request's method
/// string, URI string and header list.
pub fn load_plan(load: &Load) -> (r: LoadPlan)
    ensures
        match *load {
            Load::Html { data, base } => (r matches LoadPlan::Html { html, base: b } && html@
                == data@ && b@ == uri_str_of(base)),
            Load::Request(req) => (r matches LoadPlan::Request(p) && p.method@
                == req_method_str_of(req) && p.uri@ == req_uri_str_of(req) && p.headers@
                == req_headers_of(req)),
        },
{
    match load {
        Load::Html { data, base } => plan_for_html(data, uri_string(base)),
        Load::Request(req) => plan_for_request(
            request_method_string(req),
            request_uri_string(req),
            request_header_list(req),
        ),
    }
}

/// The view's current location, read back from the native side as raw
/// bytes: absent when the native side had none, absent when the bytes are
/// empty, and otherwise whatever the bytes parse to as a URI.
pub fn current_uri(raw: Option<Vec<u8>>) -> (r: Option<http::Uri>)
    ensures
        raw is None ==> r is None,
        raw matches Some(b) ==> ((b@.len() == 0 ==> r is None) && (b@.len() > 0 ==> r == uri_parse(
            b@,
        ))),
{
    match raw {
        None => None,
        Some(b) => if b.len() == 0 {
            None
        } else {
            parse_uri_bytes(b.as_slice())
        },
    }
}

} // verus!
