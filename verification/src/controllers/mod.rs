//! What the web handlers answer: redirects, pages and data replies, the
//! login gate in front of every route and the answer to unknown routes.

pub mod account;
pub mod task;

use vstd::prelude::*;
use crate::utils::text::{push_decimal, decimal, join, views, join_strings, contains, contains_str, occurs_at, lemma_join_starts_with_first, all_digits, digits_value, lemma_decimal_reads_back};

verus! {

/// The parts of a request's URL that the handlers read.
pub struct RequestUrl {
    pub scheme: String,
    pub host: String,
    pub port: u16,
    /// The path segments, without the separating `/`.
    pub path: Vec<String>,
}

/// The media type of a reply body (all with charset UTF-8).
#[derive(Debug, Clone, Copy, PartialEq, Eq, Structural)]
pub enum ContentKind {
    /// `text/html`
    Html,
    /// `application/json`
    Json,
    /// `text/plain`
    PlainText,
}

/// A reply to a request.
pub struct Reply {
    /// The HTTP status code.
    pub status: u16,
    /// The `Content-Type` header, when one is set.
    pub content_type: Option<ContentKind>,
    /// The body, when there is one.
    pub body: Option<String>,
    /// The target of a redirect.
    pub location: Option<String>,
}

/// `scheme://host:port` of a request URL.
pub open spec fn origin(url: RequestUrl) -> Seq<char> {
    url.scheme@ + "://"@ + url.host@ + ":"@ + decimal(url.port as nat)
}

/// The URL at `path` on the server that received `url`.
pub fn absolute_url(url: &RequestUrl, path: &str) -> (r: String)
    ensures
        r@ == origin(*url) + path@,
{
    let mut r = url.scheme.clone();
    r.append("://");
    r.append(url.host.as_str());
    r.append(":");
    push_decimal(&mut r, url.port as u32);
    r.append(path);
    r
}

/// A redirect (302 Found) to `path` on the server that received `url`.
pub fn redirect(url: &RequestUrl, path: &str) -> (r: Reply)
    ensures
        r.status == 302,
        r.location matches Some(l) && l@ == origin(*url) + path@,
        r.content_type is None,
        r.body is None,
{
    Reply { status: 302, content_type: None, body: None, location: Some(absolute_url(url, path)) }
}

/// A rendered page (200 OK, HTML).
pub fn template(page: String) -> (r: Reply)
    ensures
        r.status == 200,
        r.content_type == Some(ContentKind::Html),
        r.body matches Some(b) && b@ == page@,
        r.location is None,
{
    Reply { status: 200, content_type: Some(ContentKind::Html), body: Some(page), location: None }
}

/// A JSON document (200 OK, JSON).
pub fn ok_json(data: &str) -> (r: Reply)
    ensures
        r.status == 200,
        r.content_type == Some(ContentKind::Json),
        r.body matches Some(b) && b@ == data@,
        r.location is None,
{
    Reply { status: 200, content_type: Some(ContentKind::Json), body: Some(data.to_owned()), location: None }
}

/// Plain text (200 OK, text).
pub fn ok_text(data: &str) -> (r: Reply)
    ensures
        r.status == 200,
        r.content_type == Some(ContentKind::PlainText),
        r.body matches Some(b) && b@ == data@,
        r.location is None,
{
    Reply { status: 200, content_type: Some(ContentKind::PlainText), body: Some(data.to_owned()), location: None }
}

/// The path of the login page.
pub open spec fn login_path() -> Seq<char> {
    "/account/login/"@
}

/// Whether a request may reach its handler: the visitor is logged in, or the
/// path (its segments joined with `/`) mentions `account`.
pub open spec fn admitted(logged_in: bool, url: RequestUrl) -> bool {
    logged_in || contains(join(views(url.path@), "/"@), "account"@)
}

/// The login gate in front of every route: `None` lets the request through
/// to its handler, otherwise the reply is a redirect to the login page.
pub fn login_gate(logged_in: bool, url: &RequestUrl) -> (r: Option<Reply>)
    ensures
        r is None <==> admitted(logged_in, *url),
        r matches Some(reply) ==> {
            &&& reply.status == 302
            &&& reply.body is None
            &&& reply.content_type is None
            &&& reply.location matches Some(l) && l@ == origin(*url) + login_path()
        },
{
    if logged_in {
        return None;
    }
    let joined = join_strings(&url.path, "/");
    if contains_str(joined.as_str(), "account") {
        None
    } else {
        Some(redirect(url, "/account/login/"))
    }
}

/// Every page under `/account/` (the login page among them) passes the
/// login gate, so the redirect to the login page cannot loop.
pub proof fn lemma_account_pages_admitted(logged_in: bool, url: RequestUrl)
    requires
        url.path@.len() >= 1,
        url.path@[0]@ == "account"@,
    ensures
        admitted(logged_in, url),
{
    let parts = views(url.path@);
    assert(parts[0] == "account"@);
    lemma_join_starts_with_first(parts, "/"@);
    assert(occurs_at(join(parts, "/"@), "account"@, 0));
}

/// A redirect target names the server that received the request: it is
/// the request's scheme, then `://`, then the request's host, then `:`, then
/// a run of decimal digits whose value is the request's port, and it ends
/// with the path.
pub proof fn lemma_redirect_target_parts(url: RequestUrl, path: Seq<char>)
    ensures
        ({
            let t = origin(url) + path;
            let k: int = url.scheme@.len() as int + 3;
            let h: int = k + url.host@.len() as int;
            let e: int = t.len() as int - path.len() as int;
            &&& t.subrange(0, url.scheme@.len() as int) == url.scheme@
            &&& t[url.scheme@.len() as int] == ':' && t[url.scheme@.len() as int + 1] == '/' && t[url.scheme@.len() as int + 2] == '/'
            &&& t.subrange(k, h) == url.host@
            &&& t[h] == ':'
            &&& h + 1 < e
            &&& all_digits(t.subrange(h + 1, e))
            &&& digits_value(t.subrange(h + 1, e)) == url.port as nat
            &&& t.subrange(e, t.len() as int) == path
        }),
{
    reveal_strlit("://");
    reveal_strlit(":");
    lemma_decimal_reads_back(url.port as nat);
    let t = origin(url) + path;
    let k: int = url.scheme@.len() as int + 3;
    let h: int = k + url.host@.len() as int;
    let e: int = t.len() as int - path.len() as int;
    let d = decimal(url.port as nat);
    assert(t == url.scheme@ + "://"@ + url.host@ + ":"@ + d + path);
    assert(t.subrange(0, url.scheme@.len() as int) =~= url.scheme@);
    assert(t.subrange(k, h) =~= url.host@);
    assert(t.subrange(h + 1, e) =~= d);
    assert(t.subrange(e, t.len() as int) =~= path);
}

/// A logged-in visitor is let through the login gate on every path.
pub proof fn lemma_logged_in_admitted(url: RequestUrl)
    ensures
        admitted(true, url),
{
}

/// The text of the reply to an unknown route.
pub open spec fn not_found_text() -> Seq<char> {
    "Custom 404 response"@
}

/// What an error that reached the end of the chain turns into: an unknown
/// route becomes a 404 reply; any other error is passed on (`None`).
pub fn catch(no_route: bool) -> (r: Option<Reply>)
    ensures
        r is Some <==> no_route,
        r matches Some(reply) ==> {
            &&& reply.status == 404
            &&& reply.content_type is None
            &&& reply.location is None
            &&& reply.body matches Some(b) && b@ == not_found_text()
        },
{
    if no_route {
        Some(Reply {
            status: 404,
            content_type: None,
            body: Some("Custom 404 response".to_owned()),
            location: None,
        })
    } else {
        None
    }
}

} // verus!
