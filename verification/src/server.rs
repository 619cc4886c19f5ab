//! The request dispatcher.
//!
//! Every request the transport accepts is routed here: the login endpoint
//! is open, everything else first passes the authentication gate, and the
//! remaining requests are routed by method and path to the version, exec,
//! poll, or static-asset handlers.  Content negotiation for the exec and
//! poll bodies, and the HTTP plumbing itself, stay with the transport; the
//! decisions live here.

use vstd::prelude::*;

use crate::auth::CredentialStore;
use crate::strutil::str_eq;

verus! {

use vstd::string::StrSliceExecFns;
use vstd::string::StringExecFns;

/// Where a request goes, or why it goes nowhere.
#[derive(Clone, Copy, PartialEq, Eq, Structural, Debug)]
pub enum RouteDecision {
    /// The open login endpoint.
    Login,
    /// Refused by the authentication gate; answer 401.
    Unauthorized,
    /// The version report.
    Version,
    /// Script execution.
    Exec,
    /// The long-poll endpoint.
    Poll,
    /// Everything else: the static asset tree.
    Static,
}

/// How a request is routed: the login endpoint is reachable without
/// credentials; every other path demands authorization first; then the
/// method and path select the handler, with the static tree as the
/// fallback.
pub open spec fn spec_route(
    store: CredentialStore,
    method: Seq<char>,
    url: Seq<char>,
    cookie_session: Option<Seq<char>>,
    api_key_header: Option<Seq<char>>,
) -> RouteDecision {
    if method == "GET"@ && url == "/login"@ {
        RouteDecision::Login
    } else if !store.spec_authorized(cookie_session, api_key_header) {
        RouteDecision::Unauthorized
    } else if method == "GET"@ && url == "/api/version"@ {
        RouteDecision::Version
    } else if method == "POST"@ && url == "/api/exec"@ {
        RouteDecision::Exec
    } else if method == "POST"@ && url == "/api/poll"@ {
        RouteDecision::Poll
    } else {
        RouteDecision::Static
    }
}

/// Routes one request, exactly as `spec_route` says.
pub fn route_request(
    store: &CredentialStore,
    method: &str,
    url: &str,
    cookie_session: Option<&String>,
    api_key_header: Option<&String>,
) -> (r: RouteDecision)
    ensures
        r == spec_route(
            *store,
            method@,
            url@,
            match cookie_session {
                Some(t) => Some(t@),
                None => None,
            },
            match api_key_header {
                Some(k) => Some(k@),
                None => None,
            },
        ),
{
    let is_get = str_eq(method, "GET");
    if is_get && str_eq(url, "/login") {
        return RouteDecision::Login;
    }
    if !store.authorize(cookie_session, api_key_header) {
        return RouteDecision::Unauthorized;
    }
    if is_get && str_eq(url, "/api/version") {
        return RouteDecision::Version;
    }
    let is_post = str_eq(method, "POST");
    if is_post && str_eq(url, "/api/exec") {
        return RouteDecision::Exec;
    }
    if is_post && str_eq(url, "/api/poll") {
        return RouteDecision::Poll;
    }
    RouteDecision::Static
}

/// A request bearing a session cookie outside the active set is refused
/// on every path except the open login endpoint, even when a valid API
/// key accompanies the unknown cookie.
pub proof fn lemma_unknown_cookie_routes_unauthorized(
    store: CredentialStore,
    method: Seq<char>,
    url: Seq<char>,
    token: Seq<char>,
    api_key_header: Option<Seq<char>>,
)
    requires
        !store.spec_has_session(token),
        !(method == "GET"@ && url == "/login"@),
    ensures
        spec_route(store, method, url, Some(token), api_key_header)
            == RouteDecision::Unauthorized,
{
}

/// The extension of the file a path names, scanned from the end: the
/// characters after the last dot of the final path component, unless that
/// dot starts the component.  A path ending in a separator has none.
pub open spec fn spec_extension_at(s: Seq<char>, i: int) -> Option<Seq<char>>
    decreases i + 1,
{
    if i < 0 {
        None
    } else if s[i] == '/' {
        None
    } else if s[i] == '.' {
        if i == 0 || s[i - 1] == '/' {
            None
        } else {
            Some(s.skip(i + 1))
        }
    } else {
        spec_extension_at(s, i - 1)
    }
}

/// See `spec_extension_at`.
pub open spec fn spec_extension(s: Seq<char>) -> Option<Seq<char>> {
    spec_extension_at(s, s.len() - 1)
}

/// The extension used to pick a mime type: the path's own, or `html` when
/// the path has none or an empty one.
pub open spec fn spec_ext_or_default(s: Seq<char>) -> Seq<char> {
    match spec_extension(s) {
        Some(e) => if e.len() > 0 {
            e
        } else {
            "html"@
        },
        None => "html"@,
    }
}

/// Extracts the file extension of `url`, exactly as `spec_extension`
/// says.
pub fn extension_of(url: &str) -> (r: Option<String>)
    ensures
        match r {
            Some(e) => spec_extension(url@) == Some(e@),
            None => spec_extension(url@) is None,
        },
{
    let n = url.unicode_len();
    let mut i: usize = n;
    while i > 0
        invariant
            0 <= i <= n,
            n == url@.len(),
            spec_extension(url@) == spec_extension_at(url@, i as int - 1),
        decreases i,
    {
        i -= 1;
        let c = url.get_char(i);
        if c == '/' {
            return None;
        }
        if c == '.' {
            if i == 0 {
                return None;
            }
            if url.get_char(i - 1) == '/' {
                return None;
            }
            let e = url.substring_char(i + 1, n);
            proof {
                assert(e@ =~= url@.skip(i + 1));
            }
            return Some(e.to_owned());
        }
    }
    None
}

/// What `rouille::extension_to_mime` returns for an extension; opaque,
/// but a fixed table, a function of its argument alone.
pub uninterp spec fn mime_of(ext: Seq<char>) -> Seq<char>;

/// Relies on `rouille::extension_to_mime`: a fixed extension-to-mime
/// table with an octet-stream fallback for unknown extensions.
#[verifier::external_body]
fn extension_to_mime(ext: &str) -> (r: String)
    ensures
        r@ == mime_of(ext@),
{
    rouille::extension_to_mime(ext).to_owned()
}

/// The answer for a static-asset request.
pub enum StaticOutcome {
    /// The method is not GET; the asset tree only serves reads.
    NotAllowed,
    /// No asset of that name exists (the host returned no bytes).
    NotFound,
    /// The asset's bytes, typed by the path's extension.
    Content {
        /// The mime type chosen for the path.
        content_type: String,
        /// The asset's bytes.
        body: Vec<u8>,
    },
}

/// Decides the response for a static-asset request, given the bytes the
/// host found for the path (none means no such asset): reads only, a
/// miss is a miss, and a hit is typed by the path's extension with `html`
/// standing in for paths without one.
pub fn static_response(method: &str, url: &str, content: Vec<u8>) -> (r: StaticOutcome)
    ensures
        method@ != "GET"@ ==> r is NotAllowed,
        method@ == "GET"@ && content@.len() == 0 ==> r is NotFound,
        method@ == "GET"@ && content@.len() > 0 ==> match r {
            StaticOutcome::Content { content_type, body } => {
                &&& body@ == content@
                &&& content_type@ == mime_of(spec_ext_or_default(url@))
            },
            _ => false,
        },
{
    if !str_eq(method, "GET") {
        return StaticOutcome::NotAllowed;
    }
    if content.len() == 0 {
        return StaticOutcome::NotFound;
    }
    let ext = match extension_of(url) {
        Some(e) => {
            if e.as_str().is_empty() {
                String::from_str("html")
            } else {
                e
            }
        },
        None => String::from_str("html"),
    };
    let content_type = extension_to_mime(ext.as_str());
    StaticOutcome::Content { content_type, body: content }
}

} // verus!
