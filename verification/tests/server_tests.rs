use lnav_rs_ext::auth::CredentialStore;
use lnav_rs_ext::server::{
    extension_of, route_request, static_response, RouteDecision, StaticOutcome,
};

fn store_with_key(key: &str) -> CredentialStore {
    CredentialStore::new(key.to_string())
}

#[test]
fn login_is_open_everything_else_is_gated() {
    let store = store_with_key("");
    assert_eq!(
        route_request(&store, "GET", "/login", None, None),
        RouteDecision::Login
    );
    assert_eq!(
        route_request(&store, "GET", "/api/version", None, None),
        RouteDecision::Unauthorized
    );
    assert_eq!(
        route_request(&store, "POST", "/api/exec", None, None),
        RouteDecision::Unauthorized
    );
    assert_eq!(
        route_request(&store, "GET", "/index.html", None, None),
        RouteDecision::Unauthorized
    );
}

#[test]
fn api_key_routes_requests_by_method_and_path() {
    let store = store_with_key("k");
    let key = "k".to_string();
    assert_eq!(
        route_request(&store, "GET", "/api/version", None, Some(&key)),
        RouteDecision::Version
    );
    assert_eq!(
        route_request(&store, "POST", "/api/exec", None, Some(&key)),
        RouteDecision::Exec
    );
    assert_eq!(
        route_request(&store, "POST", "/api/poll", None, Some(&key)),
        RouteDecision::Poll
    );
    // Method and path must both match; everything else is the asset tree.
    assert_eq!(
        route_request(&store, "GET", "/api/exec", None, Some(&key)),
        RouteDecision::Static
    );
    assert_eq!(
        route_request(&store, "POST", "/api/version", None, Some(&key)),
        RouteDecision::Static
    );
    assert_eq!(
        route_request(&store, "GET", "/ui/index.html", None, Some(&key)),
        RouteDecision::Static
    );
}

#[test]
fn a_session_cookie_authorizes_the_version_route() {
    let mut store = store_with_key("");
    lnav_rs_ext::auth::set_login_otp(&mut store, "p".to_string());
    let session = match lnav_rs_ext::auth::do_login(&mut store, Some("p".to_string()), None) {
        lnav_rs_ext::auth::LoginOutcome::Granted { session_id, .. } => session_id,
        lnav_rs_ext::auth::LoginOutcome::Denied => panic!("expected a granted login"),
    };
    assert_eq!(
        route_request(&store, "GET", "/api/version", Some(&session), None),
        RouteDecision::Version
    );
}

#[test]
fn an_unknown_cookie_is_decisive_over_the_api_key() {
    let store = store_with_key("k");
    let key = "k".to_string();
    let stranger = "ghost".to_string();
    assert_eq!(
        route_request(&store, "GET", "/api/version", Some(&stranger), Some(&key)),
        RouteDecision::Unauthorized
    );
}

#[test]
fn extensions_come_from_the_final_component() {
    assert_eq!(extension_of("/a/b.html").as_deref(), Some("html"));
    assert_eq!(extension_of("archive.tar.gz").as_deref(), Some("gz"));
    assert_eq!(extension_of("/x/file"), None);
    assert_eq!(extension_of("/x/.hidden"), None);
    assert_eq!(extension_of("dir.d/file"), None);
    assert_eq!(extension_of("trailing."). as_deref(), Some(""));
    assert_eq!(extension_of("/ends/in/slash/"), None);
    assert_eq!(extension_of(""), None);
}

#[test]
fn static_assets_are_read_only() {
    match static_response("POST", "/a.txt", vec![1]) {
        StaticOutcome::NotAllowed => {}
        _ => panic!("expected the method to be refused"),
    }
}

#[test]
fn missing_assets_are_not_found() {
    match static_response("GET", "/a.txt", Vec::new()) {
        StaticOutcome::NotFound => {}
        _ => panic!("expected a miss"),
    }
}

#[test]
fn assets_are_typed_by_their_extension() {
    match static_response("GET", "/app.js", vec![1, 2, 3]) {
        StaticOutcome::Content { content_type, body } => {
            assert_eq!(content_type, "application/javascript");
            assert_eq!(body, vec![1, 2, 3]);
        }
        _ => panic!("expected content"),
    }
    match static_response("GET", "/page", vec![9]) {
        StaticOutcome::Content { content_type, .. } => {
            assert_eq!(content_type, "text/html; charset=utf8");
        }
        _ => panic!("expected content"),
    }
}
