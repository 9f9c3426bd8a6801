use splitwise_web::exchange::{Content, Method, Reply, Request};
use splitwise_web::router::handle;
use splitwise_web::state::AppState;

fn state() -> AppState {
    let mut s = AppState::new();
    assert!(s
        .add_template("index.html".to_string(), "<p>Hello {{ username }}</p>".to_string())
        .is_ok());
    assert!(s
        .add_template("groups.html".to_string(), "<h1>Groups of {{ username }}</h1>".to_string())
        .is_ok());
    s
}

fn request(method: Method, path: &str, auth: Option<&str>) -> Request {
    Request::new(method, path.to_string(), auth.map(|a| a.to_string()))
}

fn send(s: &AppState, method: Method, path: &str, auth: Option<&str>) -> Reply {
    handle(s, &request(method, path, auth))
}

#[test]
fn groups_without_authorization_redirect_home() {
    let s = state();
    for method in [Method::Get, Method::Post] {
        let r = send(&s, method, "/groups", None);
        assert_eq!(r.status, 307);
        assert_eq!(r.location.as_deref(), Some("/"));
        assert_eq!(r.body, "");
    }
}

#[test]
fn groups_with_bearer_header_show_it() {
    let s = state();
    let posted = send(&s, Method::Post, "/groups", Some("Bearer xyz"));
    assert_eq!(posted.status, 200);
    assert!(posted.body.contains("Bearer xyz"));
    let listed = send(&s, Method::Get, "/groups", Some("Bearer xyz"));
    assert_eq!(listed.status, 200);
    assert_eq!(listed.content, Content::Html);
    assert!(listed.body.contains("Bearer xyz"));
}

#[test]
fn index_greets_bob_whatever_the_headers() {
    let s = state();
    for auth in [None, Some("alice"), Some("Bearer xyz")] {
        let r = send(&s, Method::Get, "/", auth);
        assert_eq!(r.status, 200);
        assert_eq!(r.content, Content::Html);
        assert!(r.body.contains("Bob"));
        assert_eq!(r.body, "<p>Hello Bob</p>");
    }
}

#[test]
fn creating_a_group_thanks_the_user() {
    let s = state();
    let r = send(&s, Method::Post, "/groups", Some("alice"));
    assert_eq!(r.status, 200);
    assert_eq!(r.body, "Thanks, alice");
    assert_eq!(r.content, Content::Html);
}

#[test]
fn missing_template_gives_generic_error() {
    let mut s = AppState::new();
    assert!(s
        .add_template("groups.html".to_string(), "SECRET {{ username }}".to_string())
        .is_ok());
    let r = send(&s, Method::Get, "/", None);
    assert_eq!(r.status, 500);
    assert_eq!(r.body, "Something went wrong");
    assert!(!r.body.contains("SECRET"));
    assert_eq!(r.content, Content::Plain);
}

#[test]
fn template_with_syntax_error_is_refused_and_fails_later() {
    let mut s = AppState::new();
    assert!(s
        .add_template("index.html".to_string(), "{% if %}broken".to_string())
        .is_err());
    let r = send(&s, Method::Get, "/", None);
    assert_eq!(r.status, 500);
    assert_eq!(r.body, "Something went wrong");
}

#[test]
fn login_and_logout_reply_empty() {
    let s = state();
    for path in ["/login", "/logout"] {
        for auth in [None, Some("alice")] {
            let r = send(&s, Method::Post, path, auth);
            assert_eq!(r.status, 200);
            assert_eq!(r.body, "");
            assert_eq!(r.content, Content::Empty);
        }
    }
}

#[test]
fn wrong_method_is_not_allowed() {
    let s = state();
    assert_eq!(send(&s, Method::Post, "/", None).status, 405);
    assert_eq!(send(&s, Method::Other, "/groups", Some("alice")).status, 405);
    assert_eq!(send(&s, Method::Get, "/login", None).status, 405);
    assert_eq!(send(&s, Method::Get, "/logout", None).status, 405);
}

#[test]
fn unknown_paths_are_not_found() {
    let s = state();
    assert_eq!(send(&s, Method::Get, "/expenses", Some("alice")).status, 404);
    assert_eq!(send(&s, Method::Post, "/groups/", Some("alice")).status, 404);
    assert_eq!(send(&s, Method::Get, "", None).status, 404);
}

#[test]
fn rendered_user_name_is_escaped_in_html() {
    let s = state();
    let r = send(&s, Method::Get, "/groups", Some("<b>"));
    assert_eq!(r.status, 200);
    assert_eq!(r.body, "<h1>Groups of &lt;b&gt;</h1>");
}

#[test]
fn later_template_replaces_earlier() {
    let mut s = state();
    assert!(s
        .add_template("index.html".to_string(), "Hi {{ username }}!".to_string())
        .is_ok());
    assert_eq!(send(&s, Method::Get, "/", None).body, "Hi Bob!");
}

#[test]
fn debug_global_is_not_available() {
    let mut s = AppState::new();
    assert!(s
        .add_template("index.html".to_string(), "{{ debug() }}".to_string())
        .is_ok());
    let r = send(&s, Method::Get, "/", None);
    assert_eq!(r.status, 500);
    assert_eq!(r.body, "Something went wrong");
}
