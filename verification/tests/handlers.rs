use pages::filters::take;
use pages::handlers::{
    home, login, not_found, resolve_theme, ErrorTemplate, HomeTemplate, LoginTemplate, PageError,
    Theme, User,
};
use pages::proxy::{proxy_google_image, relay_image, Fetched};
use pages::reply::Reply;
use pages::router::{
    method_answers, pages_router, same_text, Handler, Method, PagesRouter, Route, Target,
};
use pages::status::Status;

#[test]
fn theme_defaults_to_light() {
    assert_eq!(Theme::default(), Theme::Light);
    assert_eq!(resolve_theme(None), Theme::Light);
    assert_eq!(resolve_theme(Some(Theme::Dark)), Theme::Dark);
    assert_eq!(resolve_theme(Some(Theme::Light)), Theme::Light);
}

#[test]
fn home_shows_the_user() {
    let user = User { id: 42 };
    assert_eq!(home(user, Some(Theme::Dark)), HomeTemplate { theme: Theme::Dark, user: Some(user) });
    assert_eq!(home(user, None), HomeTemplate { theme: Theme::Light, user: Some(user) });
}

#[test]
fn home_is_repeatable() {
    let user = User { id: 42 };
    let first = home(user, Some(Theme::Dark));
    let second = home(user, Some(Theme::Dark));
    assert_eq!(first, second);
    let html = "<html>home</html>".to_string();
    assert_eq!(first.into_response(Ok(html.clone())), second.into_response(Ok(html)));
}

#[test]
fn login_shows_no_user() {
    assert_eq!(login(Some(Theme::Dark)), LoginTemplate { theme: Theme::Dark, user: None });
    assert_eq!(login(None), LoginTemplate { theme: Theme::Light, user: None });
}

#[test]
fn not_found_page_reports_404() {
    let page = not_found(Some(Theme::Dark));
    assert_eq!(
        page,
        ErrorTemplate {
            theme: Theme::Dark,
            user: None,
            error: PageError { status: Status::not_found(), message: "Not Found".to_string() },
        }
    );
    assert_eq!(not_found(None).theme, Theme::Light);
}

#[test]
fn rendered_pages_go_out_as_html() {
    let html = "<html>page</html>".to_string();
    let home_reply = home(User { id: 1 }, None).into_response(Ok(html.clone()));
    assert_eq!(home_reply, Reply::Html { status: Status::ok(), body: html.clone() });
    assert_eq!(home_reply.status(), 200);
    let login_reply = login(None).into_response(Ok(html.clone()));
    assert_eq!(login_reply, Reply::Html { status: Status::ok(), body: html.clone() });
    let missing = not_found(None).into_response(Ok(html.clone()));
    assert_eq!(missing, Reply::Html { status: Status::not_found(), body: html });
    assert_eq!(missing.status(), 404);
}

#[test]
fn failed_rendering_goes_out_as_500() {
    let expected = Reply::Text {
        status: Status::internal_server_error(),
        body: "Failed to render template: boom".to_string(),
    };
    assert_eq!(home(User { id: 1 }, None).into_response(Err("boom".to_string())), expected);
    assert_eq!(login(None).into_response(Err("boom".to_string())), expected);
    assert_eq!(not_found(None).into_response(Err("boom".to_string())), expected);
    assert_eq!(expected.status(), 500);
    assert_eq!(
        Reply::page(Status::ok(), Err(String::new())),
        Reply::Text {
            status: Status::internal_server_error(),
            body: "Failed to render template: ".to_string(),
        }
    );
}

#[test]
fn reply_builders() {
    assert_eq!(
        Reply::html(Status::ok(), "x".to_string()),
        Reply::Html { status: Status::ok(), body: "x".to_string() }
    );
    assert_eq!(
        Reply::text(Status::bad_gateway(), "down"),
        Reply::Text { status: Status::bad_gateway(), body: "down".to_string() }
    );
    assert_eq!(Reply::redirect("/there"), Reply::Redirect { location: "/there".to_string() });
    assert_eq!(Reply::redirect("/there").status(), 303);
}

#[test]
fn proxy_without_url_is_a_bad_request() {
    let got = proxy_google_image(None);
    assert_eq!(
        got,
        Err(Reply::Text { status: Status::bad_request(), body: "Missing `url` param".to_string() })
    );
    assert_eq!(got.unwrap_err().status(), 400);
}

#[test]
fn proxy_with_url_fetches_it() {
    let url = "https://images.example/cat.png".to_string();
    assert_eq!(proxy_google_image(Some(url.clone())), Ok(url));
    assert_eq!(proxy_google_image(Some(String::new())), Ok(String::new()));
}

#[test]
fn proxy_unreachable_upstream_is_a_bad_gateway() {
    let got = relay_image(Fetched::Unreachable);
    assert_eq!(
        got,
        Reply::Text { status: Status::bad_gateway(), body: "Failed to fetch image".to_string() }
    );
    assert_eq!(got.status(), 502);
}

#[test]
fn proxy_unreadable_body_is_a_server_error() {
    let got = relay_image(Fetched::Unreadable);
    assert_eq!(
        got,
        Reply::Text {
            status: Status::internal_server_error(),
            body: "Failed to read image".to_string(),
        }
    );
    assert_eq!(got.status(), 500);
}

#[test]
fn proxy_relays_status_type_and_body() {
    let got = relay_image(Fetched::Image {
        status: Status::ok(),
        content_type: Some(b"image/png".to_vec()),
        body: vec![0x89, 0x50, 0x4e, 0x47],
    });
    assert_eq!(
        got,
        Reply::Relay {
            status: Status::ok(),
            content_type: b"image/png".to_vec(),
            body: vec![0x89, 0x50, 0x4e, 0x47],
        }
    );
}

#[test]
fn proxy_relays_upstream_errors_as_they_are() {
    let got = relay_image(Fetched::Image {
        status: Status::not_found(),
        content_type: Some(b"text/html".to_vec()),
        body: b"nope".to_vec(),
    });
    assert_eq!(got.status(), 404);
    assert_eq!(
        got,
        Reply::Relay {
            status: Status::not_found(),
            content_type: b"text/html".to_vec(),
            body: b"nope".to_vec(),
        }
    );
}

#[test]
fn proxy_defaults_to_jpeg() {
    let got = relay_image(Fetched::Image { status: Status::ok(), content_type: None, body: vec![] });
    assert_eq!(
        got,
        Reply::Relay { status: Status::ok(), content_type: b"image/jpeg".to_vec(), body: vec![] }
    );
}

#[test]
fn take_keeps_leading_bytes() {
    assert_eq!(take("hello", 2), "he");
    assert_eq!(take("hello", 0), "");
    assert_eq!(take("hello", 5), "hello");
    assert_eq!(take("", 0), "");
}

#[test]
fn take_counts_bytes_not_characters() {
    assert_eq!(take("héllo", 3), "hé");
    assert_eq!(take("héllo", 1), "h");
    assert_eq!(take("日本", 3), "日");
}

fn line(method: Method, path: &str, handler: Handler, needs_user: bool) -> Route {
    Route { method, path: path.to_string(), handler, needs_user }
}

fn other_methods() -> Vec<Method> {
    vec![
        Method::Post,
        Method::Put,
        Method::Delete,
        Method::Connect,
        Method::Options,
        Method::Trace,
        Method::Patch,
        Method::Other,
    ]
}

#[test]
fn router_names_three_paths() {
    let router = pages_router();
    assert_eq!(
        router,
        PagesRouter {
            routes: vec![
                line(Method::Get, "/", Handler::Home, true),
                line(Method::Get, "/login", Handler::Login, false),
                line(Method::Get, "/proxy/google_image", Handler::ProxyGoogleImage, false),
            ],
            fallback: Handler::NotFound,
        }
    );
}

#[test]
fn router_dispatches_by_exact_path() {
    let router = pages_router();
    assert_eq!(router.handler_for(Method::Get, "/"), Target::Serve(Handler::Home));
    assert_eq!(router.handler_for(Method::Get, "/login"), Target::Serve(Handler::Login));
    assert_eq!(
        router.handler_for(Method::Get, "/proxy/google_image"),
        Target::Serve(Handler::ProxyGoogleImage)
    );
}

#[test]
fn router_answers_head_on_get_lines() {
    let router = pages_router();
    assert_eq!(router.handler_for(Method::Head, "/"), Target::Serve(Handler::Home));
    assert_eq!(router.handler_for(Method::Head, "/login"), Target::Serve(Handler::Login));
    assert_eq!(
        router.handler_for(Method::Head, "/proxy/google_image"),
        Target::Serve(Handler::ProxyGoogleImage)
    );
}

#[test]
fn router_refuses_other_methods_on_named_paths() {
    let router = pages_router();
    for method in other_methods() {
        assert_eq!(router.handler_for(method, "/"), Target::MethodNotAllowed);
        assert_eq!(router.handler_for(method, "/login"), Target::MethodNotAllowed);
        assert_eq!(router.handler_for(method, "/proxy/google_image"), Target::MethodNotAllowed);
    }
}

#[test]
fn post_to_proxy_does_not_reach_the_proxy() {
    let router = pages_router();
    assert_ne!(
        router.handler_for(Method::Post, "/proxy/google_image"),
        Target::Serve(Handler::ProxyGoogleImage)
    );
}

#[test]
fn router_falls_back_to_not_found() {
    let router = pages_router();
    for path in ["", "/nope", "/login/", "/LOGIN", "/proxy", "/proxy/google_image/x", "//"] {
        assert_eq!(router.handler_for(Method::Get, path), Target::Serve(Handler::NotFound));
        assert_eq!(router.handler_for(Method::Head, path), Target::Serve(Handler::NotFound));
        for method in other_methods() {
            assert_eq!(router.handler_for(method, path), Target::Serve(Handler::NotFound));
        }
    }
}

#[test]
fn router_takes_the_first_answering_line() {
    let router = PagesRouter {
        routes: vec![
            line(Method::Post, "/a", Handler::ProxyGoogleImage, false),
            line(Method::Get, "/a", Handler::Login, false),
            line(Method::Get, "/a", Handler::Home, true),
        ],
        fallback: Handler::NotFound,
    };
    assert_eq!(router.handler_for(Method::Get, "/a"), Target::Serve(Handler::Login));
    assert_eq!(router.handler_for(Method::Head, "/a"), Target::Serve(Handler::Login));
    assert_eq!(router.handler_for(Method::Post, "/a"), Target::Serve(Handler::ProxyGoogleImage));
    assert_eq!(router.handler_for(Method::Put, "/a"), Target::MethodNotAllowed);
    assert_eq!(router.handler_for(Method::Get, "/b"), Target::Serve(Handler::NotFound));
    let empty = PagesRouter { routes: vec![], fallback: Handler::Home };
    assert_eq!(empty.handler_for(Method::Get, "/a"), Target::Serve(Handler::Home));
    assert_eq!(empty.handler_for(Method::Post, "/a"), Target::Serve(Handler::Home));
}

#[test]
fn only_home_asks_for_a_user() {
    let router = pages_router();
    assert!(router.guards(Handler::Home));
    assert!(!router.guards(Handler::Login));
    assert!(!router.guards(Handler::ProxyGoogleImage));
    assert!(!router.guards(Handler::NotFound));
}

#[test]
fn guards_follow_the_lines() {
    let router = PagesRouter {
        routes: vec![
            line(Method::Get, "/a", Handler::Login, false),
            line(Method::Post, "/a", Handler::Login, true),
            line(Method::Get, "/b", Handler::Home, false),
        ],
        fallback: Handler::NotFound,
    };
    assert!(router.guards(Handler::Login));
    assert!(!router.guards(Handler::Home));
    assert!(!router.guards(Handler::NotFound));
}

#[test]
fn methods_answer_themselves_and_get_answers_head() {
    assert!(method_answers(Method::Get, Method::Get));
    assert!(method_answers(Method::Get, Method::Head));
    assert!(!method_answers(Method::Get, Method::Post));
    assert!(!method_answers(Method::Head, Method::Get));
    assert!(method_answers(Method::Post, Method::Post));
    assert!(!method_answers(Method::Post, Method::Head));
    assert!(method_answers(Method::Other, Method::Other));
}

#[test]
fn same_text_compares_characters() {
    assert!(same_text("/login", "/login"));
    assert!(same_text("", ""));
    assert!(!same_text("/login", "/login/"));
    assert!(!same_text("/login", "/logix"));
}
