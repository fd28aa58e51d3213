//! What holds of the pages as a whole, proved from the contracts of the
//! parts.

use crate::handlers::{error_page, home_page, login_page, resolved_theme, Theme, User};
use crate::middleware::{auth_answer, error_message, intercepted, InterceptionView};
use crate::reply::{page_reply, ReplyView};
use crate::router::{
    dispatch, first_match, home_path, login_path, names, needs_user, pages_table,
    proxy_path, Handler, Method, Target,
};
use vstd::prelude::*;

verus! {

/// The three paths of the route table are distinct, so a GET or a HEAD for
/// each reaches the handler of its own line.
pub proof fn routes_are_distinct(method: Method)
    requires
        method == Method::Get || method == Method::Head,
    ensures
        home_path() != login_path(),
        home_path() != proxy_path(),
        login_path() != proxy_path(),
        dispatch(pages_table(), Handler::NotFound, method, home_path()) == Target::Serve(
            Handler::Home,
        ),
        dispatch(pages_table(), Handler::NotFound, method, login_path()) == Target::Serve(
            Handler::Login,
        ),
        dispatch(pages_table(), Handler::NotFound, method, proxy_path()) == Target::Serve(
            Handler::ProxyGoogleImage,
        ),
{
    reveal_strlit("/");
    reveal_strlit("/login");
    reveal_strlit("/proxy/google_image");
    assert(home_path().len() == 1);
    assert(login_path().len() == 6);
    assert(proxy_path().len() == 19);
    reveal_with_fuel(first_match, 4);
}

/// A request under any method but GET and HEAD reaches none of the three
/// handlers of the table: on their paths it is refused, on any other path it
/// goes to the not-found handler.
pub proof fn other_methods_reach_no_page(method: Method, path: Seq<char>)
    requires
        method != Method::Get,
        method != Method::Head,
    ensures
        path == home_path() || path == login_path() || path == proxy_path() ==> dispatch(
            pages_table(),
            Handler::NotFound,
            method,
            path,
        ) == Target::MethodNotAllowed,
        path != home_path() && path != login_path() && path != proxy_path() ==> dispatch(
            pages_table(),
            Handler::NotFound,
            method,
            path,
        ) == Target::Serve(Handler::NotFound),
{
    reveal_with_fuel(first_match, 4);
    reveal_with_fuel(names, 4);
}

/// Of the handlers, the home page alone asks for a resolved user.
pub proof fn only_home_needs_user(handler: Handler)
    ensures
        needs_user(pages_table(), handler) <==> handler == Handler::Home,
{
    assert(pages_table()[0].handler == Handler::Home && pages_table()[0].needs_user);
}

/// A request for the proxy without a resolved user passes the authentication
/// layer and reaches the proxy handler, which asks for no user.
pub proof fn anonymous_request_reaches_proxy()
    ensures
        auth_answer(false, proxy_path()) is None,
        dispatch(pages_table(), Handler::NotFound, Method::Get, proxy_path()) == Target::Serve(
            Handler::ProxyGoogleImage,
        ),
        !needs_user(pages_table(), Handler::ProxyGoogleImage),
{
    routes_are_distinct(Method::Get);
    only_home_needs_user(Handler::ProxyGoogleImage);
}

/// A request for the home page needs a resolved user; the 401 that a request
/// without one meets there leaves the error layer as a redirect to the login
/// path.
pub proof fn anonymous_home_redirects_to_login(theme: Option<Theme>, reason: Option<Seq<char>>)
    ensures
        needs_user(pages_table(), Handler::Home),
        intercepted(theme, home_path(), 401, reason) == InterceptionView::Respond(
            ReplyView::Redirect { location: login_path() },
        ),
{
    routes_are_distinct(Method::Get);
    only_home_needs_user(Handler::Home);
}

/// A signed-in request for the login path is answered with a redirect to the
/// home path, whatever else the request holds, and the error layer lets that
/// redirect through.
pub proof fn signed_in_login_redirects_home(theme: Option<Theme>, reason: Option<Seq<char>>)
    ensures
        auth_answer(true, login_path()) == Some(ReplyView::Redirect { location: home_path() }),
        intercepted(
            theme,
            login_path(),
            (ReplyView::Redirect { location: home_path() }).code(),
            reason,
        ) == InterceptionView::Forward,
{
}

/// The authentication layer answers nothing but a signed-in request for the
/// login path.
pub proof fn other_requests_pass_the_auth_layer(signed_in: bool, path: Seq<char>)
    requires
        !signed_in || path != login_path(),
    ensures
        auth_answer(signed_in, path) is None,
{
}

/// A GET for the login path without a resolved user passes the
/// authentication layer and reaches the login handler, which asks for no
/// user; its page is in the resolved theme and without a user and, once
/// rendered, goes out with a 200 and the rendered document as its body. A
/// 401 on that path is answered with the same page.
pub proof fn anonymous_login_shows_login_page(
    theme: Option<Theme>,
    reason: Option<Seq<char>>,
    html: Seq<char>,
)
    ensures
        auth_answer(false, login_path()) is None,
        dispatch(pages_table(), Handler::NotFound, Method::Get, login_path()) == Target::Serve(
            Handler::Login,
        ),
        !needs_user(pages_table(), Handler::Login),
        login_page(theme).theme == resolved_theme(theme),
        login_page(theme).user is None,
        page_reply(200, Ok(html)) == (ReplyView::Html { code: 200, body: html }),
        intercepted(theme, login_path(), 401, reason) == InterceptionView::RenderLogin(
            login_page(theme),
        ),
{
    routes_are_distinct(Method::Get);
    only_home_needs_user(Handler::Login);
}

/// A path that the route table does not name goes to the not-found handler
/// under every method. Its page, once rendered, goes out with a 404, and the
/// error layer answers that 404 with an error page that goes out with a 404
/// again.
pub proof fn unmatched_paths_are_not_found(
    method: Method,
    path: Seq<char>,
    theme: Option<Theme>,
    reason: Option<Seq<char>>,
    html: Seq<char>,
)
    requires
        path != home_path(),
        path != login_path(),
        path != proxy_path(),
    ensures
        dispatch(pages_table(), Handler::NotFound, method, path) == Target::Serve(
            Handler::NotFound,
        ),
        !needs_user(pages_table(), Handler::NotFound),
        page_reply(error_page(theme, 404, "Not Found"@).code, Ok(html)).code() == 404,
        intercepted(theme, path, 404, reason) == InterceptionView::RenderError(
            error_page(theme, 404, error_message(reason)),
        ),
        page_reply(error_page(theme, 404, error_message(reason)).code, Ok(html)).code() == 404,
{
    reveal_with_fuel(first_match, 4);
    reveal_with_fuel(names, 4);
    only_home_needs_user(Handler::NotFound);
}

/// A 401 never leaves the error layer as it came: on the login path the login
/// page takes its place, on any other path a redirect to the login path.
pub proof fn unauthorized_never_passes(
    theme: Option<Theme>,
    path: Seq<char>,
    reason: Option<Seq<char>>,
)
    ensures
        intercepted(theme, path, 401, reason) != InterceptionView::Forward,
        path == login_path() ==> intercepted(theme, path, 401, reason)
            == InterceptionView::RenderLogin(login_page(theme)),
        path != login_path() ==> intercepted(theme, path, 401, reason) == InterceptionView::Respond(
            ReplyView::Redirect { location: login_path() },
        ),
        (ReplyView::Redirect { location: login_path() }).code() != 401,
{
}

/// An error other than 401 leaves the error layer as the error page for its
/// status, and a status that is no error leaves it untouched.
pub proof fn errors_become_error_pages(
    theme: Option<Theme>,
    path: Seq<char>,
    code: u16,
    reason: Option<Seq<char>>,
)
    ensures
        400 <= code < 600 && code != 401 ==> intercepted(theme, path, code, reason)
            == InterceptionView::RenderError(error_page(theme, code, error_message(reason))),
        !(400 <= code < 600) ==> intercepted(theme, path, code, reason)
            == InterceptionView::Forward,
{
}

/// Two requests for the home page by the same user, with the same theme
/// preference, fill the page in alike; where the two renderings come out
/// alike, so do the replies, and a rendered page goes out with a 200.
pub proof fn repeated_home_requests_agree(
    first: (User, Option<Theme>),
    second: (User, Option<Theme>),
    first_rendering: Result<Seq<char>, Seq<char>>,
    second_rendering: Result<Seq<char>, Seq<char>>,
)
    requires
        first == second,
        first_rendering == second_rendering,
    ensures
        home_page(first.0, first.1) == home_page(second.0, second.1),
        page_reply(200, first_rendering) == page_reply(200, second_rendering),
        first_rendering is Ok ==> page_reply(200, first_rendering).code() == 200,
{
}

} // verus!
