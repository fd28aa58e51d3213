//! The two layers that every request passes: the one that keeps signed-in
//! users off the login page, and the one that turns failed responses into
//! pages.

use crate::handlers::{
    error_page, login_page, resolve_theme, ErrorTemplate, ErrorTemplateView, LoginTemplate,
    PageError, Theme, User,
};
use crate::reply::{Reply, ReplyView};
use crate::router::{home_path, login_path, same_text};
use crate::status::{reason_phrase, text_of, Status};
use vstd::prelude::*;
use vstd::string::StringExecFns;

verus! {

/// What the authentication layer answers: a redirect home for a signed-in
/// request to the login path, nothing for any other request.
pub open spec fn auth_answer(signed_in: bool, path: Seq<char>) -> Option<ReplyView> {
    if signed_in && path == login_path() {
        Some(ReplyView::Redirect { location: home_path() })
    } else {
        None
    }
}

/// The content of an optional reply.
pub open spec fn answer_of(reply: Option<Reply>) -> Option<ReplyView> {
    match reply {
        Some(r) => Some(r@),
        None => None,
    }
}

/// The layer before the handlers. A signed-in user who asks for the login
/// page is sent home; any other request, signed in or not, goes on to its
/// handler, which `None` stands for.
pub fn auth_middleware(user: Option<&User>, path: &str) -> (r: Option<Reply>)
    ensures
        answer_of(r) == auth_answer(user is Some, path@),
{
    if user.is_some() && same_text(path, "/login") {
        Some(Reply::redirect("/"))
    } else {
        None
    }
}

/// What becomes of a response once its status is known.
#[derive(Clone, Debug, PartialEq, Eq)]
pub enum Interception {
    /// The response goes out as it is.
    Forward,
    /// This reply goes out in its place.
    Respond(Reply),
    /// The login page goes out in its place.
    RenderLogin(LoginTemplate),
    /// The error page goes out in its place.
    RenderError(ErrorTemplate),
}

/// The mathematical content of an [`Interception`].
pub enum InterceptionView {
    Forward,
    Respond(ReplyView),
    RenderLogin(LoginTemplate),
    RenderError(ErrorTemplateView),
}

impl View for Interception {
    type V = InterceptionView;

    open spec fn view(&self) -> InterceptionView {
        match *self {
            Interception::Forward => InterceptionView::Forward,
            Interception::Respond(reply) => InterceptionView::Respond(reply@),
            Interception::RenderLogin(page) => InterceptionView::RenderLogin(page),
            Interception::RenderError(page) => InterceptionView::RenderError(page@),
        }
    }
}

/// The message of an error page: the reason phrase, or a fixed text where
/// the status has none.
pub open spec fn error_message(reason: Option<Seq<char>>) -> Seq<char> {
    match reason {
        Some(phrase) => phrase,
        None => "Something went wrong"@,
    }
}

/// The decision table of the error layer, first match first:
/// a status outside 400 to 599 passes; a 401 on the login path shows the
/// login page, elsewhere redirects to it; any other error shows the error
/// page with the status and its message.
pub open spec fn intercepted(
    theme: Option<Theme>,
    path: Seq<char>,
    code: u16,
    reason: Option<Seq<char>>,
) -> InterceptionView {
    if !(400 <= code < 600) {
        InterceptionView::Forward
    } else if code == 401 {
        if path == login_path() {
            InterceptionView::RenderLogin(login_page(theme))
        } else {
            InterceptionView::Respond(ReplyView::Redirect { location: login_path() })
        }
    } else {
        InterceptionView::RenderError(error_page(theme, code, error_message(reason)))
    }
}

/// Decides what becomes of a response with the given status, for a request
/// to `path`, where `reason` is the status's reason phrase if it has one.
pub fn intercept(theme: Option<Theme>, path: &str, status: Status, reason: Option<String>) -> (r:
    Interception)
    ensures
        r@ == intercepted(theme, path@, status.code(), text_of(reason)),
{
    if status.is_client_error() || status.is_server_error() {
        let theme = resolve_theme(theme);
        let message = match reason {
            Some(phrase) => phrase,
            None => String::from_str("Something went wrong"),
        };
        if status.as_u16() == 401 {
            if same_text(path, "/login") {
                Interception::RenderLogin(LoginTemplate { theme, user: None })
            } else {
                Interception::Respond(Reply::redirect("/login"))
            }
        } else {
            Interception::RenderError(
                ErrorTemplate { theme, user: None, error: PageError { status, message } },
            )
        }
    } else {
        Interception::Forward
    }
}

/// The layer around the whole route tree. Given the status of the response
/// that the handlers produced, it lets a success through, answers a 401 with
/// the login page or a redirect to it, and any other error with the error
/// page that carries the status and its standard reason phrase.
pub fn error_handler_middleware(theme: Option<Theme>, path: &str, status: Status) -> (r:
    Interception)
    ensures
        r@ == intercepted(theme, path@, status.code(), reason_phrase(status.code())),
{
    let reason = status.canonical_reason();
    intercept(theme, path, status, reason)
}

} // verus!
