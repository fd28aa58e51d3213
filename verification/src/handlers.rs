//! The pages of the site as plain records, one per template, and the handlers
//! that fill them in.

use crate::reply::{page_reply, rendered_text, Reply};
use crate::status::Status;
use vstd::prelude::*;
use vstd::string::StringExecFns;

verus! {

/// The display preference attached to every rendered page.
#[derive(Clone, Copy, Debug, PartialEq, Eq, Structural)]
pub enum Theme {
    Light,
    Dark,
}

/// The theme of a request that states no preference.
pub open spec fn default_theme() -> Theme {
    Theme::Light
}

impl Default for Theme {
    fn default() -> (r: Theme)
        ensures
            r == default_theme(),
    {
        Theme::Light
    }
}

/// The theme a page is rendered with: the stated preference, else the default.
pub open spec fn resolved_theme(theme: Option<Theme>) -> Theme {
    match theme {
        Some(t) => t,
        None => default_theme(),
    }
}

/// Resolves an optional preference to a theme.
pub fn resolve_theme(theme: Option<Theme>) -> (r: Theme)
    ensures
        r == resolved_theme(theme),
{
    match theme {
        Some(t) => t,
        None => Theme::default(),
    }
}

/// The identity that a request was authenticated as.
#[derive(Clone, Copy, Debug, PartialEq, Eq, Structural)]
pub struct User {
    pub id: u64,
}

/// A failed response as shown to the reader: its status and a message.
#[derive(Clone, Debug, PartialEq, Eq)]
pub struct PageError {
    pub status: Status,
    pub message: String,
}

/// The home page.
#[derive(Clone, Copy, Debug, PartialEq, Eq, Structural)]
pub struct HomeTemplate {
    pub theme: Theme,
    pub user: Option<User>,
}

/// The login page.
#[derive(Clone, Copy, Debug, PartialEq, Eq, Structural)]
pub struct LoginTemplate {
    pub theme: Theme,
    pub user: Option<User>,
}

/// The error page.
#[derive(Clone, Debug, PartialEq, Eq)]
pub struct ErrorTemplate {
    pub theme: Theme,
    pub user: Option<User>,
    pub error: PageError,
}

/// The mathematical content of an [`ErrorTemplate`].
pub struct ErrorTemplateView {
    pub theme: Theme,
    pub user: Option<User>,
    pub code: u16,
    pub message: Seq<char>,
}

impl View for ErrorTemplate {
    type V = ErrorTemplateView;

    open spec fn view(&self) -> ErrorTemplateView {
        ErrorTemplateView {
            theme: self.theme,
            user: self.user,
            code: self.error.status.code(),
            message: self.error.message@,
        }
    }
}

/// The home page of a signed-in user.
pub open spec fn home_page(user: User, theme: Option<Theme>) -> HomeTemplate {
    HomeTemplate { theme: resolved_theme(theme), user: Some(user) }
}

/// The login page, which never shows a user.
pub open spec fn login_page(theme: Option<Theme>) -> LoginTemplate {
    LoginTemplate { theme: resolved_theme(theme), user: None }
}

/// The error page for a status and a message, which never shows a user.
pub open spec fn error_page(theme: Option<Theme>, code: u16, message: Seq<char>)
    -> ErrorTemplateView {
    ErrorTemplateView { theme: resolved_theme(theme), user: None, code, message }
}

/// Handler of `/`: the home page for the current user.
pub fn home(user: User, theme: Option<Theme>) -> (r: HomeTemplate)
    ensures
        r == home_page(user, theme),
{
    let theme = resolve_theme(theme);
    HomeTemplate { theme, user: Some(user) }
}

/// Handler of `/login`: the login page.
pub fn login(theme: Option<Theme>) -> (r: LoginTemplate)
    ensures
        r == login_page(theme),
{
    let theme = resolve_theme(theme);
    LoginTemplate { theme, user: None }
}

/// Handler of every path without a route: the error page for 404.
pub fn not_found(theme: Option<Theme>) -> (r: ErrorTemplate)
    ensures
        r@ == error_page(theme, 404, "Not Found"@),
{
    let theme = resolve_theme(theme);
    ErrorTemplate {
        theme,
        user: None,
        error: PageError { message: String::from_str("Not Found"), status: Status::not_found() },
    }
}

impl HomeTemplate {
    /// The reply for this page once rendered: the document with 200, or a 500
    /// that quotes the rendering error.
    pub fn into_response(self, rendered: Result<String, String>) -> (r: Reply)
        ensures
            r@ == page_reply(200, rendered_text(rendered)),
    {
        Reply::page(Status::ok(), rendered)
    }
}

impl LoginTemplate {
    /// The reply for this page once rendered: the document with 200, or a 500
    /// that quotes the rendering error.
    pub fn into_response(self, rendered: Result<String, String>) -> (r: Reply)
        ensures
            r@ == page_reply(200, rendered_text(rendered)),
    {
        Reply::page(Status::ok(), rendered)
    }
}

impl ErrorTemplate {
    /// The reply for this page once rendered: the document under the status
    /// that the page reports, or a 500 that quotes the rendering error.
    pub fn into_response(self, rendered: Result<String, String>) -> (r: Reply)
        ensures
            r@ == page_reply(self@.code, rendered_text(rendered)),
    {
        Reply::page(self.error.status, rendered)
    }
}

} // verus!
