//! The route table of the pages, and the paths it names.

use vstd::prelude::*;
use vstd::string::StringExecFns;

verus! {

/// The path of the home page.
pub open spec fn home_path() -> Seq<char> {
    "/"@
}

/// The path of the login page.
pub open spec fn login_path() -> Seq<char> {
    "/login"@
}

/// The path of the image proxy.
pub open spec fn proxy_path() -> Seq<char> {
    "/proxy/google_image"@
}

/// Whether two texts hold the same characters.
pub fn same_text(a: &str, b: &str) -> (r: bool)
    ensures
        r == (a@ == b@),
{
    let left = String::from_str(a);
    let right = String::from_str(b);
    left == right
}

/// The method of a request, or the one that a line of the table answers.
#[derive(Clone, Copy, Debug, PartialEq, Eq, Structural)]
pub enum Method {
    Get,
    Head,
    Post,
    Put,
    Delete,
    Connect,
    Options,
    Trace,
    Patch,
    /// Any method without a name of its own here.
    Other,
}

/// Whether a line for method `line` answers a request with method `request`:
/// it answers its own method, and a line for GET answers HEAD as well.
pub open spec fn answers(line: Method, request: Method) -> bool {
    request == line || (line == Method::Get && request == Method::Head)
}

/// Whether a line for method `line` answers a request with method `request`.
pub fn method_answers(line: Method, request: Method) -> (r: bool)
    ensures
        r == answers(line, request),
{
    request == line || (line == Method::Get && request == Method::Head)
}

/// What serves a request.
#[derive(Clone, Copy, Debug, PartialEq, Eq, Structural)]
pub enum Handler {
    Home,
    Login,
    ProxyGoogleImage,
    NotFound,
}

/// Where a request goes.
#[derive(Clone, Copy, Debug, PartialEq, Eq, Structural)]
pub enum Target {
    /// To this handler.
    Serve(Handler),
    /// Nowhere: the table names the path, but not under the request's
    /// method. The answer is a 405.
    MethodNotAllowed,
}

/// One line of the route table: requests for `path` under `method` go to
/// `handler`, and only with a resolved user where `needs_user` is set.
#[derive(Clone, Debug, PartialEq, Eq)]
pub struct Route {
    pub method: Method,
    pub path: String,
    pub handler: Handler,
    pub needs_user: bool,
}

/// The mathematical content of a [`Route`].
pub struct RouteView {
    pub method: Method,
    pub path: Seq<char>,
    pub handler: Handler,
    pub needs_user: bool,
}

impl View for Route {
    type V = RouteView;

    open spec fn view(&self) -> RouteView {
        RouteView {
            method: self.method,
            path: self.path@,
            handler: self.handler,
            needs_user: self.needs_user,
        }
    }
}

/// The route table: its lines, and the handler of every path that no line
/// names, which asks for no user.
#[derive(Clone, Debug, PartialEq, Eq)]
pub struct PagesRouter {
    pub routes: Vec<Route>,
    pub fallback: Handler,
}

/// The handler of the first line from `from` on that names `path` and
/// answers `method`.
pub open spec fn first_match(table: Seq<RouteView>, method: Method, path: Seq<char>, from: int)
    -> Option<Handler>
    decreases table.len() - from,
{
    if from < 0 || from >= table.len() {
        None
    } else if table[from].path == path && answers(table[from].method, method) {
        Some(table[from].handler)
    } else {
        first_match(table, method, path, from + 1)
    }
}

/// Whether a line from `from` on names `path`, under whatever method.
pub open spec fn names(table: Seq<RouteView>, path: Seq<char>, from: int) -> bool
    decreases table.len() - from,
{
    if from < 0 || from >= table.len() {
        false
    } else {
        table[from].path == path || names(table, path, from + 1)
    }
}

/// Where a table with the given fallback sends a request: to the handler of
/// the first line that names the path and answers the method; nowhere, if
/// lines name the path but none answers the method; else to the fallback.
pub open spec fn dispatch(
    table: Seq<RouteView>,
    fallback: Handler,
    method: Method,
    path: Seq<char>,
) -> Target {
    match first_match(table, method, path, 0) {
        Some(handler) => Target::Serve(handler),
        None => if names(table, path, 0) {
            Target::MethodNotAllowed
        } else {
            Target::Serve(fallback)
        },
    }
}

/// Whether a table lets requests reach `handler` only with a resolved user:
/// some line for that handler says so.
pub open spec fn needs_user(table: Seq<RouteView>, handler: Handler) -> bool {
    exists|i: int|
        0 <= i < table.len() && (#[trigger] table[i]).handler == handler && table[i].needs_user
}

/// The lines of the pages' route table: all three answer GET, and only the
/// home page asks for a resolved user.
pub open spec fn pages_table() -> Seq<RouteView> {
    seq![
        RouteView {
            method: Method::Get,
            path: home_path(),
            handler: Handler::Home,
            needs_user: true,
        },
        RouteView {
            method: Method::Get,
            path: login_path(),
            handler: Handler::Login,
            needs_user: false,
        },
        RouteView {
            method: Method::Get,
            path: proxy_path(),
            handler: Handler::ProxyGoogleImage,
            needs_user: false,
        },
    ]
}

impl PagesRouter {
    /// The lines of the table.
    pub open spec fn table(&self) -> Seq<RouteView> {
        Seq::new(self.routes@.len(), |i: int| self.routes@[i]@)
    }

    /// Where a request with this method and path goes.
    pub fn handler_for(&self, method: Method, path: &str) -> (r: Target)
        ensures
            r == dispatch(self.table(), self.fallback, method, path@),
    {
        let mut named = false;
        let mut i: usize = 0;
        while i < self.routes.len()
            invariant
                i <= self.routes@.len(),
                first_match(self.table(), method, path@, 0) == first_match(
                    self.table(),
                    method,
                    path@,
                    i as int,
                ),
                names(self.table(), path@, 0) == (named || names(self.table(), path@, i as int)),
            decreases self.routes@.len() - i,
        {
            if same_text(self.routes[i].path.as_str(), path) {
                if method_answers(self.routes[i].method, method) {
                    return Target::Serve(self.routes[i].handler);
                }
                named = true;
            }
            i += 1;
        }
        if named {
            Target::MethodNotAllowed
        } else {
            Target::Serve(self.fallback)
        }
    }

    /// Whether requests reach `handler` only with a resolved user.
    pub fn guards(&self, handler: Handler) -> (r: bool)
        ensures
            r == needs_user(self.table(), handler),
    {
        let mut i: usize = 0;
        while i < self.routes.len()
            invariant
                i <= self.routes@.len(),
                forall|j: int|
                    0 <= j < i ==> !((#[trigger] self.table()[j]).handler == handler
                        && self.table()[j].needs_user),
            decreases self.routes@.len() - i,
        {
            if self.routes[i].handler == handler && self.routes[i].needs_user {
                assert(self.table()[i as int].handler == handler && self.table()[i as int].needs_user);
                return true;
            }
            i += 1;
        }
        false
    }
}

/// The route table of the pages: `/`, `/login` and `/proxy/google_image`,
/// each under GET, the first for resolved users only, and the not-found page
/// for every other path.
pub fn pages_router() -> (r: PagesRouter)
    ensures
        r.table() == pages_table(),
        r.fallback == Handler::NotFound,
{
    let mut routes: Vec<Route> = Vec::new();
    routes.push(
        Route {
            method: Method::Get,
            path: String::from_str("/"),
            handler: Handler::Home,
            needs_user: true,
        },
    );
    routes.push(
        Route {
            method: Method::Get,
            path: String::from_str("/login"),
            handler: Handler::Login,
            needs_user: false,
        },
    );
    routes.push(
        Route {
            method: Method::Get,
            path: String::from_str("/proxy/google_image"),
            handler: Handler::ProxyGoogleImage,
            needs_user: false,
        },
    );
    let r = PagesRouter { routes, fallback: Handler::NotFound };
    assert(r.table() =~= pages_table());
    r
}

} // verus!
