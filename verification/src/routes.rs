//! The route table: which paths are served, with what response, and which
//! requests are logged.

use vstd::prelude::*;
use crate::text::str_eq;

verus! {

/// The body every served path answers with.
pub open spec fn greeting_text() -> Seq<char> {
    "Hello world!"@
}

/// The root path.
pub open spec fn root_path_text() -> Seq<char> {
    "/"@
}

/// The one other served path.
pub open spec fn index_html_path_text() -> Seq<char> {
    "/index.html"@
}

/// The paths the service answers; every other path is not handled.
pub open spec fn served_path(p: Seq<char>) -> bool {
    p == root_path_text() || p == index_html_path_text()
}

/// The paths whose requests are logged: only the root path.
pub open spec fn logged_path(p: Seq<char>) -> bool {
    p == root_path_text()
}

/// The line logged for each request to a logged path.
pub open spec fn request_log_text() -> Seq<char> {
    "Inside Hello World"@
}

/// What handling one request amounts to: the response status and body, and
/// the log line to emit, if any.
pub struct Handled {
    /// The HTTP status code of the response.
    pub status: u16,
    /// The response body.
    pub body: &'static str,
    /// The log line this request asks for, if it is a logged path.
    pub log_line: Option<&'static str>,
}

/// Handle one GET request by path.
///
/// Returns `Some` exactly for the served paths, always with status 200 and
/// the greeting as body, and with a log line exactly for the logged paths.
/// Returns `None` for every other path; the caller answers those however the
/// transport demands (the web framework replies 404 on its own).
pub fn handle_get(path: &str) -> (r: Option<Handled>)
    ensures
        r is Some <==> served_path(path@),
        r is Some ==> r->Some_0.status == 200,
        r is Some ==> r->Some_0.body@ == greeting_text(),
        (r is Some && r->Some_0.log_line is Some) <==> logged_path(path@),
        r is Some ==> (r->Some_0.log_line matches Some(line) ==> line@ == request_log_text()),
{
    if str_eq(path, "/") {
        Some(Handled { status: 200, body: "Hello world!", log_line: Some("Inside Hello World") })
    } else if str_eq(path, "/index.html") {
        proof {
            // the two served paths differ, so this one is not the logged one
            reveal_strlit("/");
            reveal_strlit("/index.html");
        }
        Some(Handled { status: 200, body: "Hello world!", log_line: None })
    } else {
        None
    }
}

/// The served paths, in the order the server registers them.
///
/// The list is sound and complete for `served_path`: it holds exactly the
/// paths the service answers.
pub fn served_paths() -> (r: Vec<&'static str>)
    ensures
        r@.len() == 2,
        r@[0]@ == index_html_path_text(),
        r@[1]@ == root_path_text(),
        forall|p: Seq<char>| #[trigger] served_path(p) <==> (p == r@[0]@ || p == r@[1]@),
{
    let mut v: Vec<&'static str> = Vec::new();
    v.push("/index.html");
    v.push("/");
    v
}

} // verus!
