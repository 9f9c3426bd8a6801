use crate::auth::User;
use crate::exchange::{bare, html_page, internal_error, Reply, ReplyView};
use crate::state::AppState;
use crate::templates::{render_outcome, render_template};
use vstd::prelude::*;
use vstd::string::*;

verus! {

/// A failure inside a handler. Its detail is for the server's log; the client
/// only ever sees a generic error reply.
pub struct AppError(pub minijinja::Error);

impl From<minijinja::Error> for AppError {
    fn from(err: minijinja::Error) -> (r: AppError)
        ensures
            r.0 == err,
    {
        AppError(err)
    }
}

impl vstd::std_specs::convert::FromSpecImpl<minijinja::Error> for AppError {
    open spec fn obeys_from_spec() -> bool {
        true
    }

    open spec fn from_spec(err: minijinja::Error) -> AppError {
        AppError(err)
    }
}

impl AppError {
    pub fn into_response(self) -> (r: Reply)
        ensures
            r@ == internal_error(),
    {
        Reply::internal_error()
    }
}

/// What the client sees of a handler's result: the reply, or for a failure the
/// generic error reply.
pub open spec fn shown(r: Result<Reply, AppError>) -> ReplyView {
    match r {
        Ok(reply) => reply@,
        Err(_) => internal_error(),
    }
}

/// Turns a handler's result into the reply that is sent.
pub fn respond(r: Result<Reply, AppError>) -> (reply: Reply)
    ensures
        reply@ == shown(r),
{
    match r {
        Ok(reply) => reply,
        Err(e) => e.into_response(),
    }
}

/// The reply to a rendering outcome: the page, or a failure.
pub open spec fn page_of(outcome: Option<Seq<char>>) -> ReplyView {
    match outcome {
        Some(body) => html_page(body),
        None => internal_error(),
    }
}

/// Wraps rendered text as a page; a rendering error becomes a handler failure.
pub fn page(rendered: Result<String, minijinja::Error>) -> (r: Result<Reply, AppError>)
    ensures
        rendered is Ok ==> r is Ok && r->Ok_0@ == html_page(rendered->Ok_0@),
        rendered is Err ==> r is Err,
{
    match rendered {
        Ok(body) => Ok(Reply::html(body)),
        Err(e) => Err(AppError::from(e)),
    }
}

/// The index page, rendered for the user `Bob`.
pub fn index(state: &AppState) -> (r: Result<Reply, AppError>)
    ensures
        shown(r) == page_of(render_outcome(state.templates(), "index.html"@, "Bob"@)),
        r is Ok <==> render_outcome(state.templates(), "index.html"@, "Bob"@) is Some,
        r is Ok ==> r->Ok_0@ == html_page(render_outcome(state.templates(), "index.html"@, "Bob"@)->Some_0),
{
    page(render_template(state.environment(), "index.html", "Bob"))
}

/// The thank-you text for a user who creates a group.
pub open spec fn thanks(name: Seq<char>) -> Seq<char> {
    "Thanks, "@ + name
}

pub fn groups_create(user: User) -> (r: Result<Reply, AppError>)
    ensures
        r is Ok,
        r->Ok_0@ == html_page(thanks(user.name@)),
{
    let message = String::from_str("Thanks, ").concat(user.name.as_str());
    Ok(Reply::html(message))
}

/// The groups page, rendered for the requesting user.
pub fn groups_list(user: User, state: &AppState) -> (r: Result<Reply, AppError>)
    ensures
        shown(r) == page_of(render_outcome(state.templates(), "groups.html"@, user.name@)),
        r is Ok <==> render_outcome(state.templates(), "groups.html"@, user.name@) is Some,
        r is Ok ==> r->Ok_0@ == html_page(render_outcome(state.templates(), "groups.html"@, user.name@)->Some_0),
{
    page(render_template(state.environment(), "groups.html", user.name.as_str()))
}

pub fn login() -> (r: Reply)
    ensures
        r@ == bare(200),
{
    Reply::bare(200)
}

pub fn logout() -> (r: Reply)
    ensures
        r@ == bare(200),
{
    Reply::bare(200)
}

} // verus!
