use crate::auth::User;
use crate::exchange::{bare, html_page, temporary_redirect, Method, Reply, Request, RequestView, ReplyView};
use crate::handlers::{
    groups_create, groups_list, index, login, logout, page_of, respond, shown, thanks, AppError,
};
use crate::state::AppState;
use crate::templates::render_outcome;
use vstd::prelude::*;
use vstd::string::*;

verus! {

/// The reply to a request to `/groups` that passed the method check.
pub open spec fn groups_reply(
    templates: Map<Seq<char>, Seq<char>>,
    method: Method,
    authorization: Option<Seq<char>>,
) -> ReplyView {
    match authorization {
        None => temporary_redirect("/"@),
        Some(name) => if method == Method::Post {
            html_page(thanks(name))
        } else {
            page_of(render_outcome(templates, "groups.html"@, name))
        },
    }
}

/// Whether the handler that `req` reaches fails: only a page that does not
/// render does.
pub open spec fn fails_for(templates: Map<Seq<char>, Seq<char>>, req: RequestView) -> bool {
    if req.path == "/"@ {
        req.method == Method::Get && render_outcome(templates, "index.html"@, "Bob"@) is None
    } else if req.path == "/groups"@ {
        req.method == Method::Get && req.authorization is Some && render_outcome(
            templates,
            "groups.html"@,
            req.authorization->Some_0,
        ) is None
    } else {
        false
    }
}

/// The route table: what the server replies to `req` with the given templates.
///
/// `GET /` is the index page; `GET /groups` and `POST /groups` need a user;
/// `POST /login` and `POST /logout` reply with an empty page. Any other method
/// on those paths gets 405, any other path 404.
pub open spec fn response_for(templates: Map<Seq<char>, Seq<char>>, req: RequestView) -> ReplyView {
    if req.path == "/"@ {
        if req.method == Method::Get {
            page_of(render_outcome(templates, "index.html"@, "Bob"@))
        } else {
            bare(405)
        }
    } else if req.path == "/groups"@ {
        if req.method == Method::Other {
            bare(405)
        } else {
            groups_reply(templates, req.method, req.authorization)
        }
    } else if req.path == "/login"@ || req.path == "/logout"@ {
        if req.method == Method::Post {
            bare(200)
        } else {
            bare(405)
        }
    } else {
        bare(404)
    }
}

fn with_user(state: &AppState, req: &Request) -> (r: Result<Reply, AppError>)
    requires
        req.method != Method::Other,
    ensures
        shown(r) == groups_reply(state.templates(), req.method, req@.authorization),
        r is Err <==> (req.method == Method::Get && req.authorization is Some && render_outcome(
            state.templates(),
            "groups.html"@,
            req@.authorization->Some_0,
        ) is None),
{
    match User::from_request_parts(req) {
        Ok(user) => if req.method == Method::Post {
            groups_create(user)
        } else {
            groups_list(user, state)
        },
        Err(redirect) => Ok(redirect.into_response()),
    }
}

/// Routes a request to its handler and returns the handler's result; a
/// failure is kept for the server's log, and `respond` turns it into the
/// reply.
pub fn dispatch(state: &AppState, req: &Request) -> (r: Result<Reply, AppError>)
    ensures
        shown(r) == response_for(state.templates(), req@),
        r is Err <==> fails_for(state.templates(), req@),
{
    if req.path == String::from_str("/") {
        if req.method == Method::Get {
            index(state)
        } else {
            Ok(Reply::bare(405))
        }
    } else if req.path == String::from_str("/groups") {
        if req.method == Method::Other {
            Ok(Reply::bare(405))
        } else {
            with_user(state, req)
        }
    } else if req.path == String::from_str("/login") {
        if req.method == Method::Post {
            Ok(login())
        } else {
            Ok(Reply::bare(405))
        }
    } else if req.path == String::from_str("/logout") {
        if req.method == Method::Post {
            Ok(logout())
        } else {
            Ok(Reply::bare(405))
        }
    } else {
        Ok(Reply::bare(404))
    }
}

/// The reply that is sent for `req`.
pub fn handle(state: &AppState, req: &Request) -> (r: Reply)
    ensures
        r@ == response_for(state.templates(), req@),
{
    respond(dispatch(state, req))
}

} // verus!
