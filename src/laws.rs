use crate::exchange::{bare, failure_text, html_page, internal_error, temporary_redirect, Method, RequestView};
use crate::handlers::{page_of, thanks};
use crate::router::response_for;
use crate::templates::render_outcome;
use vstd::prelude::*;

verus! {

/// A request to `/groups`, by `GET` or `POST`, that carries no `Authorization`
/// header is sent to `/` with a temporary redirect (307).
pub proof fn groups_without_user_redirect(templates: Map<Seq<char>, Seq<char>>, req: RequestView)
    requires
        req.path == "/groups"@,
        req.method == Method::Get || req.method == Method::Post,
        req.authorization is None,
    ensures
        response_for(templates, req) == temporary_redirect("/"@),
        response_for(templates, req).status == 307,
{
    reveal_strlit("/");
    reveal_strlit("/groups");
    assert("/groups"@.len() != "/"@.len());
}

/// With an `Authorization` header, a request to `/groups` hands the header value
/// on verbatim: `POST` answers a page whose body holds it, `GET` renders the
/// groups page with it as the user name.
pub proof fn groups_use_header_verbatim(
    templates: Map<Seq<char>, Seq<char>>,
    req: RequestView,
    name: Seq<char>,
)
    requires
        req.path == "/groups"@,
        req.authorization == Some(name),
    ensures
        req.method == Method::Post ==> response_for(templates, req) == html_page(thanks(name)),
        req.method == Method::Post ==> response_for(templates, req).body.subrange(
            8,
            8 + name.len() as int,
        ) == name,
        req.method == Method::Get ==> response_for(templates, req) == page_of(
            render_outcome(templates, "groups.html"@, name),
        ),
{
    reveal_strlit("/");
    reveal_strlit("/groups");
    reveal_strlit("Thanks, ");
    assert("/groups"@.len() != "/"@.len());
    assert(thanks(name).subrange(8, 8 + name.len() as int) =~= name);
}

/// `GET /` replies with the index page rendered for `Bob`, whatever headers
/// the request carries.
pub proof fn index_ignores_headers(
    templates: Map<Seq<char>, Seq<char>>,
    req1: RequestView,
    req2: RequestView,
)
    requires
        req1.path == "/"@,
        req1.method == Method::Get,
        req2.path == "/"@,
        req2.method == Method::Get,
    ensures
        response_for(templates, req1) == response_for(templates, req2),
        response_for(templates, req1) == page_of(render_outcome(templates, "index.html"@, "Bob"@)),
{
}

/// Rendering a template that is not loaded gives the generic error reply
/// (500), whose body is fixed text and holds nothing of any template.
pub proof fn missing_template_fails(
    templates: Map<Seq<char>, Seq<char>>,
    name: Seq<char>,
    username: Seq<char>,
)
    requires
        !templates.contains_key(name),
    ensures
        page_of(render_outcome(templates, name, username)) == internal_error(),
        internal_error().status == 500,
        internal_error().body == failure_text(),
{
}

/// Without an `index.html`, `GET /` gets the generic error reply.
pub proof fn index_without_template_fails(templates: Map<Seq<char>, Seq<char>>, req: RequestView)
    requires
        !templates.contains_key("index.html"@),
        req.path == "/"@,
        req.method == Method::Get,
    ensures
        response_for(templates, req) == internal_error(),
{
}

/// `POST /login` and `POST /logout` reply 200 with an empty body, whatever
/// the request carries.
pub proof fn login_logout_reply_empty(templates: Map<Seq<char>, Seq<char>>, req: RequestView)
    requires
        req.path == "/login"@ || req.path == "/logout"@,
        req.method == Method::Post,
    ensures
        response_for(templates, req) == bare(200),
        response_for(templates, req).status == 200,
        response_for(templates, req).body.len() == 0,
{
    reveal_strlit("/");
    reveal_strlit("/groups");
    reveal_strlit("/login");
    reveal_strlit("/logout");
    assert("/login"@.len() != "/"@.len());
    assert("/logout"@.len() != "/"@.len());
    assert("/login"@.len() != "/groups"@.len());
    assert("/logout"@[2] != "/groups"@[2]);
}

} // verus!
