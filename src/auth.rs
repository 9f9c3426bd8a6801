use crate::exchange::{temporary_redirect, Reply, Request};
use vstd::prelude::*;
use vstd::string::*;

verus! {

/// The identity a request claims: the raw `Authorization` header value, taken
/// as it stands. Nothing checks it; it is a stand-in for real credentials.
#[derive(Clone, Debug)]
pub struct User {
    pub name: String,
}

/// Why a request could not be tied to a user: it had no `Authorization`
/// header. Its reply sends the client back to the index page.
#[derive(Clone, Copy, Debug, PartialEq, Eq, Structural)]
pub struct LoggedOutRedirect;

impl LoggedOutRedirect {
    pub fn into_response(self) -> (r: Reply)
        ensures
            r@ == temporary_redirect("/"@),
    {
        Reply::temporary_redirect(String::from_str("/"))
    }
}

impl User {
    /// Takes the user from the request's `Authorization` header, verbatim; a
    /// request without one is logged out.
    pub fn from_request_parts(req: &Request) -> (r: Result<User, LoggedOutRedirect>)
        ensures
            req.authorization is None ==> r is Err,
            req.authorization is Some ==> r is Ok && r->Ok_0.name@ == req.authorization->Some_0@,
    {
        match &req.authorization {
            Some(value) => Ok(User { name: value.clone() }),
            None => Err(LoggedOutRedirect),
        }
    }
}

} // verus!
