//! Who may change what the service holds.

use vstd::prelude::*;

use crate::text::same_text;

verus! {

/// The path that anyone may post a search to.
pub const SEARCH_PATH: &'static str = "/search";

/// The method by which a resource is read.
pub const GET: &'static str = "GET";

/// The method by which the headers of a resource are read.
pub const HEAD: &'static str = "HEAD";

/// What is answered to a request.
#[derive(Clone, Copy, Debug, PartialEq, Eq, Structural)]
pub enum Access {
    /// The request goes on.
    Granted,
    /// The request carries no credentials.
    CredentialsRequired,
    /// The request carries credentials that are not the configured ones.
    CredentialsInvalid,
    /// No credentials are configured, so none can be accepted.
    CredentialsUnset,
}

/// A request only reads, or is a search.
pub open spec fn open_to_all(method: Seq<char>, path: Seq<char>) -> bool {
    method == GET@ || method == HEAD@ || path == SEARCH_PATH@
}

/// What is answered to a request with this method and path, which presents
/// the credentials `presented`, where `expected` are the configured ones.
pub open spec fn access_for(
    method: Seq<char>,
    path: Seq<char>,
    presented: Option<(Seq<char>, Seq<char>)>,
    expected: Option<(Seq<char>, Seq<char>)>,
) -> Access {
    if open_to_all(method, path) {
        Access::Granted
    } else {
        match (presented, expected) {
            (None, _) => Access::CredentialsRequired,
            (Some(_), None) => Access::CredentialsUnset,
            (Some(given), Some(wanted)) => if given == wanted {
                Access::Granted
            } else {
                Access::CredentialsInvalid
            },
        }
    }
}

/// The names and passwords of a pair of credentials, as sequences of
/// characters.
pub open spec fn pair_view(pair: Option<(&str, &str)>) -> Option<(Seq<char>, Seq<char>)> {
    match pair {
        Some((name, password)) => Some((name@, password@)),
        None => None,
    }
}

/// Decides what is answered to a request. Reading needs no credentials, nor
/// does a search; everything else needs the configured name and password.
pub fn authorize(
    method: &str,
    path: &str,
    presented: Option<(&str, &str)>,
    expected: Option<(&str, &str)>,
) -> (access: Access)
    ensures
        access == access_for(method@, path@, pair_view(presented), pair_view(expected)),
{
    if same_text(method, GET) || same_text(method, HEAD) || same_text(path, SEARCH_PATH) {
        return Access::Granted;
    }
    match (presented, expected) {
        (None, _) => Access::CredentialsRequired,
        (Some(_), None) => Access::CredentialsUnset,
        (Some((name, password)), Some((wanted_name, wanted_password))) => {
            if same_text(name, wanted_name) && same_text(password, wanted_password) {
                Access::Granted
            } else {
                Access::CredentialsInvalid
            }
        },
    }
}

} // verus!
