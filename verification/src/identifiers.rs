//! Which server a user belongs to.

use vstd::prelude::*;

verus! {

/// The server name inside a user identifier, or `None` where the text is
/// not a valid user identifier.
pub uninterp spec fn server_name_of(user_id: Seq<char>) -> Option<Seq<char>>;

/// Parses the text as a `ruma::UserId` and calls `UserId::server_name` on
/// it. The contract only names the outcome: the same text always yields the
/// same server name, or is always refused.
#[verifier::external_body]
fn user_server_name(user_id: &str) -> (server: Option<String>)
    ensures
        match server {
            Some(name) => server_name_of(user_id@) == Some(name@),
            None => server_name_of(user_id@) is None,
        },
{
    match <&ruma::UserId>::try_from(user_id) {
        Ok(user) => Some(user.server_name().as_str().to_owned()),
        Err(_) => None,
    }
}

/// The user identifier is valid and names this server.
pub open spec fn belongs_to(user_id: Seq<char>, server: Seq<char>) -> bool {
    server_name_of(user_id) == Some(server)
}

/// Whether a user belongs to the given server. Text that is no user
/// identifier belongs to none.
pub fn user_is_on_server(user_id: &str, server: &String) -> (r: bool)
    ensures
        r == belongs_to(user_id@, server@),
{
    match user_server_name(user_id) {
        Some(name) => name == *server,
        None => false,
    }
}

} // verus!
