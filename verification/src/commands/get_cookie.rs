//! The get-cookie command: reads the current session cookie out of the
//! shared state, or points the invoker at the set-cookie command while the
//! cookie is still empty.

use vstd::prelude::*;

use crate::commands::CommandSpec;
use crate::state::SharedState;
use vstd::string::StringExecFns;

verus! {

/// The reply once a cookie is set: the cookie behind a fixed prefix.
pub open spec fn cookie_reply(cookie: Seq<char>) -> Seq<char> {
    "COOKIE: "@ + cookie
}

/// The reply while the cookie is still empty.
pub open spec fn no_cookie_reply() -> Seq<char> {
    "Please set a cookie first using the `/set_cookie` command"@
}

/// Handles the get-cookie command: echoes the current session cookie, or
/// the distinguished "not set" text while it is empty. The state is only
/// read.
pub fn run(state: &SharedState) -> (reply: String)
    ensures
        state.cookie@.len() == 0 ==> reply@ == no_cookie_reply(),
        state.cookie@.len() > 0 ==> reply@ == cookie_reply(state.cookie@),
{
    if state.cookie.as_str().is_empty() {
        "Please set a cookie first using the `/set_cookie` command".to_owned()
    } else {
        let mut reply = "COOKIE: ".to_owned();
        reply.append(state.cookie.as_str());
        reply
    }
}

/// Fills in the descriptor under which the command is registered.
pub fn register(command: &mut CommandSpec)
    ensures
        final(command).name@ == "get_cookie"@,
        final(command).description@ == "Get the cookie from client"@,
        final(command).options@.len() == 0,
{
    command.name = "get_cookie".to_owned();
    command.description = "Get the cookie from client".to_owned();
    command.options = Vec::new();
}

} // verus!
