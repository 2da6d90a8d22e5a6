//! The set-cookie command: builds `key=value` from two supplied arguments
//! and stores it as the new session cookie. Both arguments must be present
//! and non-empty; anything less is an argument error that leaves the state
//! untouched.

use vstd::prelude::*;

use crate::commands::CommandSpec;
use crate::commands::CommandOption;
use crate::commands::get_cookie;
use crate::state::SharedState;
use vstd::string::StringExecFns;

verus! {

/// The cookie string built from a key and a value: `key=value`.
pub open spec fn cookie_string(key: Seq<char>, value: Seq<char>) -> Seq<char> {
    key + "="@ + value
}

/// The confirmation echoed after the cookie is stored.
pub open spec fn set_cookie_reply(key: Seq<char>, value: Seq<char>) -> Seq<char> {
    "COOKIE: "@ + cookie_string(key, value)
}

/// The reply to a missing or empty argument.
pub open spec fn invalid_args_reply() -> Seq<char> {
    "Please provide a valid cookie string"@
}

/// Whether a pair of command arguments is acceptable: both present and
/// non-empty.
pub open spec fn valid_cookie_args(key: Option<Seq<char>>, value: Option<Seq<char>>) -> bool {
    &&& key matches Some(k) && k.len() > 0
    &&& value matches Some(v) && v.len() > 0
}

/// The character sequence behind an optional argument.
pub open spec fn arg_view(arg: Option<&str>) -> Option<Seq<char>> {
    match arg {
        Some(s) => Some(s@),
        None => None,
    }
}

/// Handles the set-cookie command: with both arguments present and
/// non-empty, stores `key=value` as the new session cookie and echoes it;
/// otherwise changes nothing and answers with the argument error text.
pub fn run(state: &mut SharedState, key: Option<&str>, value: Option<&str>) -> (reply: String)
    ensures
        valid_cookie_args(arg_view(key), arg_view(value)) ==> {
            &&& final(state).cookie@ == cookie_string(key->Some_0@, value->Some_0@)
            &&& reply@ == set_cookie_reply(key->Some_0@, value->Some_0@)
        },
        !valid_cookie_args(arg_view(key), arg_view(value)) ==> {
            &&& *final(state) == *old(state)
            &&& reply@ == invalid_args_reply()
        },
        final(state).element_cache == old(state).element_cache,
        final(state).loop_running == old(state).loop_running,
        final(state).queried_this_window == old(state).queried_this_window,
        final(state).channel_id == old(state).channel_id,
{
    match (key, value) {
        (Some(k), Some(v)) => {
            if k.is_empty() || v.is_empty() {
                "Please provide a valid cookie string".to_owned()
            } else {
                let mut cookie = k.to_owned();
                cookie.append("=");
                cookie.append(v);
                let mut reply = "COOKIE: ".to_owned();
                reply.append(cookie.as_str());
                state.cookie = cookie;
                reply
            }
        },
        _ => "Please provide a valid cookie string".to_owned(),
    }
}

/// A sub-sequence test: `needle` occurs contiguously inside `hay`.
pub open spec fn contains_seq(hay: Seq<char>, needle: Seq<char>) -> bool {
    exists|i: int|
        0 <= i && i + needle.len() <= hay.len() && #[trigger] hay.subrange(i, i + needle.len())
            == needle
}

/// A cookie set from a non-empty key and a non-empty value is echoed back
/// by the cookie query: the stored cookie is non-empty, so the query
/// replies with a text that contains `key=value`.
pub proof fn lemma_cookie_round_trip(key: Seq<char>, value: Seq<char>)
    requires
        key.len() > 0,
        value.len() > 0,
    ensures
        cookie_string(key, value).len() > 0,
        contains_seq(get_cookie::cookie_reply(cookie_string(key, value)), cookie_string(key, value)),
{
    let cookie = cookie_string(key, value);
    let hay = get_cookie::cookie_reply(cookie);
    let p = "COOKIE: "@.len() as int;
    assert(hay.subrange(p, p + cookie.len() as int) =~= cookie);
}

/// Fills in the descriptor under which the command is registered: the two
/// string arguments, key then value, both required.
pub fn register(command: &mut CommandSpec)
    ensures
        final(command).name@ == "set_cookie"@,
        final(command).description@ == "Set the cookie for client"@,
        final(command).options@.len() == 2,
        final(command).options@[0].name@ == "key"@,
        final(command).options@[0].description@ == "Cookie key"@,
        final(command).options@[0].required,
        final(command).options@[1].name@ == "value"@,
        final(command).options@[1].description@ == "Cookie value"@,
        final(command).options@[1].required,
{
    command.name = "set_cookie".to_owned();
    command.description = "Set the cookie for client".to_owned();
    let mut options: Vec<CommandOption> = Vec::new();
    options.push(
        CommandOption {
            name: "key".to_owned(),
            description: "Cookie key".to_owned(),
            required: true,
        },
    );
    options.push(
        CommandOption {
            name: "value".to_owned(),
            description: "Cookie value".to_owned(),
            required: true,
        },
    );
    command.options = options;
}

} // verus!
