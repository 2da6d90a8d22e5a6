//! The command dispatcher: the descriptors under which the four on-demand
//! commands are registered with the chat gateway, the mapping from an
//! incoming command name to the operation it invokes, and the reply to the
//! one plain-text greeting the bot answers.

pub mod get_cache;
pub mod get_cookie;
pub mod latest;
pub mod set_cookie;

use vstd::prelude::*;

verus! {

/// One argument of a registered command.
pub struct CommandOption {
    /// The argument name shown to the invoker.
    pub name: String,
    /// The argument description shown to the invoker.
    pub description: String,
    /// Whether the invoker must supply the argument.
    pub required: bool,
}

/// The descriptor under which a command is registered with the gateway.
pub struct CommandSpec {
    /// The command name, as invoked.
    pub name: String,
    /// The command description shown to the invoker.
    pub description: String,
    /// The command's arguments, in declaration order.
    pub options: Vec<CommandOption>,
}

impl CommandSpec {
    /// A blank descriptor for a `register` function to fill in.
    pub fn new() -> (c: CommandSpec)
        ensures
            c.name@ == Seq::<char>::empty(),
            c.description@ == Seq::<char>::empty(),
            c.options@.len() == 0,
    {
        CommandSpec { name: String::new(), description: String::new(), options: Vec::new() }
    }
}

/// The four on-demand operations.
#[derive(PartialEq, Eq, Structural, Debug)]
pub enum Command {
    /// Store a new session cookie built from a key and a value.
    SetCookie,
    /// Read the current session cookie.
    GetCookie,
    /// Read the cached list.
    GetCache,
    /// Send the cached list to the output channel right away.
    Latest,
}

/// What an incoming command name invokes; `None` for a name that no
/// command was registered under.
pub open spec fn parsed_command(name: Seq<char>) -> Option<Command> {
    if name == "set_cookie"@ {
        Some(Command::SetCookie)
    } else if name == "get_cookie"@ {
        Some(Command::GetCookie)
    } else if name == "get_cache"@ {
        Some(Command::GetCache)
    } else if name == "latest"@ {
        Some(Command::Latest)
    } else {
        None
    }
}

/// Two text fragments are equal exactly when their character sequences are.
fn str_eq(a: &str, b: &str) -> (r: bool)
    ensures
        r == (a@ == b@),
{
    a.to_owned() == b.to_owned()
}

/// Maps an incoming command name to the operation it invokes. An unknown
/// name yields `None`; the caller decides how loudly to fail on it.
pub fn parse_command(name: &str) -> (r: Option<Command>)
    ensures
        r == parsed_command(name@),
{
    if str_eq(name, "set_cookie") {
        Some(Command::SetCookie)
    } else if str_eq(name, "get_cookie") {
        Some(Command::GetCookie)
    } else if str_eq(name, "get_cache") {
        Some(Command::GetCache)
    } else if str_eq(name, "latest") {
        Some(Command::Latest)
    } else {
        None
    }
}

/// The reply to a plain chat message: the greeting `!hello` is answered
/// with `world!`, anything else with nothing.
pub fn message_reply(content: &str) -> (r: Option<String>)
    ensures
        r is Some <==> content@ == "!hello"@,
        r is Some ==> r->Some_0@ == "world!"@,
{
    if str_eq(content, "!hello") {
        Some("world!".to_owned())
    } else {
        None
    }
}

} // verus!
