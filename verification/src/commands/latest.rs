//! The latest command: hands the cached list out for immediate delivery to
//! the output channel, independent of the scheduler's window gate. With an
//! empty cache it only answers the distinguished "empty" text and nothing
//! is delivered.

use vstd::prelude::*;

use crate::commands::CommandSpec;
use crate::commands::get_cache;
use crate::state::SharedState;

verus! {

/// What handling the latest command produced.
pub struct LatestOutcome {
    /// The text answered to the invoker; empty when the list goes out.
    pub reply: String,
    /// The cached list to deliver to the output channel, absent when the
    /// cache was empty.
    pub to_send: Option<Vec<String>>,
}

/// Handles the latest command: with a non-empty cache, answers nothing and
/// hands the cached list out for delivery; with an empty cache, answers
/// the distinguished "empty" text and hands nothing out. The state is only
/// read.
pub fn run(state: &SharedState) -> (r: LatestOutcome)
    ensures
        state.element_cache.deep_view().len() == 0 ==> {
            &&& r.reply@ == get_cache::empty_cache_reply()
            &&& r.to_send is None
        },
        state.element_cache.deep_view().len() > 0 ==> {
            &&& r.reply@ == Seq::<char>::empty()
            &&& r.to_send matches Some(l) && l.deep_view() == state.element_cache.deep_view()
        },
{
    if state.element_cache.len() == 0 {
        LatestOutcome {
            reply: "Cache is empty (this is weird; probably means expired cookie)".to_owned(),
            to_send: None,
        }
    } else {
        let copy = state.element_cache.clone();
        proof {
            assert forall|i: int| 0 <= i < copy.deep_view().len() implies copy.deep_view()[i]
                == state.element_cache.deep_view()[i] by {
                assert(cloned::<String>(state.element_cache[i], copy[i]));
            }
            assert(copy.deep_view() =~= state.element_cache.deep_view());
        }
        LatestOutcome { reply: String::new(), to_send: Some(copy) }
    }
}

/// Fills in the descriptor under which the command is registered.
pub fn register(command: &mut CommandSpec)
    ensures
        final(command).name@ == "latest"@,
        final(command).description@ == "Get the latest list of SOCS competitions"@,
        final(command).options@.len() == 0,
{
    command.name = "latest".to_owned();
    command.description = "Get the latest list of SOCS competitions".to_owned();
    command.options = Vec::new();
}

} // verus!
