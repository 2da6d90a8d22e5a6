//! The get-cache command: renders the cached list for the invoker in the
//! standard library's debug form — every entry between double quotes with
//! its special characters escaped, comma-separated between brackets — behind
//! a fixed prefix; or answers with the distinguished "empty" text while
//! nothing has been cached, which usually means an expired session.

use vstd::prelude::*;

use crate::commands::CommandSpec;
use crate::state::SharedState;
use vstd::string::StringExecFns;

verus! {

/// One debug-rendered entry, as the standard library's formatter writes a
/// string: between double quotes, a double quote or backslash behind a
/// backslash, control and other non-printable characters as escape
/// sequences. The value is whatever that formatter produces; it depends on
/// the entry alone.
pub uninterp spec fn rendered_entry(entry: Seq<char>) -> Seq<char>;

/// The debug-rendered entries, comma-separated, as the standard library's
/// list formatter joins them.
pub open spec fn rendered_items(items: Seq<Seq<char>>) -> Seq<char>
    decreases items.len(),
{
    if items.len() == 0 {
        Seq::<char>::empty()
    } else if items.len() == 1 {
        rendered_entry(items[0])
    } else {
        rendered_entry(items[0]) + ", "@ + rendered_items(items.drop_first())
    }
}

/// The debug-rendered list: the entries between brackets.
pub open spec fn rendered_list(items: Seq<Seq<char>>) -> Seq<char> {
    seq!['['] + rendered_items(items) + seq![']']
}

/// The reply for a non-empty cache: the debug-rendered list behind a fixed
/// prefix.
pub open spec fn cache_reply(items: Seq<Seq<char>>) -> Seq<char> {
    "CACHE: "@ + rendered_list(items)
}

/// The reply while the cache is empty.
pub open spec fn empty_cache_reply() -> Seq<char> {
    "Cache is empty (this is weird; probably means expired cookie)"@
}

/// Relies on the standard library's debug formatting of a string (the `{:?}`
/// specifier): renders one entry between double quotes with its special
/// characters escaped.
#[verifier::external_body]
fn render_entry(entry: &String) -> (r: String)
    ensures
        r@ == rendered_entry(entry@),
{
    format!("{:?}", entry)
}

/// Renders the entries from `start` on, comma-separated.
fn render_items_from(items: &Vec<String>, start: usize) -> (r: String)
    requires
        start <= items@.len(),
    ensures
        r@ == rendered_items(items.deep_view().subrange(start as int, items.deep_view().len() as int)),
    decreases items@.len() - start,
{
    let ghost tail = items.deep_view().subrange(start as int, items.deep_view().len() as int);
    if start == items.len() {
        proof {
            assert(tail.len() == 0);
        }
        String::new()
    } else if start + 1 == items.len() {
        let r = render_entry(&items[start]);
        proof {
            assert(tail.len() == 1);
            assert(tail[0] == items.deep_view()[start as int]);
        }
        r
    } else {
        let mut r = render_entry(&items[start]);
        r.append(", ");
        let rest = render_items_from(items, start + 1);
        r.append(rest.as_str());
        proof {
            assert(tail[0] == items.deep_view()[start as int]);
            assert(tail.drop_first() =~= items.deep_view().subrange(
                start + 1 as int,
                items.deep_view().len() as int,
            ));
            assert(r@ == rendered_items(tail));
        }
        r
    }
}

/// Handles the get-cache command: renders the cached list in debug form, or
/// answers with the distinguished "empty" text while nothing has been
/// cached. The state is only read.
pub fn run(state: &SharedState) -> (reply: String)
    ensures
        state.element_cache.deep_view().len() == 0 ==> reply@ == empty_cache_reply(),
        state.element_cache.deep_view().len() > 0 ==> reply@ == cache_reply(
            state.element_cache.deep_view(),
        ),
{
    if state.element_cache.len() == 0 {
        "Cache is empty (this is weird; probably means expired cookie)".to_owned()
    } else {
        let mut reply = "CACHE: ".to_owned();
        reply.append("[");
        let items = render_items_from(&state.element_cache, 0);
        reply.append(items.as_str());
        reply.append("]");
        proof {
            reveal_strlit("[");
            reveal_strlit("]");
            assert(state.element_cache.deep_view().subrange(
                0,
                state.element_cache.deep_view().len() as int,
            ) =~= state.element_cache.deep_view());
            assert(reply@ =~= cache_reply(state.element_cache.deep_view()));
        }
        reply
    }
}

/// Fills in the descriptor under which the command is registered.
pub fn register(command: &mut CommandSpec)
    ensures
        final(command).name@ == "get_cache"@,
        final(command).description@ == "Get the cache of the element"@,
        final(command).options@.len() == 0,
{
    command.name = "get_cache".to_owned();
    command.description = "Get the cache of the element".to_owned();
    command.options = Vec::new();
}

} // verus!
