//! The process-wide mutable record shared by the poll loop and the command
//! handlers: the session cookie, the last extracted list, the two scheduler
//! flags, and the output channel. The surrounding process guards a value of
//! this type with a read/write lock; every function here is a single logical
//! operation on one consistent snapshot.

use vstd::prelude::*;

verus! {

/// The shared mutable state of the bot process.
pub struct SharedState {
    /// The session cookie sent with each fetch, `""` when not yet set.
    pub cookie: String,
    /// The last successfully extracted list of option labels, in document
    /// order; empty when nothing has been fetched yet.
    pub element_cache: Vec<String>,
    /// True once the background poll loop has been started; it is never
    /// started twice.
    pub loop_running: bool,
    /// True once a fetch has been attempted inside the current eligible
    /// time window; reset once the clock leaves the window.
    pub queried_this_window: bool,
    /// The identifier of the channel that notifications are sent to.
    pub channel_id: u64,
}

impl SharedState {
    /// Creates the startup state: the given cookie and channel, an empty
    /// cache, and both scheduler flags cleared.
    pub fn new(initial_cookie: String, channel_id: u64) -> (s: SharedState)
        ensures
            s.cookie == initial_cookie,
            s.element_cache.deep_view() == Seq::<Seq<char>>::empty(),
            !s.loop_running,
            !s.queried_this_window,
            s.channel_id == channel_id,
    {
        let s = SharedState {
            cookie: initial_cookie,
            element_cache: Vec::new(),
            loop_running: false,
            queried_this_window: false,
            channel_id,
        };
        proof {
            assert(s.element_cache.deep_view() =~= Seq::<Seq<char>>::empty());
        }
        s
    }

    /// The one-shot latch that starts the poll loop: returns true exactly
    /// when the loop was not yet running, and marks it running either way,
    /// so repeated ready signals start at most one loop.
    pub fn try_start_loop(&mut self) -> (started: bool)
        ensures
            started == !old(self).loop_running,
            final(self).loop_running,
            final(self).cookie == old(self).cookie,
            final(self).element_cache == old(self).element_cache,
            final(self).queried_this_window == old(self).queried_this_window,
            final(self).channel_id == old(self).channel_id,
    {
        let started = !self.loop_running;
        self.loop_running = true;
        started
    }
}

} // verus!
