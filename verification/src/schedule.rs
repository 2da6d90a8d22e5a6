//! The scheduler core: the time-window gate that restricts fetches to the
//! eligible minutes of the day, the debounce flag that allows one attempt
//! per window, and the order-sensitive change detection that decides when a
//! notification is sent. The surrounding process runs the actual tick loop;
//! it asks [`SharedState::should_fetch`] whether to fetch, records the
//! outcome with [`SharedState::record_fetch`], and re-arms the window with
//! [`SharedState::window_exit_reset`] once the clock leaves the window.

use vstd::prelude::*;

use crate::state::SharedState;

verus! {

/// The eligible minutes: fetches happen at the top of the eligible hour and
/// two minutes past it.
pub open spec fn in_window(minute: u32) -> bool {
    minute == 0 || minute == 2
}

/// The window gate: a fetch is allowed only at hour zero of the local day,
/// in an eligible minute, and only when no fetch was attempted inside the
/// current window yet.
pub open spec fn gate_open(hour: u32, minute: u32, queried: bool) -> bool {
    hour == 0 && in_window(minute) && !queried
}

/// Change detection: a successful extraction triggers a notification exactly
/// when it differs from the cached sequence, compared element for element in
/// order; a failed extraction never does.
pub open spec fn notifies(cache: Seq<Seq<char>>, extraction: Option<Seq<Seq<char>>>) -> bool {
    match extraction {
        Some(content) => content != cache,
        None => false,
    }
}

/// The cache after an extraction outcome is applied on a gated tick: a
/// successful extraction replaces it wholly, a failed one leaves it
/// untouched.
pub open spec fn cache_after(cache: Seq<Seq<char>>, extraction: Option<Seq<Seq<char>>>) -> Seq<
    Seq<char>,
> {
    match extraction {
        Some(content) => content,
        None => cache,
    }
}

/// The cache after the one seeding cycle: only a successful extraction that
/// yields a non-empty result replaces it; an empty or failed one leaves it
/// untouched.
pub open spec fn cache_after_seed(cache: Seq<Seq<char>>, extraction: Option<Seq<Seq<char>>>) -> Seq<
    Seq<char>,
> {
    match extraction {
        Some(content) => if content.len() > 0 {
            content
        } else {
            cache
        },
        None => cache,
    }
}

/// An extraction equal to the cached sequence is silent: applying it keeps
/// the cache and sends no notification.
pub proof fn lemma_unchanged_extraction_is_silent(cache: Seq<Seq<char>>)
    ensures
        !notifies(cache, Some(cache)),
        cache_after(cache, Some(cache)) == cache,
{
}

/// Change detection is order-sensitive: an extraction made of the cached
/// entries in a different order still counts as a change.
pub proof fn lemma_change_detection_order_sensitive(cache: Seq<Seq<char>>, extraction: Seq<Seq<char>>)
    requires
        extraction.to_multiset() == cache.to_multiset(),
        extraction != cache,
    ensures
        notifies(cache, Some(extraction)),
{
}

/// Once a fetch attempt has been recorded, the window stays closed at every
/// clock time until the debounce flag is reset: a later tick inside the same
/// window does not fetch again.
pub proof fn lemma_debounce(hour: u32, minute: u32)
    ensures
        !gate_open(hour, minute, true),
{
}

/// Two strings are equal exactly when their character sequences are.
fn strings_equal(a: &String, b: &String) -> (r: bool)
    ensures
        r == (a@ == b@),
{
    *a == *b
}

/// Two lists of strings are equal exactly when they hold the same character
/// sequences in the same order.
fn lists_equal(a: &Vec<String>, b: &Vec<String>) -> (r: bool)
    ensures
        r == (a.deep_view() == b.deep_view()),
{
    if a.len() != b.len() {
        proof {
            assert(a.deep_view().len() != b.deep_view().len());
        }
        return false;
    }
    let n = a.len();
    let mut i: usize = 0;
    while i < n
        invariant
            n == a.len() == b.len(),
            i <= n,
            forall|j: int| 0 <= j < i ==> a.deep_view()[j] == b.deep_view()[j],
        decreases n - i,
    {
        if !strings_equal(&a[i], &b[i]) {
            proof {
                assert(a.deep_view()[i as int] != b.deep_view()[i as int]);
            }
            return false;
        }
        i += 1;
    }
    proof {
        assert(a.deep_view() =~= b.deep_view());
    }
    true
}

impl SharedState {
    /// Evaluates the window gate for the given local clock time against the
    /// current debounce flag.
    pub fn should_fetch(&self, hour: u32, minute: u32) -> (r: bool)
        ensures
            r == gate_open(hour, minute, self.queried_this_window),
    {
        hour == 0 && (minute == 0 || minute == 2) && !self.queried_this_window
    }

    /// Seeds the cache from the one initial fetch made when the loop starts:
    /// a successful extraction with a non-empty result replaces the cache, an
    /// empty or failed one leaves it, and no notification is ever sent for
    /// this cycle, so the debounce flag and everything else stay as they
    /// were.
    pub fn seed_cache(&mut self, extraction: Option<Vec<String>>)
        ensures
            final(self).element_cache.deep_view() == cache_after_seed(
                old(self).element_cache.deep_view(),
                extraction.deep_view(),
            ),
            final(self).cookie == old(self).cookie,
            final(self).loop_running == old(self).loop_running,
            final(self).queried_this_window == old(self).queried_this_window,
            final(self).channel_id == old(self).channel_id,
    {
        match extraction {
            Some(content) => {
                if content.len() > 0 && !lists_equal(&self.element_cache, &content) {
                    self.element_cache = content;
                }
            },
            None => {},
        }
    }

    /// Records the outcome of one gated fetch attempt: applies change
    /// detection to the extraction, replaces the cache on a change, sets the
    /// debounce flag whether or not the fetch produced anything, and returns
    /// whether the new list must be sent to the output channel.
    pub fn record_fetch(&mut self, extraction: Option<Vec<String>>) -> (notify: bool)
        ensures
            notify == notifies(old(self).element_cache.deep_view(), extraction.deep_view()),
            final(self).element_cache.deep_view() == cache_after(
                old(self).element_cache.deep_view(),
                extraction.deep_view(),
            ),
            final(self).queried_this_window,
            final(self).cookie == old(self).cookie,
            final(self).loop_running == old(self).loop_running,
            final(self).channel_id == old(self).channel_id,
    {
        let notify = match extraction {
            Some(content) => {
                if !lists_equal(&self.element_cache, &content) {
                    self.element_cache = content;
                    true
                } else {
                    false
                }
            },
            None => false,
        };
        self.queried_this_window = true;
        notify
    }

    /// Re-opens the window once the clock leaves it: the debounce flag
    /// survives a tick exactly when the current minute is still eligible.
    pub fn window_exit_reset(&mut self, minute: u32)
        ensures
            final(self).queried_this_window == (old(self).queried_this_window && in_window(minute)),
            final(self).element_cache == old(self).element_cache,
            final(self).cookie == old(self).cookie,
            final(self).loop_running == old(self).loop_running,
            final(self).channel_id == old(self).channel_id,
    {
        if self.queried_this_window && minute != 0 && minute != 2 {
            self.queried_this_window = false;
        }
    }
}

/// Relies on chrono's `Utc::now`, `DateTime::with_timezone`,
/// `FixedOffset::east_opt` and `Timelike::{hour, minute}`: reads the wall
/// clock and returns its hour and minute in the fixed UTC+7 offset. The
/// result depends on the clock, so nothing more than its range is promised.
#[verifier::external_body]
fn clock_hour_minute_utc7() -> (r: (u32, u32))
    ensures
        r.0 < 24,
        r.1 < 60,
{
    let tz = match chrono::FixedOffset::east_opt(7 * 3600) {
        Some(tz) => tz,
        None => return (0, 0),
    };
    let local = chrono::Utc::now().with_timezone(&tz);
    (chrono::Timelike::hour(&local), chrono::Timelike::minute(&local))
}

/// The current local hour and minute in the scheduler's fixed UTC+7 offset,
/// as the tick loop reads them before consulting the window condition.
pub fn current_hour_minute() -> (r: (u32, u32))
    ensures
        r.0 < 24,
        r.1 < 60,
{
    clock_hour_minute_utc7()
}

} // verus!
