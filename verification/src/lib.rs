//! A notification bot library: it models the state and the decisions of a
//! poller that periodically fetches an HTML page behind a session cookie,
//! extracts the option labels of a specific selection element, and reports
//! the new list whenever it differs from the previously observed one.
//!
//! The library holds the verified core: the shared mutable state, the
//! time-window gate of the scheduler, the change detection, the extraction
//! contract, and the on-demand commands. The surrounding process (the chat
//! gateway, the HTTP transport, the timer loop) drives these functions from
//! outside.

pub mod commands;
pub mod extract;
pub mod notify;
pub mod schedule;
pub mod state;
