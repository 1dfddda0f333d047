//! The dashboard listener's rules over the shared history: the read
//! endpoint hands out a snapshot of the log, oldest first, without
//! changing it; the clear endpoint empties the log and reports a fixed
//! status.

use vstd::prelude::*;
use crate::store::HistoryStore;
use crate::store::cleared_log;

verus! {

/// The fixed payload returned after the history is cleared.
pub open spec fn cleared_status() -> Seq<char> {
    "cleared"@
}

/// One request arriving at the dashboard's API.
pub enum DashboardRequest {
    /// The read endpoint: the current history, oldest first.
    Messages,
    /// The clear endpoint: empty the history.
    Clear,
}

/// What the dashboard's API replies with.
pub enum DashboardReply {
    /// The current history entries, oldest first, at most the store's
    /// capacity many.
    Messages(Vec<String>),
    /// The clear endpoint's fixed status payload.
    Cleared(String),
}

/// Decides the dashboard's reply to one API request, and how the shared
/// history changes: a read returns a snapshot and leaves the history
/// untouched; a clear empties it.
pub fn handle_dashboard(req: DashboardRequest, history: &mut HistoryStore) -> (reply:
    DashboardReply)
    ensures
        match req {
            DashboardRequest::Messages => {
                &&& final(history)@ == old(history)@
                &&& reply matches DashboardReply::Messages(msgs) && msgs.deep_view() == old(
                    history,
                )@
            },
            DashboardRequest::Clear => {
                &&& final(history)@ == cleared_log(old(history)@)
                &&& final(history)@ == Seq::<Seq<char>>::empty()
                &&& reply matches DashboardReply::Cleared(s) && s@ == cleared_status()
            },
        },
{
    match req {
        DashboardRequest::Messages => DashboardReply::Messages(history.snapshot()),
        DashboardRequest::Clear => {
            history.clear();
            DashboardReply::Cleared(String::from_str("cleared"))
        },
    }
}

} // verus!
