//! The dialog that shows the state of a running or finished backup: the
//! error text, the statistics and the path being read.

use vstd::prelude::*;

verus! {

/// The statistics a backup status carries, with the texts that borg's
/// outcome and messages are written as.
#[derive(Debug, PartialEq, Eq)]
pub enum InfoStats {
    /// No statistics.
    Nothing,
    /// The backup ended; `completed` tells whether it ran to completion.
    Final { completed: bool, outcome: String, messages: String },
    /// The backup runs and reads `path`, relative to the root.
    Progress { path: String },
}

/// What the dialog shows.
#[derive(Debug, PartialEq, Eq)]
pub struct InfoDisplay {
    /// The error text, shown when the backup ended.
    pub error: Option<String>,
    /// The sizes and the number of files are shown.
    pub stats_visible: bool,
    /// The row with the path being read is shown.
    pub path_row_visible: bool,
    /// The path being read, written from the root, when the backup runs.
    pub current_path: Option<String>,
}

/// The error text of an ended backup: its outcome followed by an empty line
/// unless it ran to completion, then its messages.
pub open spec fn error_text(completed: bool, outcome: Seq<char>, messages: Seq<char>) -> Seq<char> {
    if completed { messages } else { outcome + "\n\n"@ + messages }
}

/// `a` followed by `b`.
fn joined(a: &str, b: &str) -> (r: String)
    ensures
        r@ == a@ + b@,
{
    let mut r = a.to_string();
    r.append(b);
    r
}

/// What the dialog shows for a backup's statistics. The path row is left as
/// it was when there are no statistics or the backup ended without running
/// to completion; `path_row_visible` then keeps `path_row_was_visible`.
pub fn backup_info_display(stats: &InfoStats, path_row_was_visible: bool) -> (d: InfoDisplay)
    ensures
        match stats {
            InfoStats::Nothing => {
                &&& d.error is None
                &&& !d.stats_visible
                &&& d.path_row_visible == path_row_was_visible
                &&& d.current_path is None
            },
            InfoStats::Final { completed, outcome, messages } => {
                &&& d.error matches Some(e) && e@ == error_text(*completed, outcome@, messages@)
                &&& d.stats_visible == *completed
                &&& d.path_row_visible == (if *completed { false } else { path_row_was_visible })
                &&& d.current_path is None
            },
            InfoStats::Progress { path } => {
                &&& d.error is None
                &&& d.stats_visible
                &&& d.path_row_visible
                &&& d.current_path matches Some(p) && p@ == "/"@ + path@
            },
        },
{
    match stats {
        InfoStats::Nothing => InfoDisplay {
            error: None,
            stats_visible: false,
            path_row_visible: path_row_was_visible,
            current_path: None,
        },
        InfoStats::Final { completed, outcome, messages } => {
            let error = if *completed {
                messages.clone()
            } else {
                let head = joined(outcome.as_str(), "\n\n");
                joined(head.as_str(), messages.as_str())
            };
            InfoDisplay {
                error: Some(error),
                stats_visible: *completed,
                path_row_visible: if *completed { false } else { path_row_was_visible },
                current_path: None,
            }
        },
        InfoStats::Progress { path } => InfoDisplay {
            error: None,
            stats_visible: true,
            path_row_visible: true,
            current_path: Some(joined("/", path.as_str())),
        },
    }
}

} // verus!
