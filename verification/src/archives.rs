//! The archives page: what each archive's row shows, the controls of the
//! repository check, and the warning of a backup location filling up.

use vstd::prelude::*;
use crate::dialogs::{ends_with, is_checkpoint};
use crate::duration::{plain_text, plain_view, Span};
use crate::i18n::{Text, TextView};

verus! {

/// Seconds from the epoch to the latest date a calendar date can hold
/// (the end of the year 262143), and to the earliest, negated.
pub const DATE_LIMIT_SECONDS: i64 = 8_210_298_412_799;

/// An archive of a repository, as the list shows it. Its start and end are
/// seconds from the epoch.
#[derive(Debug, PartialEq, Eq)]
pub struct ArchiveInfo {
    pub name: String,
    pub hostname: String,
    pub username: String,
    pub comment: String,
    pub start: i64,
    pub end: i64,
}

/// The row of an archive in the list.
#[derive(Debug, PartialEq, Eq)]
pub struct ArchiveRow {
    /// "host, user".
    pub subtitle: String,
    /// The archive was not finished: it carries a tag saying so.
    pub incomplete: bool,
    /// The archive's name.
    pub name: String,
    /// How long the backup that made the archive took.
    pub duration: Text,
    /// The archive's comment, shown only when it has one.
    pub comment: Option<String>,
}

/// Whether a date in seconds from the epoch lies within the calendar.
pub open spec fn valid_date(t: i64) -> bool {
    -DATE_LIMIT_SECONDS <= t <= DATE_LIMIT_SECONDS
}

/// `a` followed by `b`.
fn concat(a: &str, b: &str) -> (r: String)
    ensures
        r@ == a@ + b@,
{
    let mut r = a.to_string();
    r.append(b);
    r
}

/// The row of an archive: "host, user" below its date, a tag when it is
/// incomplete, its name, the duration of its backup, and its comment if it
/// has one.
pub fn archive_row(a: &ArchiveInfo) -> (r: ArchiveRow)
    requires
        valid_date(a.start),
        valid_date(a.end),
    ensures
        r.subtitle@ == a.hostname@ + ", "@ + a.username@,
        r.incomplete == ends_with(a.name@, ".checkpoint"@),
        r.name@ == a.name@,
        r.duration@ == plain_view(Span { seconds: (a.end - a.start) as i64 }),
        a.comment@.len() == 0 ==> r.comment is None,
        a.comment@.len() > 0 ==> (r.comment matches Some(c) && c@ == a.comment@),
{
    let host_sep = concat(a.hostname.as_str(), ", ");
    let subtitle = concat(host_sep.as_str(), a.username.as_str());
    let span = Span::from_seconds(a.end - a.start);
    let duration = plain_text(&span);
    let comment = if a.comment.as_str().is_empty() {
        None
    } else {
        Some(a.comment.clone())
    };
    ArchiveRow {
        subtitle,
        incomplete: is_checkpoint(a.name.as_str()),
        name: a.name.clone(),
        duration,
        comment,
    }
}

/// The controls of the repository check on the archives page.
#[derive(Clone, Copy, Debug, PartialEq, Eq, Structural)]
pub struct CheckControls {
    /// The button that starts a check shows.
    pub check_visible: bool,
    /// The button that starts a check can be pressed.
    pub check_sensitive: bool,
    /// The button that stops a running check shows.
    pub abort_visible: bool,
}

/// The controls of the repository check, given whether an operation runs on
/// the configuration and whether that operation is a check: a running check
/// can be stopped, and no check starts while any operation runs.
pub fn check_controls(operation_running: bool, operation_is_check: bool) -> (c: CheckControls)
    ensures
        c.abort_visible == (operation_running && operation_is_check),
        c.check_visible == !(operation_running && operation_is_check),
        c.check_sensitive == !operation_running,
{
    let running = operation_running && operation_is_check;
    CheckControls { check_visible: !running, check_sensitive: !operation_running, abort_visible: running }
}

/// The space a backup is estimated to lack on its location: the estimated
/// amount of changed data beyond the space available, when both are known and
/// the data does not fit.
pub open spec fn missing_space_spec(changed: u64, available: Option<u64>) -> Option<u64> {
    match available {
        Some(a) => if changed > a { Some((changed - a) as u64) } else { None },
        None => None,
    }
}

/// The space a backup is estimated to lack, for the warning that its location
/// might be filling up.
pub fn missing_space(changed: u64, available: Option<u64>) -> (r: Option<u64>)
    ensures
        r == missing_space_spec(changed, available),
{
    match available {
        Some(a) => if changed > a { Some(changed - a) } else { None },
        None => None,
    }
}

/// The warning that a backup location might be filling up, naming the
/// location and the space missing, written out by the caller.
pub fn filling_up_notice(location: String, missing: String) -> (t: Text)
    ensures
        t@ == (TextView::Format {
            msgid: "Backup location “{}” might be filling up. Estimated space missing to store all data: {}."@,
            args: seq![location@, missing@],
        }),
{
    let ghost l = location@;
    let ghost m = missing@;
    let mut args: Vec<String> = Vec::new();
    args.push(location);
    args.push(missing);
    proof {
        assert(args@.map_values(|a: String| a@) =~= seq![l, m]);
    }
    Text::format("Backup location “{}” might be filling up. Estimated space missing to store all data: {}.", args)
}

/// Whether the page shows the list of archives rather than the note that
/// there are none.
pub fn archive_list_visible(archive_count: usize) -> (r: bool)
    ensures
        r == (archive_count > 0),
{
    archive_count > 0
}

/// Whether the search for the folder to open an archive at goes on into the
/// folder's first entry: it does when that entry could be read, is a folder,
/// and is the only entry. The first entry is `None` when the folder is empty
/// or unreadable, else whether it is a folder.
pub fn descend_into_first_entry(first_is_dir: Option<bool>, has_second_entry: bool) -> (r: bool)
    ensures
        r == (first_is_dir == Some(true) && !has_second_entry),
{
    match first_is_dir {
        Some(is_dir) => is_dir && !has_second_entry,
        None => false,
    }
}

} // verus!
