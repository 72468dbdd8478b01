//! The preferences of a backup configuration: what the dialog saves, what it
//! shows, and what keeps it from closing.

use vstd::prelude::*;
use crate::df::{is_white_space, is_whitespace};
use crate::error::{Error, ErrorView};
use crate::i18n::{chars_of, push_char, Text, TextView};
use crate::shell_args::{command_line_args_outcome, parse_borg_command_line_args, shell_split, validate_shell_command, words_view};

verus! {

/// The first index at or after `i` that holds no white space, or the end.
pub open spec fn lead_end(s: Seq<char>, i: int) -> int
    decreases s.len() - i,
{
    if i < 0 || i >= s.len() || !is_white_space(s[i]) { i } else { lead_end(s, i + 1) }
}

/// The end of `s` up to `j` without trailing white space, not going below
/// `lo`.
pub open spec fn trail_end(s: Seq<char>, j: int, lo: int) -> int
    decreases j - lo,
{
    if j <= lo || j > s.len() || !is_white_space(s[j - 1]) { j } else { trail_end(s, j - 1, lo) }
}

/// `s` without its leading and trailing white space, as `str::trim` gives it.
pub open spec fn trimmed(s: Seq<char>) -> Seq<char> {
    let a = lead_end(s, 0);
    s.subrange(a, trail_end(s, s.len() as int, a))
}

/// `s` without leading and trailing white space.
pub fn trim(s: &str) -> (r: String)
    ensures
        r@ == trimmed(s@),
{
    let cs = chars_of(s);
    let n = cs.len();
    let mut a: usize = 0;
    while a < n && is_whitespace(cs[a])
        invariant
            n == cs@.len(),
            cs@ == s@,
            a <= n,
            lead_end(s@, 0) == lead_end(s@, a as int),
        decreases n - a,
    {
        a = a + 1;
    }
    let mut b: usize = n;
    while b > a && is_whitespace(cs[b - 1])
        invariant
            n == cs@.len(),
            cs@ == s@,
            a <= b <= n,
            trail_end(s@, n as int, a as int) == trail_end(s@, b as int, a as int),
        decreases b - a,
    {
        b = b - 1;
    }
    let mut r = String::new();
    let mut k = a;
    while k < b
        invariant
            n == cs@.len(),
            cs@ == s@,
            a <= k <= b <= n,
            r@ == s@.subrange(a as int, k as int),
        decreases b - k,
    {
        push_char(&mut r, cs[k]);
        k = k + 1;
        proof {
            assert(r@ =~= s@.subrange(a as int, k as int));
        }
    }
    r
}

/// The error of the preferences that the dialog shows before it may close.
#[derive(Clone, Copy, Debug, PartialEq, Eq, Structural)]
pub enum PendingError {
    CommandLineArgs,
    PreBackupCommand,
    PostBackupCommand,
}

/// What closing the preferences does: show the first pending error, in the
/// order of the extra arguments, the command run before and the one run
/// after a backup; `None` when the dialog closes.
pub fn close_step(args_error: bool, pre_error: bool, post_error: bool) -> (r: Option<PendingError>)
    ensures
        args_error ==> r == Some(PendingError::CommandLineArgs),
        !args_error && pre_error ==> r == Some(PendingError::PreBackupCommand),
        !args_error && !pre_error && post_error ==> r == Some(PendingError::PostBackupCommand),
        !args_error && !pre_error && !post_error ==> r is None,
{
    if args_error {
        Some(PendingError::CommandLineArgs)
    } else if pre_error {
        Some(PendingError::PreBackupCommand)
    } else if post_error {
        Some(PendingError::PostBackupCommand)
    } else {
        None
    }
}

/// What the dialog holds when it saves.
pub struct PreferencesInput {
    pub title: String,
    pub pre_backup_command: String,
    pub post_backup_command: String,
    pub command_line_args: Option<Vec<String>>,
    pub run_on_battery: bool,
}

/// What is saved into the configuration.
#[derive(Debug, PartialEq, Eq)]
pub struct SavedPreferences {
    /// The title, without leading and trailing white space.
    pub title: String,
    /// The command run before a backup; none when it was left empty.
    pub pre_backup_script: Option<String>,
    /// The command run after a backup; none when it was left empty.
    pub post_backup_script: Option<String>,
    pub command_line_args: Option<Vec<String>>,
    pub run_on_battery: bool,
}

/// The view of an optional string.
pub open spec fn opt_text(o: Option<String>) -> Option<Seq<char>> {
    match o {
        Some(s) => Some(s@),
        None => None,
    }
}

/// A command as saved: none when empty.
pub open spec fn script_spec(command: Seq<char>) -> Option<Seq<char>> {
    if command.len() == 0 { None } else { Some(command) }
}

/// What the preferences save.
pub fn saved_preferences(input: PreferencesInput) -> (s: SavedPreferences)
    ensures
        s.title@ == trimmed(input.title@),
        opt_text(s.pre_backup_script) == script_spec(input.pre_backup_command@),
        opt_text(s.post_backup_script) == script_spec(input.post_backup_command@),
        s.command_line_args == input.command_line_args,
        s.run_on_battery == input.run_on_battery,
{
    let title = trim(input.title.as_str());
    let pre = if input.pre_backup_command.as_str().is_empty() { None } else { Some(input.pre_backup_command) };
    let post = if input.post_backup_command.as_str().is_empty() { None } else { Some(input.post_backup_command) };
    SavedPreferences {
        title,
        pre_backup_script: pre,
        post_backup_script: post,
        command_line_args: input.command_line_args,
        run_on_battery: input.run_on_battery,
    }
}

/// The description of the title: what shows when it is left empty.
pub fn title_description(fallback: String) -> (t: Text)
    ensures
        t@ == (TextView::Format {
            msgid: "The title of this backup configuration. Will be displayed as “{}” when left empty."@,
            args: seq![fallback@],
        }),
{
    let ghost f = fallback@;
    let mut args: Vec<String> = Vec::new();
    args.push(fallback);
    proof {
        assert(args@.map_values(|a: String| a@) =~= seq![f]);
    }
    Text::format("The title of this backup configuration. Will be displayed as “{}” when left empty.", args)
}

/// What the entry of the extra borg arguments holds after the user typed
/// `text`: the words, or no words and the error to show.
pub fn command_line_args_state(text: &str) -> (r: (Vec<String>, Option<Error>))
    ensures
        match command_line_args_outcome(shell_split(text@)) {
            Ok(words) => words_view(r.0) == words && r.1 is None,
            Err(e) => r.0@.len() == 0 && (r.1 matches Some(x) && x@ == e),
        },
{
    match parse_borg_command_line_args(text) {
        Ok(args) => (args, None),
        Err(e) => (Vec::new(), Some(e)),
    }
}

/// What the entry of a shell command holds after the user typed `command`:
/// the command, or nothing and the error to show.
pub fn shell_command_state(command: String) -> (r: (String, Option<Error>))
    ensures
        shell_split(command@) is Some ==> r.0@ == command@ && r.1 is None,
        shell_split(command@) is None ==> r.0@.len() == 0 && (r.1 matches Some(e) && e@ == ErrorView::Message(
            crate::error::message_view("Shell command invalid"@, "Please check for missing closing quotes."@),
        )),
{
    let outcome = match validate_shell_command(command.as_str()) {
        Ok(_) => None,
        Err(e) => Some(e),
    };
    match outcome {
        None => (command, None),
        Some(e) => (String::new(), Some(e)),
    }
}

/// What follows a changed encryption password.
#[derive(Clone, Copy, Debug, PartialEq, Eq, Structural)]
pub struct PasswordFollowUp {
    /// The configuration records the new encryption setting.
    pub update_config: bool,
    /// The stored password is removed, as the repository is no longer
    /// encrypted.
    pub remove_stored: bool,
    /// The new password is stored in the keyring.
    pub store_new: bool,
}

/// What follows once borg changed the password: the configuration is
/// updated when the encryption setting changed, the stored password goes
/// when encryption was switched off, and a new password is stored.
pub fn password_follow_up(was_encrypted: bool, encrypted: bool, has_new_password: bool) -> (f: PasswordFollowUp)
    ensures
        f.update_config == (was_encrypted != encrypted),
        f.remove_stored == (was_encrypted != encrypted && !encrypted),
        f.store_new == has_new_password,
{
    let changed = was_encrypted != encrypted;
    PasswordFollowUp { update_config: changed, remove_stored: changed && !encrypted, store_new: has_new_password }
}

} // verus!
