//! The smaller decisions of the interface's pages and dialogs.

use vstd::prelude::*;
use crate::error::{message_view, short_message_view, Error, ErrorView, Message, MessageView};
use crate::i18n::{chars_of, Text, TextView};
use crate::text::{contains_seq, contains_str};

verus! {

/// A confirmation dialog: a question with a cancelling and an accepting
/// answer, the latter possibly marked as destructive.
pub struct ConfirmationDialog {
    title: String,
    message: String,
    cancel: String,
    accept: String,
    destructive: bool,
}

impl ConfirmationDialog {
    pub closed spec fn title_spec(&self) -> Seq<char> { self.title@ }
    pub closed spec fn message_spec(&self) -> Seq<char> { self.message@ }
    pub closed spec fn cancel_spec(&self) -> Seq<char> { self.cancel@ }
    pub closed spec fn accept_spec(&self) -> Seq<char> { self.accept@ }
    pub closed spec fn destructive_spec(&self) -> bool { self.destructive }

    /// A dialog asking `message` under `title`, answered by `cancel` or
    /// `accept`; not destructive.
    pub fn new(title: &str, message: &str, cancel: &str, accept: &str) -> (d: Self)
        ensures
            d.title_spec() == title@,
            d.message_spec() == message@,
            d.cancel_spec() == cancel@,
            d.accept_spec() == accept@,
            !d.destructive_spec(),
    {
        ConfirmationDialog {
            title: title.to_string(),
            message: message.to_string(),
            cancel: cancel.to_string(),
            accept: accept.to_string(),
            destructive: false,
        }
    }

    /// Marks the accepting answer as destructive, or not.
    pub fn set_destructive(&mut self, destructive: bool)
        ensures
            final(self).destructive_spec() == destructive,
            final(self).title_spec() == old(self).title_spec(),
            final(self).message_spec() == old(self).message_spec(),
            final(self).cancel_spec() == old(self).cancel_spec(),
            final(self).accept_spec() == old(self).accept_spec(),
    {
        self.destructive = destructive;
    }

    /// The title.
    pub fn title(&self) -> (r: &String)
        ensures r@ == self.title_spec(),
    {
        &self.title
    }

    /// The question.
    pub fn message(&self) -> (r: &String)
        ensures r@ == self.message_spec(),
    {
        &self.message
    }

    /// The cancelling answer.
    pub fn cancel(&self) -> (r: &String)
        ensures r@ == self.cancel_spec(),
    {
        &self.cancel
    }

    /// The accepting answer.
    pub fn accept(&self) -> (r: &String)
        ensures r@ == self.accept_spec(),
    {
        &self.accept
    }

    /// Whether the accepting answer is destructive.
    pub fn destructive(&self) -> (r: bool)
        ensures r == self.destructive_spec(),
    {
        self.destructive
    }

    /// The result of the dialog from the id of the response chosen: only the
    /// accepting response (`accept`) confirms, anything else cancels.
    pub fn answer(response: &str) -> (r: Result<(), Error>)
        ensures
            r is Ok <==> response@ == "accept"@,
            r matches Err(e) ==> e@ == ErrorView::UserCanceled,
    {
        proof {
            reveal_strlit("accept");
        }
        let cs = chars_of(response);
        let accepted = cs.len() == 6 && cs[0] == 'a' && cs[1] == 'c' && cs[2] == 'c' && cs[3] == 'e'
            && cs[4] == 'p' && cs[5] == 't';
        proof {
            if accepted {
                assert(response@ =~= "accept"@);
            } else if response@ == "accept"@ {
                assert(cs@[0] == 'a' && cs@[1] == 'c' && cs@[2] == 'c' && cs@[3] == 'e' && cs@[4] == 'p' && cs@[5] == 't');
            }
        }
        if accepted { Ok(()) } else { Err(Error::UserCanceled) }
    }
}

/// What the background status says of the running operations, named in the
/// order of their configurations: nothing when none runs, the name of a
/// single one, else their count.
pub open spec fn summary_view(names: Seq<Seq<char>>) -> Option<TextView> {
    if names.len() == 0 {
        None
    } else if names.len() == 1 {
        Some(TextView::Verbatim(names[0]))
    } else {
        Some(TextView::Plural {
            singular: "One Backup Operation Running"@,
            plural: "{} Backup Operations Running"@,
            n: names.len() as u32,
        })
    }
}

/// Summarizes the running operations, given their names in the order of
/// their configurations.
pub fn summarize_operations(names: &Vec<String>) -> (r: Option<Text>)
    ensures
        match r {
            Some(t) => summary_view(names@.map_values(|s: String| s@)) == Some(t@),
            None => summary_view(names@.map_values(|s: String| s@)) is None,
        },
{
    let n = names.len();
    if n == 0 {
        None
    } else if n == 1 {
        Some(Text::Verbatim(names[0].clone()))
    } else {
        Some(Text::plural("One Backup Operation Running", "{} Backup Operations Running", n as u32))
    }
}

/// A backup configuration as far as its stored password goes.
pub struct ConfigRepo {
    pub id: String,
    pub repo_id: String,
}

/// Whether another configuration than `id` uses the repository `repo_id`.
pub open spec fn repo_shared(configs: Seq<ConfigRepo>, id: Seq<char>, repo_id: Seq<char>) -> bool {
    exists|i: int| 0 <= i < configs.len() && #[trigger] configs[i].id@ != id && configs[i].repo_id@ == repo_id
}

/// Whether the stored password of a configuration is to be deleted: when all
/// are to go, or when no other configuration uses the same repository.
pub fn password_removal_needed(configs: &Vec<ConfigRepo>, id: &String, repo_id: &String, remove_all: bool) -> (r: bool)
    ensures
        r == (remove_all || !repo_shared(configs@, id@, repo_id@)),
{
    if remove_all {
        return true;
    }
    let n = configs.len();
    for i in 0..n
        invariant
            n == configs@.len(),
            !remove_all,
            forall|j: int| 0 <= j < i ==> !(#[trigger] configs@[j].id@ != id@ && configs@[j].repo_id@ == repo_id@),
    {
        if configs[i].id != *id && configs[i].repo_id == *repo_id {
            proof {
                assert(configs@[i as int].id@ != id@ && configs@[i as int].repo_id@ == repo_id@);
            }
            return false;
        }
    }
    true
}

/// What is known of a folder that might hold a borg repository.
#[derive(Debug, PartialEq, Eq)]
pub struct RepoProbe {
    /// `data` exists in the folder and is a folder.
    pub data_is_dir: bool,
    /// The text read from the file `config`, if that file could be opened.
    pub config_content: Option<String>,
}

/// Whether a folder is most likely a borg repository: `data/` is a folder,
/// and `config` exists and contains `[repository]`.
pub open spec fn looks_like_repo(p: RepoProbe) -> bool {
    &&& p.data_is_dir
    &&& p.config_content is Some
    &&& contains_seq(p.config_content.unwrap()@, "[repository]"@)
}

/// Decides whether a folder is most likely a borg repository.
pub fn is_backup_repo(p: &RepoProbe) -> (r: bool)
    ensures
        r == looks_like_repo(*p),
{
    if p.data_is_dir {
        if let Some(content) = &p.config_content {
            return contains_str(content.as_str(), "[repository]");
        }
    }
    false
}

/// The id of the backup configuration the interface shows, or the error that
/// there is none.
pub fn try_active_config_id(active: Option<String>) -> (r: Result<String, Error>)
    ensures
        active is None <==> r is Err,
        r matches Ok(id) ==> active == Some(id),
        r matches Err(e) ==> e@ == ErrorView::Message(short_message_view("There is no active backup in the interface."@)),
{
    match active {
        Some(id) => Ok(id),
        None => Err(Error::Message(Message::short("There is no active backup in the interface."))),
    }
}

/// What the dialog about deleting old archives shows.
#[derive(Debug, PartialEq, Eq)]
pub struct PruneInfoDisplay {
    /// How many archives would be deleted.
    pub prune: usize,
    /// How many archives the rules keep.
    pub keep: usize,
    /// How many archives the rules do not touch.
    pub untouched: usize,
    /// Whether the button to delete archives shows.
    pub delete_visible: bool,
    /// The description that replaces the usual one, if any.
    pub description: Option<Text>,
}

/// What the dialog about deleting old archives shows, from how many archives
/// would be deleted and kept out of all of them: with nothing to delete, a
/// dialog that would delete offers no deletion and says so.
pub fn prune_info_display(prune: usize, keep: usize, total: usize, review_only: bool) -> (d: PruneInfoDisplay)
    requires
        prune + keep <= total,
    ensures
        d.prune == prune,
        d.keep == keep,
        d.untouched == total - prune - keep,
        d.delete_visible == !(prune == 0 && !review_only),
        (prune == 0 && !review_only) ==> (d.description matches Some(t)
            && t@ == TextView::Translatable("No archives are selected for deletion with current cleanup rules"@)),
        !(prune == 0 && !review_only) ==> d.description is None,
{
    let untouched = total - prune - keep;
    if prune == 0 && !review_only {
        PruneInfoDisplay {
            prune,
            keep,
            untouched,
            delete_visible: false,
            description: Some(Text::translatable("No archives are selected for deletion with current cleanup rules")),
        }
    } else {
        PruneInfoDisplay { prune, keep, untouched, delete_visible: true, description: None }
    }
}

/// The texts of the dialog about deleting old archives, which either
/// reviews changed rules or deletes archives.
#[derive(Debug, PartialEq, Eq)]
pub struct PruneDialogTexts {
    pub title: Option<Text>,
    pub status: Text,
    pub description: Text,
    pub apply_visible: bool,
    pub delete_visible: bool,
}

/// The texts of the dialog about deleting old archives.
pub fn prune_dialog_texts(review_only: bool) -> (t: PruneDialogTexts)
    ensures
        review_only ==> (t.title matches Some(x) && x@ == TextView::Translatable("Review Changes"@)),
        !review_only ==> t.title is None,
        t.status@ == TextView::Translatable(if review_only {
            "Collecting information about the effect of the changes on old archives"@
        } else {
            "Creating a list of old archives to be approved for deletion"@
        }),
        t.description@ == TextView::Translatable(if review_only {
            "After applying these changes, the next automatic deletion of old archives would have the following consequences."@
        } else {
            "Proceeding with this operation will irretrievably delete some of the archives. The saved data for those specific points in time will no longer be available."@
        }),
        t.apply_visible == review_only,
        t.delete_visible == !review_only,
{
    if review_only {
        PruneDialogTexts {
            title: Some(Text::translatable("Review Changes")),
            status: Text::translatable("Collecting information about the effect of the changes on old archives"),
            description: Text::translatable("After applying these changes, the next automatic deletion of old archives would have the following consequences."),
            apply_visible: true,
            delete_visible: false,
        }
    } else {
        PruneDialogTexts {
            title: None,
            status: Text::translatable("Creating a list of old archives to be approved for deletion"),
            description: Text::translatable("Proceeding with this operation will irretrievably delete some of the archives. The saved data for those specific points in time will no longer be available."),
            apply_visible: false,
            delete_visible: true,
        }
    }
}

/// The label of the check dialog's button, and whether it is destructive.
pub fn check_button_label(repair: bool) -> (r: (Text, bool))
    ensures
        r.0@ == TextView::Translatable(if repair { "Perform Repair"@ } else { "Perform Check"@ }),
        r.1 == repair,
{
    if repair {
        (Text::translatable("Perform Repair"), true)
    } else {
        (Text::translatable("Perform Check"), false)
    }
}

/// The URI schemes of the mounts offered as backup locations.
pub open spec fn listed_scheme(scheme: Seq<char>) -> bool {
    scheme == "file"@ || scheme == "smb"@ || scheme == "sftp"@ || scheme == "ssh"@
}

/// Whether `s` equals the literal `lit`.
fn str_is(s: &str, lit: &str) -> (r: bool)
    ensures
        r == (s@ == lit@),
{
    let a = chars_of(s);
    let b = chars_of(lit);
    if a.len() != b.len() {
        return false;
    }
    let n = a.len();
    for i in 0..n
        invariant
            n == a@.len(),
            n == b@.len(),
            a@ == s@,
            b@ == lit@,
            forall|j: int| 0 <= j < i ==> a@[j] == b@[j],
    {
        if a[i] != b[i] {
            proof {
                assert(a@[i as int] != b@[i as int]);
            }
            return false;
        }
    }
    proof {
        assert(a@ =~= b@);
    }
    true
}

/// Whether a mount with this URI scheme is offered as a backup location.
pub fn is_listed_uri_scheme(scheme: &str) -> (r: bool)
    ensures
        r == listed_scheme(scheme@),
{
    str_is(scheme, "file") || str_is(scheme, "smb") || str_is(scheme, "sftp") || str_is(scheme, "ssh")
}

/// Whether `s` ends with `suffix`.
pub open spec fn ends_with(s: Seq<char>, suffix: Seq<char>) -> bool {
    suffix.len() <= s.len() && s.skip(s.len() - suffix.len()) == suffix
}

/// Whether an archive is incomplete: its name ends in `.checkpoint`.
pub fn is_checkpoint(name: &str) -> (r: bool)
    ensures
        r == ends_with(name@, ".checkpoint"@),
{
    let a = chars_of(name);
    let b = chars_of(".checkpoint");
    let n = a.len();
    let m = b.len();
    if m > n {
        return false;
    }
    let off = n - m;
    for i in 0..m
        invariant
            n == a@.len(),
            m == b@.len(),
            a@ == name@,
            b@ == ".checkpoint"@,
            off == n - m,
            forall|j: int| 0 <= j < i ==> a@[off + j] == b@[j],
    {
        if a[off + i] != b[i] {
            proof {
                assert(a@.skip(off as int)[i as int] != b@[i as int]);
            }
            return false;
        }
    }
    proof {
        assert(a@.skip(off as int) =~= b@);
    }
    true
}

/// The label of an archive prefix: the prefix, or "None" when it is empty.
pub fn archive_prefix_label(prefix: &String) -> (t: Text)
    ensures
        prefix@.len() > 0 ==> t@ == TextView::Verbatim(prefix@),
        prefix@.len() == 0 ==> t@ == TextView::Translatable("None"@),
{
    if chars_of(prefix.as_str()).len() > 0 {
        Text::Verbatim(prefix.clone())
    } else {
        Text::translatable("None")
    }
}

/// The title and subtitle of an included folder's row, given its path
/// relative to the home folder: the home folder itself is named and
/// described.
pub fn include_row_texts(relative_path: &String) -> (r: (Text, Text))
    ensures
        relative_path@.len() == 0 ==> r.0@ == TextView::Translatable("Home"@)
            && r.1@ == TextView::Translatable("Usually contains all personal data"@),
        relative_path@.len() > 0 ==> r.0@ == TextView::Verbatim(relative_path@)
            && r.1@ == TextView::Verbatim(Seq::empty()),
{
    if chars_of(relative_path.as_str()).len() == 0 {
        (Text::translatable("Home"), Text::translatable("Usually contains all personal data"))
    } else {
        let e = Text::Verbatim(String::new());
        proof {
            assert(e@ =~= TextView::Verbatim(Seq::empty()));
        }
        (Text::Verbatim(relative_path.clone()), e)
    }
}

/// How a file chooser failed to give files.
pub enum ChooserFailure {
    /// The user cancelled the chooser.
    Cancelled,
    /// The chooser was dismissed.
    Dismissed,
    /// Any other failure, with its text.
    Failed(String),
}

/// The error a failed file chooser comes to: cancelling or dismissing it is
/// the user's choice, any other failure is shown with its own text.
pub fn chooser_error(failure: ChooserFailure) -> (e: Error)
    ensures
        failure is Cancelled || failure is Dismissed ==> e@ == ErrorView::UserCanceled,
        failure matches ChooserFailure::Failed(t) ==> e@ == ErrorView::Message(MessageView {
            text: TextView::Verbatim(t@),
            secondary_text: TextView::Verbatim(Seq::empty()),
        }),
{
    match failure {
        ChooserFailure::Cancelled | ChooserFailure::Dismissed => Error::UserCanceled,
        ChooserFailure::Failed(t) => {
            let secondary_text = Text::Verbatim(String::new());
            let m = Message { text: Text::Verbatim(t), secondary_text };
            proof {
                assert(m@.secondary_text =~= TextView::Verbatim(Seq::empty()));
            }
            Error::Message(m)
        },
    }
}

/// Checks the choices for a new repository on a local disk: the folder name
/// must be set, then a base folder chosen.
pub fn check_local_location(base_chosen: bool, folder_name: &str) -> (r: Result<(), Error>)
    ensures
        folder_name@.len() == 0 ==> (r matches Err(e) && e@ == ErrorView::Message(message_view(
            "Repository Name Empty"@,
            "The repository folder name must be set"@,
        ))),
        folder_name@.len() > 0 && !base_chosen ==> (r matches Err(e) && e@ == ErrorView::Message(message_view(
            "No Base Folder Selected"@,
            "Select a base folder for the backup repository"@,
        ))),
        folder_name@.len() > 0 && base_chosen ==> r is Ok,
{
    if folder_name.is_empty() {
        Err(Error::Message(Message::new("Repository Name Empty", "The repository folder name must be set")))
    } else if !base_chosen {
        Err(Error::Message(Message::new("No Base Folder Selected", "Select a base folder for the backup repository")))
    } else {
        Ok(())
    }
}

} // verus!
