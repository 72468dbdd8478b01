//! Making a repository available: finding, mounting and ejecting the device
//! it lives on.

use vstd::prelude::*;
use crate::error::{short_message_view, Error, ErrorView, Message, MessageView};
use crate::i18n::{chars_of, Text, TextView};

verus! {

/// Where the volume holding a removable repository stands.
#[derive(Clone, Copy, Debug, PartialEq, Eq, Structural)]
pub enum VolumeState {
    /// No connected volume holds the repository.
    Missing,
    /// The volume is connected but not mounted.
    Unmounted,
    /// The volume is mounted.
    Mounted,
}

/// What is known of a repository's location.
#[derive(Clone, Copy, Debug, PartialEq, Eq, Structural)]
pub enum RepoPlace {
    Local {
        /// The location holds a borg repository now.
        is_repo: bool,
        /// The location is reached through a FUSE mount of a URI.
        fuse_uri: bool,
        /// The location is on a removable drive.
        removable: bool,
        volume: VolumeState,
    },
    Remote,
}

/// What to do to make a repository available.
#[derive(Clone, Copy, Debug, PartialEq, Eq, Structural)]
pub enum AvailabilityAction {
    /// Nothing: the repository is there, remote, or cannot be helped.
    Nothing,
    /// Mount the volume enclosing the repository's URI.
    MountEnclosing,
    /// Use the volume's mount point as the repository's new place.
    UseMount,
    /// Mount the volume, then use its mount point.
    MountVolume,
    /// Ask the user to connect the device, then use its mount point.
    AskForDevice,
}

/// What is done to make a repository available: a local repository that is
/// not there is mounted through its URI if it has one; on a removable drive
/// its volume is used if mounted, mounted if connected, and asked for if
/// missing.
pub open spec fn availability_action(p: RepoPlace) -> AvailabilityAction {
    match p {
        RepoPlace::Remote => AvailabilityAction::Nothing,
        RepoPlace::Local { is_repo, fuse_uri, removable, volume } => {
            if is_repo {
                AvailabilityAction::Nothing
            } else if fuse_uri {
                AvailabilityAction::MountEnclosing
            } else if removable {
                match volume {
                    VolumeState::Mounted => AvailabilityAction::UseMount,
                    VolumeState::Unmounted => AvailabilityAction::MountVolume,
                    VolumeState::Missing => AvailabilityAction::AskForDevice,
                }
            } else {
                AvailabilityAction::Nothing
            }
        },
    }
}

/// Decides how to make a repository available.
pub fn ensure_repo_available(p: &RepoPlace) -> (a: AvailabilityAction)
    ensures
        a == availability_action(*p),
{
    match p {
        RepoPlace::Remote => AvailabilityAction::Nothing,
        RepoPlace::Local { is_repo, fuse_uri, removable, volume } => {
            if *is_repo {
                AvailabilityAction::Nothing
            } else if *fuse_uri {
                AvailabilityAction::MountEnclosing
            } else if *removable {
                match volume {
                    VolumeState::Mounted => AvailabilityAction::UseMount,
                    VolumeState::Unmounted => AvailabilityAction::MountVolume,
                    VolumeState::Missing => AvailabilityAction::AskForDevice,
                }
            } else {
                AvailabilityAction::Nothing
            }
        },
    }
}

/// After mounting the volume: its mount point is used, and a volume that
/// still has none makes the repository unavailable.
pub fn after_volume_mount(has_mount: bool) -> (r: Result<(), Error>)
    ensures
        r is Ok <==> has_mount,
        r matches Err(e) ==> e@ == ErrorView::Message(short_message_view("Failed to Mount"@)),
{
    if has_mount { Ok(()) } else { Err(Error::Message(Message::short("Failed to Mount"))) }
}

/// Whether the user must be asked to plug in the device: a local repository
/// on a removable drive whose volume is missing.
pub fn ensure_device_plugged_in(p: &RepoPlace) -> (ask: bool)
    ensures
        ask == (*p matches RepoPlace::Local { removable, volume, .. } && removable && volume == VolumeState::Missing),
{
    match p {
        RepoPlace::Local { removable, volume, .. } => *removable && *volume == VolumeState::Missing,
        RepoPlace::Remote => false,
    }
}

/// The lower-case form of an ASCII letter; other characters as they are.
pub open spec fn ascii_lower(c: char) -> char {
    if 'A' <= c <= 'Z' { ((c as u32) + 32) as char } else { c }
}

/// A text with its ASCII letters in lower case.
pub open spec fn ascii_lowercase(s: Seq<char>) -> Seq<char> {
    s.map_values(|c: char| ascii_lower(c))
}

/// Whether a URI scheme names SMB, ignoring ASCII case.
pub fn is_smb_scheme(scheme: &str) -> (r: bool)
    ensures
        r == (ascii_lowercase(scheme@) == "smb"@),
{
    proof {
        reveal_strlit("smb");
    }
    let cs = chars_of(scheme);
    if cs.len() != 3 {
        proof {
            assert(ascii_lowercase(scheme@).len() != "smb"@.len());
        }
        return false;
    }
    let r = (cs[0] == 's' || cs[0] == 'S') && (cs[1] == 'm' || cs[1] == 'M') && (cs[2] == 'b' || cs[2] == 'B');
    proof {
        let l = ascii_lowercase(scheme@);
        assert(l[0] == ascii_lower(cs@[0]));
        assert(l[1] == ascii_lower(cs@[1]));
        assert(l[2] == ascii_lower(cs@[2]));
        if r {
            assert(l =~= "smb"@);
        } else {
            if l == "smb"@ {
                assert(l[0] == 's' && l[1] == 'm' && l[2] == 'b');
            }
        }
    }
    r
}

/// How mounting the volume enclosing a location failed.
#[derive(Clone, Copy, Debug, PartialEq, Eq, Structural)]
pub enum MountFailure {
    AlreadyMounted,
    /// The user dismissed the mount operation.
    FailedHandled,
    Failed,
    InvalidArgument,
    Other,
}

/// The result of mounting the volume enclosing a location, from the failure
/// (if any), its error text, and the location's URI scheme: being mounted
/// already is no failure, a dismissed operation is a cancellation, and SMB's
/// vague failures mean an unreachable server.
pub open spec fn mount_outcome(failure: Option<MountFailure>, error: Seq<char>, scheme: Seq<char>) -> Result<(), ErrorView> {
    match failure {
        None => Ok(()),
        Some(MountFailure::AlreadyMounted) => Ok(()),
        Some(MountFailure::FailedHandled) => Err(ErrorView::UserCanceled),
        Some(f) => if (f == MountFailure::Failed || f == MountFailure::InvalidArgument)
            && ascii_lowercase(scheme) == "smb"@ {
            Err(ErrorView::Message(MessageView {
                text: TextView::Translatable("Failed to Mount"@),
                secondary_text: TextView::Translatable("The network server is not available"@),
            }))
        } else {
            Err(ErrorView::Message(MessageView {
                text: TextView::Translatable("Failed to Mount"@),
                secondary_text: TextView::Verbatim(error),
            }))
        },
    }
}

/// The view of a unit result.
pub open spec fn unit_view(r: Result<(), Error>) -> Result<(), ErrorView> {
    match r {
        Ok(()) => Ok(()),
        Err(e) => Err(e@),
    }
}

/// Decides the result of mounting the volume enclosing a location.
pub fn mount_enclosing_result(failure: Option<MountFailure>, error: String, scheme: &str) -> (r: Result<(), Error>)
    ensures
        unit_view(r) == mount_outcome(failure, error@, scheme@),
{
    match failure {
        None => Ok(()),
        Some(MountFailure::AlreadyMounted) => Ok(()),
        Some(MountFailure::FailedHandled) => Err(Error::UserCanceled),
        Some(f) => {
            if (f == MountFailure::Failed || f == MountFailure::InvalidArgument) && is_smb_scheme(scheme) {
                Err(Error::Message(Message::new("Failed to Mount", "The network server is not available")))
            } else {
                Err(Error::Message(Message::with_detail("Failed to Mount", error)))
            }
        },
    }
}

/// The drive holding a backup disk, as far as ejecting it goes.
#[derive(Debug, PartialEq, Eq)]
pub enum EjectTarget {
    /// No volume of the backup disk was found.
    NoVolume,
    /// The volume, with this name, has no drive that can be ejected.
    NotEjectable { volume_name: String },
    /// The drive, with this name, can be ejected; `can_stop` tells whether it
    /// can be stopped, which is preferred.
    Drive { drive_name: String, can_stop: bool },
}

/// How to eject a backup disk.
#[derive(Debug, PartialEq, Eq)]
pub enum EjectPlan {
    /// Nothing to do.
    Nothing,
    /// The disk cannot be ejected: report this error.
    Refuse(Error),
    /// Stop the drive.
    Stop,
    /// Eject the drive.
    Eject,
}

/// Decides how to eject a backup disk: a drive that can be stopped is
/// stopped, else ejected; a volume without an ejectable drive is refused.
pub fn eject_plan(target: &EjectTarget) -> (p: EjectPlan)
    ensures
        *target is NoVolume ==> p is Nothing,
        *target matches EjectTarget::NotEjectable { volume_name } ==> (p matches EjectPlan::Refuse(e) && e@ == ErrorView::Message(MessageView {
            text: TextView::Translatable("Unable to Eject Backup Disk"@),
            secondary_text: TextView::Format { msgid: "{} can't be ejected."@, args: seq![volume_name@] },
        })),
        *target matches EjectTarget::Drive { can_stop, .. } ==> (if can_stop { p is Stop } else { p is Eject }),
{
    match target {
        EjectTarget::NoVolume => EjectPlan::Nothing,
        EjectTarget::NotEjectable { volume_name } => {
            let args = vec![volume_name.clone()];
            let secondary_text = Text::format("{} can't be ejected.", args);
            proof {
                assert(args@.map_values(|a: String| a@) =~= seq![volume_name@]);
            }
            EjectPlan::Refuse(Error::Message(Message {
                text: Text::translatable("Unable to Eject Backup Disk"),
                secondary_text,
            }))
        },
        EjectTarget::Drive { can_stop, .. } => if *can_stop { EjectPlan::Stop } else { EjectPlan::Eject },
    }
}

/// How stopping or ejecting the drive ended.
pub enum EjectResult {
    Done,
    /// The user dismissed the operation.
    Dismissed,
    /// It failed; the text is the error as shown to the user.
    Failed(String),
}

/// What follows stopping or ejecting the drive named `drive_name`: on
/// success the notice that it can be unplugged, a dismissed operation ends
/// quietly, a failure is reported.
pub fn after_eject(result: &EjectResult, drive_name: &String) -> (r: Result<Option<Text>, Error>)
    ensures
        *result is Done ==> (r matches Ok(Some(t)) && t@ == (TextView::Format {
            msgid: "{} can be safely unplugged."@,
            args: seq![drive_name@],
        })),
        *result is Dismissed ==> r matches Ok(None),
        *result matches EjectResult::Failed(e) ==> (r matches Err(x) && x@ == ErrorView::Message(MessageView {
            text: TextView::Translatable("Unable to Eject Backup Disk"@),
            secondary_text: TextView::Verbatim(e@),
        })),
{
    match result {
        EjectResult::Done => {
            let args = vec![drive_name.clone()];
            proof {
                assert(args@.map_values(|a: String| a@) =~= seq![drive_name@]);
            }
            Ok(Some(Text::format("{} can be safely unplugged.", args)))
        },
        EjectResult::Dismissed => Ok(None),
        EjectResult::Failed(e) => Err(Error::Message(Message::with_detail("Unable to Eject Backup Disk", e.clone()))),
    }
}

} // verus!
