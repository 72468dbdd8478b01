//! The backup page of a configuration: its buttons, and the question asked
//! before a running operation is stopped.

use vstd::prelude::*;
use crate::borg_ops::Question;
use crate::i18n::{Text, TextView};

verus! {

/// The kind of a running operation, as far as stopping it goes.
#[derive(Clone, Copy, Debug, PartialEq, Eq, Structural)]
pub enum OperationKind {
    /// A backup.
    Create,
    /// The deletion of old archives by the cleanup rules.
    Prune,
    /// The deletion of an archive.
    Delete,
    /// Any other operation.
    Other,
}

/// The question asked before stopping an operation of the given kind.
pub open spec fn stop_question_view(kind: OperationKind) -> (TextView, TextView, TextView) {
    if kind == OperationKind::Create {
        (
            TextView::Translatable("Stop Running Backup?"@),
            TextView::Translatable("The current backup state will be saved. You can continue your backup later by starting it again."@),
            TextView::Translatable("Stop"@),
        )
    } else if kind == OperationKind::Prune || kind == OperationKind::Delete {
        (
            TextView::Translatable("Abort Delete Operation?"@),
            TextView::Translatable("Archives are currently being deleted. Free space will not be reclaimed when aborting."@),
            TextView::Translatable("Abort"@),
        )
    } else {
        (
            TextView::Translatable("Abort Operation?"@),
            TextView::Translatable("An operation is currently being performed. Aborting now will cause any progress made by the operation to be lost."@),
            TextView::Translatable("Abort"@),
        )
    }
}

/// The question asked before the user stops a running operation, if one is
/// asked: an operation already being aborted, or only trying to reconnect,
/// stops at once.
pub fn stop_question(kind: OperationKind, aborting: bool, reconnecting: bool) -> (q: Option<Question>)
    ensures
        (aborting || reconnecting) <==> q is None,
        q matches Some(x) ==> {
            &&& x.title@ == stop_question_view(kind).0
            &&& x.message@ == stop_question_view(kind).1
            &&& x.cancel@ == TextView::Translatable("Continue"@)
            &&& x.accept@ == stop_question_view(kind).2
            &&& !x.destructive
        },
{
    if aborting || reconnecting {
        return None;
    }
    let (title, message, accept) = match kind {
        OperationKind::Create => (
            Text::translatable("Stop Running Backup?"),
            Text::translatable("The current backup state will be saved. You can continue your backup later by starting it again."),
            Text::translatable("Stop"),
        ),
        OperationKind::Prune | OperationKind::Delete => (
            Text::translatable("Abort Delete Operation?"),
            Text::translatable("Archives are currently being deleted. Free space will not be reclaimed when aborting."),
            Text::translatable("Abort"),
        ),
        OperationKind::Other => (
            Text::translatable("Abort Operation?"),
            Text::translatable("An operation is currently being performed. Aborting now will cause any progress made by the operation to be lost."),
            Text::translatable("Abort"),
        ),
    };
    Some(Question { title, message, cancel: Text::translatable("Continue"), accept, destructive: false })
}

/// What the page shows of the backup disk.
#[derive(Clone, Copy, Debug, PartialEq, Eq, Structural)]
pub struct DiskStatus {
    /// The button that ejects the disk shows.
    pub eject_visible: bool,
    /// The note that the disk is disconnected shows.
    pub disconnected_visible: bool,
}

/// What the page shows of the backup disk, from whether an operation runs on
/// the configuration, whether its drive can be ejected and whether it is
/// connected; an unknown answer hides the eject button and the note.
pub fn disk_status(operation_running: bool, ejectable: Option<bool>, connected: Option<bool>) -> (d: DiskStatus)
    ensures
        d.eject_visible == (!operation_running && ejectable == Some(true)),
        d.disconnected_visible == (connected == Some(false)),
{
    let can_eject = match ejectable {
        Some(e) => e,
        None => false,
    };
    let is_connected = match connected {
        Some(c) => c,
        None => true,
    };
    DiskStatus { eject_visible: !operation_running && can_eject, disconnected_visible: !is_connected }
}

/// The buttons of the page while the status display shows a spinner or not.
#[derive(Clone, Copy, Debug, PartialEq, Eq, Structural)]
pub struct RunButtons {
    /// The button that stops the running operation shows.
    pub abort_visible: bool,
    /// The button that starts a backup shows.
    pub backup_visible: bool,
    /// The icon with hints shows.
    pub hint_visible: bool,
}

/// The buttons of the page: while something runs, it can be stopped; else a
/// backup can start.
pub fn run_buttons(running: bool) -> (b: RunButtons)
    ensures
        b.abort_visible == running,
        b.backup_visible == !running,
        b.hint_visible == !running,
{
    RunButtons { abort_visible: running, backup_visible: !running, hint_visible: !running }
}

} // verus!
