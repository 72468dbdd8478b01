//! Running in the background: the request to keep running, which scheduled
//! backups need inside a sandbox, and the status shown meanwhile.

use vstd::prelude::*;
use crate::error::{Error, ErrorView, Message, MessageView};
use crate::i18n::{Text, TextView};
use crate::text::{ellipsize_end, ellipsized};

verus! {

/// The answer of the background portal to the request.
pub enum BackgroundResponse {
    /// The portal answered with these permissions.
    Answered { run_in_background: bool, auto_start: bool },
    /// The user cancelled the request.
    Cancelled,
    /// The portal failed; the text is the error as shown to the user.
    Failed(String),
}

/// The request was refused: the user cancelled it or withheld a permission.
pub open spec fn background_rejected(r: BackgroundResponse) -> bool {
    match r {
        BackgroundResponse::Answered { run_in_background, auto_start } => !run_in_background || !auto_start,
        BackgroundResponse::Cancelled => true,
        BackgroundResponse::Failed(_) => false,
    }
}

/// What follows the portal's answer: `Ok` when the monitor process is to be
/// started, else the error reported to the user.
pub open spec fn background_outcome(r: BackgroundResponse) -> Result<(), ErrorView> {
    if background_rejected(r) {
        Err(ErrorView::Message(MessageView {
            text: TextView::Translatable("Run in background disabled"@),
            secondary_text: TextView::Translatable("Scheduled backup functionality and continuing backups in the background will not be available. The “run in background” option can be enabled via the system settings."@),
        }))
    } else {
        match r {
            BackgroundResponse::Failed(e) => Err(ErrorView::Message(MessageView {
                text: TextView::Translatable("Request to run in background failed"@),
                secondary_text: TextView::Concat(
                    Box::new(TextView::Translatable("The system does not support running Pika Backup in the background. Scheduled backup functionality and continuing backups in the background will not be available. This is either a malfunction, misconfiguration or other issue with the xdg-desktop-portal. Please report this issue in your distribution issue tracker."@)),
                    Box::new(TextView::Verbatim("\n\n"@ + e@)),
                ),
            })),
            _ => Ok(()),
        }
    }
}

/// The view of a unit result.
pub open spec fn unit_view(r: Result<(), Error>) -> Result<(), ErrorView> {
    match r {
        Ok(()) => Ok(()),
        Err(e) => Err(e@),
    }
}

/// Decides from the portal's answer whether the monitor process starts, or
/// which error the user sees.
pub fn background_request_outcome(response: &BackgroundResponse) -> (r: Result<(), Error>)
    ensures
        unit_view(r) == background_outcome(*response),
{
    let rejected = match response {
        BackgroundResponse::Answered { run_in_background, auto_start } => !*run_in_background || !*auto_start,
        BackgroundResponse::Cancelled => true,
        BackgroundResponse::Failed(_) => false,
    };
    if rejected {
        return Err(Error::Message(Message::new(
            "Run in background disabled",
            "Scheduled backup functionality and continuing backups in the background will not be available. The “run in background” option can be enabled via the system settings.",
        )));
    }
    match response {
        BackgroundResponse::Failed(e) => {
            let mut detail = String::from_str("\n\n");
            detail.append(e.as_str());
            Err(Error::Message(Message {
                text: Text::translatable("Request to run in background failed"),
                secondary_text: Text::concat(
                    Text::translatable("The system does not support running Pika Backup in the background. Scheduled backup functionality and continuing backups in the background will not be available. This is either a malfunction, misconfiguration or other issue with the xdg-desktop-portal. Please report this issue in your distribution issue tracker."),
                    Text::Verbatim(detail),
                ),
            }))
        },
        _ => Ok(()),
    }
}

/// The most characters the background status shows.
pub const STATUS_MAX_CHARS: usize = 96;

/// The background status while nothing else is to be said of the running
/// operations: the summary of them, or "Idle".
pub fn activity_text(summary: Option<Text>) -> (t: Text)
    ensures
        summary matches Some(s) ==> t@ == s@,
        summary is None ==> t@ == TextView::Translatable("Idle"@),
{
    match summary {
        Some(s) => s,
        None => Text::translatable("Idle"),
    }
}

/// The new background status from the message to show and the status shown
/// last: the message shortened to at most 96 characters, and whether it
/// differs from the last one, which alone makes it worth sending.
pub fn status_update(message: &str, last: &Option<String>) -> (r: (String, bool))
    ensures
        r.0@ == ellipsized(message@, STATUS_MAX_CHARS),
        r.1 == !(last matches Some(l) && l@ == r.0@),
{
    let text = ellipsize_end(message, STATUS_MAX_CHARS);
    let changed = match last {
        Some(l) => !(*l == text),
        None => true,
    };
    (text, changed)
}

} // verus!
