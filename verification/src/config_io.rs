//! Reading and writing the configuration files: what becomes of their
//! outcome, and the upgrade of configurations written by older versions.
//!
//! The files themselves are read and written by the caller; an I/O failure
//! reaches this module as the text of the error.

use vstd::prelude::*;
use crate::error::{Error, ErrorView, Message, MessageView};
use crate::i18n::TextView;

verus! {

/// The error reported when an operation failed with the error text `detail`:
/// `text` as the title, the failure's own text as the detail.
pub open spec fn failure_view(text: Seq<char>, detail: Seq<char>) -> ErrorView {
    ErrorView::Message(MessageView { text: TextView::Translatable(text), secondary_text: TextView::Verbatim(detail) })
}

/// Turns the failure of an operation into a message titled `text`, with the
/// failure's text as its detail; a success passes through.
pub fn err_to_msg<T>(outcome: Result<T, String>, text: &str) -> (r: Result<T, Error>)
    ensures
        outcome is Ok <==> r is Ok,
        outcome matches Ok(v) ==> r == Ok::<T, Error>(v),
        outcome matches Err(d) ==> (r matches Err(e) && e@ == failure_view(text@, d@)),
{
    match outcome {
        Ok(v) => Ok(v),
        Err(detail) => Err(Error::Message(Message::with_detail(text, detail))),
    }
}

/// What writing all configuration files comes to: `outcome` is the result of
/// writing the backup configurations and then the histories, stopping at the
/// first failure.
pub fn write_config(outcome: Result<(), String>) -> (r: Result<(), Error>)
    ensures
        outcome is Ok <==> r is Ok,
        outcome matches Err(d) ==> (r matches Err(e)
            && e@ == failure_view("Could not write configuration file."@, d@)),
{
    err_to_msg(outcome, "Could not write configuration file.")
}

/// What loading all configuration files comes to: `outcome` is the result of
/// reading, upgrading and writing back the configurations and histories,
/// stopping at the first failure.
pub fn load_config(outcome: Result<(), String>) -> (r: Result<(), Error>)
    ensures
        outcome is Ok <==> r is Ok,
        outcome matches Err(d) ==> (r matches Err(e)
            && e@ == failure_view("Could not load configuration file."@, d@)),
{
    err_to_msg(outcome, "Could not load configuration file.")
}

/// Whether any configuration is older than the configuration format `version`
/// and must be updated.
pub fn configs_need_update(versions: &Vec<u64>, version: u64) -> (r: bool)
    ensures
        r == exists|i: int| 0 <= i < versions@.len() && #[trigger] versions@[i] < version,
{
    let n = versions.len();
    for i in 0..n
        invariant
            n == versions@.len(),
            forall|j: int| 0 <= j < i ==> !(#[trigger] versions@[j] < version),
    {
        if versions[i] < version {
            return true;
        }
    }
    false
}

/// Raises every configuration version below `version` to it.
pub fn upgrade_config_versions(versions: &mut Vec<u64>, version: u64)
    ensures
        final(versions)@.len() == old(versions)@.len(),
        forall|i: int| 0 <= i < old(versions)@.len() ==> #[trigger] final(versions)@[i]
            == if old(versions)@[i] < version { version } else { old(versions)@[i] },
{
    let n = versions.len();
    for i in 0..n
        invariant
            n == versions@.len(),
            n == old(versions)@.len(),
            forall|j: int| 0 <= j < i ==> #[trigger] versions@[j]
                == if old(versions)@[j] < version { version } else { old(versions)@[j] },
            forall|j: int| i <= j < n ==> #[trigger] versions@[j] == old(versions)@[j],
    {
        if versions[i] < version {
            versions.set(i, version);
        }
    }
}

/// Whether the old configuration file is to be renamed to the new name: when
/// it exists and the new one does not yet.
pub fn config_file_needs_rename(old_exists: bool, new_exists: bool) -> (r: bool)
    ensures
        r == (old_exists && !new_exists),
{
    old_exists && !new_exists
}

} // verus!
