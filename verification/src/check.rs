//! The integrity check of a repository: what is recorded and reported once
//! the check operation has ended.

use vstd::prelude::*;
use crate::error::{Error, ErrorView, Message, MessageView};
use crate::i18n::{Text, TextView};
use crate::text::{join, joined};

verus! {

/// How the check operation ended.
#[derive(Debug, PartialEq, Eq)]
pub enum CheckResult {
    Completed,
    /// The user aborted the check.
    Canceled,
    /// The operation failed; the text is the error as shown to the user.
    Failed(String),
}

/// What the history records of a check.
#[derive(Debug, PartialEq, Eq)]
pub enum CheckRunInfo {
    Aborted,
    /// A repair ran and reported these messages.
    Repair(Vec<String>),
    /// The check reported these problems.
    Error(Vec<String>),
    Success,
}

/// The mathematical value of a [`CheckRunInfo`].
pub enum CheckRunInfoView {
    Aborted,
    Repair(Seq<Seq<char>>),
    Error(Seq<Seq<char>>),
    Success,
}

impl View for CheckRunInfo {
    type V = CheckRunInfoView;

    open spec fn view(&self) -> CheckRunInfoView {
        match self {
            CheckRunInfo::Aborted => CheckRunInfoView::Aborted,
            CheckRunInfo::Repair(m) => CheckRunInfoView::Repair(m@.map_values(|s: String| s@)),
            CheckRunInfo::Error(m) => CheckRunInfoView::Error(m@.map_values(|s: String| s@)),
            CheckRunInfo::Success => CheckRunInfoView::Success,
        }
    }
}

/// What follows the end of a check: the history entry, the result reported
/// to the user, and the notice shown on success.
#[derive(Debug, PartialEq, Eq)]
pub struct CheckOutcome {
    pub run_info: CheckRunInfo,
    pub result: Result<(), Error>,
    pub notice: Option<Text>,
}

/// The messages a check leaves behind: those the operation logged, or, when
/// it failed without logging any, its error.
pub open spec fn check_messages(result: CheckResult, history: Seq<Seq<char>>) -> Seq<Seq<char>> {
    match result {
        CheckResult::Failed(e) => if history.len() == 0 { seq![e@] } else { history },
        _ => history,
    }
}

/// The history entry of a check.
pub open spec fn check_run_info(result: CheckResult, history: Seq<Seq<char>>, repair: bool) -> CheckRunInfoView {
    let messages = check_messages(result, history);
    if result is Canceled {
        CheckRunInfoView::Aborted
    } else if messages.len() > 0 {
        if repair { CheckRunInfoView::Repair(messages) } else { CheckRunInfoView::Error(messages) }
    } else {
        CheckRunInfoView::Success
    }
}

/// The result a check reports: nothing when aborted or clean, else the
/// messages, one per line, under the check's title.
pub open spec fn check_report(result: CheckResult, history: Seq<Seq<char>>) -> Result<(), ErrorView> {
    let messages = check_messages(result, history);
    if result is Canceled || messages.len() == 0 {
        Ok(())
    } else {
        Err(ErrorView::Message(MessageView {
            text: TextView::Translatable("Verify Archives Integrity"@),
            secondary_text: TextView::Verbatim(joined(messages, "\n"@)),
        }))
    }
}

/// The view of a unit result.
pub open spec fn unit_result_view(r: Result<(), Error>) -> Result<(), ErrorView> {
    match r {
        Ok(()) => Ok(()),
        Err(e) => Err(e@),
    }
}

/// Decides what follows the end of a check from how it ended, the messages
/// the operation logged, and whether it was a repair.
pub fn check_outcome(result: &CheckResult, history: Vec<String>, repair: bool) -> (o: CheckOutcome)
    ensures
        o.run_info@ == check_run_info(*result, history@.map_values(|s: String| s@), repair),
        unit_result_view(o.result) == check_report(*result, history@.map_values(|s: String| s@)),
        o.notice is Some <==> check_run_info(*result, history@.map_values(|s: String| s@), repair) is Success,
        o.notice matches Some(t) ==> t@ == TextView::Translatable("Verify archives integrity completed successfully"@),
{
    let ghost h = history@.map_values(|s: String| s@);
    let mut messages = history;
    match result {
        CheckResult::Failed(e) => {
            if messages.len() == 0 {
                messages.push(e.clone());
                proof {
                    assert(messages@.map_values(|s: String| s@) =~= seq![e@]);
                }
            }
        },
        _ => {},
    }
    let ghost ms = messages@.map_values(|s: String| s@);
    proof {
        assert(ms == check_messages(*result, h));
    }
    if let CheckResult::Canceled = result {
        return CheckOutcome { run_info: CheckRunInfo::Aborted, result: Ok(()), notice: None };
    }
    if messages.len() > 0 {
        let detail = join(&messages, "\n");
        let run_info = if repair { CheckRunInfo::Repair(messages) } else { CheckRunInfo::Error(messages) };
        CheckOutcome {
            run_info,
            result: Err(Error::Message(Message::with_detail("Verify Archives Integrity", detail))),
            notice: None,
        }
    } else {
        proof {
            assert(ms.len() == 0);
        }
        CheckOutcome {
            run_info: CheckRunInfo::Success,
            result: Ok(()),
            notice: Some(Text::translatable("Verify archives integrity completed successfully")),
        }
    }
}

/// What a check leaves behind, by how it ended: an aborted check records
/// an abort and reports nothing; a failed one records and reports the
/// messages it logged, or its own error when it logged none; a completed one
/// records and reports what it logged, and succeeds when it logged nothing.
/// A repair records the messages as a repair, a check as errors.
pub proof fn law_check_records_what_was_logged(result: CheckResult, history: Seq<Seq<char>>, repair: bool)
    ensures
        result is Canceled ==> check_run_info(result, history, repair) == CheckRunInfoView::Aborted
            && check_report(result, history) == Ok::<(), ErrorView>(()),
        result matches CheckResult::Failed(e) ==> {
            let logged = if history.len() > 0 { history } else { seq![e@] };
            &&& check_run_info(result, history, repair) == (if repair {
                CheckRunInfoView::Repair(logged)
            } else {
                CheckRunInfoView::Error(logged)
            })
            &&& check_report(result, history) == Err::<(), ErrorView>(ErrorView::Message(MessageView {
                text: TextView::Translatable("Verify Archives Integrity"@),
                secondary_text: TextView::Verbatim(joined(logged, "\n"@)),
            }))
        },
        result is Completed && history.len() == 0 ==> check_run_info(result, history, repair) == CheckRunInfoView::Success
            && check_report(result, history) == Ok::<(), ErrorView>(()),
        result is Completed && history.len() > 0 ==> check_run_info(result, history, repair) == (if repair {
                CheckRunInfoView::Repair(history)
            } else {
                CheckRunInfoView::Error(history)
            })
            && check_report(result, history) == Err::<(), ErrorView>(ErrorView::Message(MessageView {
                text: TextView::Translatable("Verify Archives Integrity"@),
                secondary_text: TextView::Verbatim(joined(history, "\n"@)),
            })),
{
}

} // verus!
