//! The decisions around running a borg operation: the repository lock, the
//! encryption password, mounted archives, and running operations.

use vstd::prelude::*;
use crate::error::{Error, ErrorView, Message, MessageView};
use crate::i18n::{Text, TextView};

verus! {

/// A running operation: the repository it works on and its name.
#[derive(Debug, PartialEq, Eq)]
pub struct OperationInfo {
    pub repo_id: String,
    pub name: String,
}

/// The index of the first operation working on `repo_id`, if any.
pub open spec fn first_on_repo(ops: Seq<OperationInfo>, repo_id: Seq<char>, from: int) -> Option<int>
    decreases ops.len() - from,
{
    if from < 0 || from >= ops.len() {
        None
    } else if ops[from].repo_id@ == repo_id {
        Some(from)
    } else {
        first_on_repo(ops, repo_id, from + 1)
    }
}

/// Whether a new operation on `repo_id` may start: not while another
/// operation works on the repository, whose name the error then gives.
pub open spec fn repository_free(ops: Seq<OperationInfo>, repo_id: Seq<char>) -> Result<(), ErrorView> {
    match first_on_repo(ops, repo_id, 0) {
        None => Ok(()),
        Some(i) => Err(ErrorView::Message(MessageView {
            text: TextView::Translatable("Repository already in use"@),
            secondary_text: TextView::Verbatim(ops[i].name@),
        })),
    }
}

/// The view of a unit result.
pub open spec fn unit_view(r: Result<(), Error>) -> Result<(), ErrorView> {
    match r {
        Ok(()) => Ok(()),
        Err(e) => Err(e@),
    }
}

/// Checks that no running operation, in the order given, works on `repo_id`.
pub fn check_repository_free(ops: &Vec<OperationInfo>, repo_id: &String) -> (r: Result<(), Error>)
    ensures
        unit_view(r) == repository_free(ops@, repo_id@),
{
    let n = ops.len();
    for i in 0..n
        invariant
            n == ops@.len(),
            first_on_repo(ops@, repo_id@, 0) == first_on_repo(ops@, repo_id@, i as int),
    {
        if ops[i].repo_id == *repo_id {
            return Err(Error::Message(Message::with_detail("Repository already in use", ops[i].name.clone())));
        }
    }
    Ok(())
}

/// One entry of the registry of running operations: the configuration that
/// started it, and the operation.
pub open spec fn entry(ids: Seq<String>, ops: Seq<OperationInfo>, i: int) -> (Seq<char>, OperationInfo) {
    (ids[i]@, ops[i])
}

/// The entries held by two lists of equal length, in order.
pub open spec fn entries_of(ids: Seq<String>, ops: Seq<OperationInfo>) -> Seq<(Seq<char>, OperationInfo)> {
    Seq::new(ids.len(), |i: int| entry(ids, ops, i))
}

/// `entries` without those of the configuration `id`, in order.
pub open spec fn without_config(entries: Seq<(Seq<char>, OperationInfo)>, id: Seq<char>) -> Seq<(Seq<char>, OperationInfo)>
    decreases entries.len(),
{
    if entries.len() == 0 {
        Seq::empty()
    } else {
        let rest = without_config(entries.drop_last(), id);
        if entries.last().0 != id { rest.push(entries.last()) } else { rest }
    }
}

/// The operations of some entries, in order.
pub open spec fn operations_of(entries: Seq<(Seq<char>, OperationInfo)>) -> Seq<OperationInfo> {
    entries.map_values(|e: (Seq<char>, OperationInfo)| e.1)
}

/// The running borg operations, each under the configuration that started
/// it; at most one per configuration.
pub struct OperationRegistry {
    config_ids: Vec<String>,
    ops: Vec<OperationInfo>,
}

impl OperationRegistry {
    /// Each operation has its configuration.
    pub closed spec fn well_formed(&self) -> bool {
        self.config_ids@.len() == self.ops@.len()
    }

    /// The entries, in the order the operations were registered.
    pub closed spec fn entries(&self) -> Seq<(Seq<char>, OperationInfo)> {
        entries_of(self.config_ids@, self.ops@)
    }

    /// No operation runs.
    pub fn new() -> (r: OperationRegistry)
        ensures
            r.well_formed(),
            r.entries() == Seq::<(Seq<char>, OperationInfo)>::empty(),
    {
        let r = OperationRegistry { config_ids: Vec::new(), ops: Vec::new() };
        proof {
            assert(r.entries() =~= Seq::<(Seq<char>, OperationInfo)>::empty());
        }
        r
    }

    /// The running operations, in the order they were registered.
    pub fn operations(&self) -> (r: &Vec<OperationInfo>)
        requires
            self.well_formed(),
        ensures
            r@ == operations_of(self.entries()),
    {
        proof {
            assert(self.ops@ =~= operations_of(self.entries()));
        }
        &self.ops
    }

    /// Ends the registration of the operation of the configuration `config_id`.
    pub fn remove(&mut self, config_id: &String)
        requires
            old(self).well_formed(),
        ensures
            final(self).well_formed(),
            final(self).entries() == without_config(old(self).entries(), config_id@),
    {
        let mut rest = OperationRegistry::new();
        std::mem::swap(self, &mut rest);
        let ghost all = rest.entries();
        let n = rest.config_ids.len();
        let mut ids: Vec<String> = Vec::new();
        let mut ops: Vec<OperationInfo> = Vec::new();
        let mut k: usize = 0;
        while k < n
            invariant
                k <= n,
                n == all.len(),
                rest.config_ids@.len() == rest.ops@.len(),
                rest.config_ids@.len() == n - k,
                entries_of(rest.config_ids@, rest.ops@) == all.skip(k as int),
                ids@.len() == ops@.len(),
                entries_of(ids@, ops@) == without_config(all.take(k as int), config_id@),
            decreases n - k,
        {
            let ghost before_rest = entries_of(rest.config_ids@, rest.ops@);
            let ghost before = entries_of(ids@, ops@);
            let ghost old_ids = rest.config_ids@;
            let ghost old_ops = rest.ops@;
            let id = rest.config_ids.remove(0);
            let op = rest.ops.remove(0);
            proof {
                assert(before_rest[0] == all[k as int]);
                assert forall|j: int| 0 <= j < rest.config_ids@.len() implies
                    #[trigger] entries_of(rest.config_ids@, rest.ops@)[j] == all.skip(k + 1)[j] by {
                    assert(rest.config_ids@[j] == old_ids[j + 1]);
                    assert(rest.ops@[j] == old_ops[j + 1]);
                    assert(before_rest[j + 1] == all.skip(k as int)[j + 1]);
                }
                assert(entries_of(rest.config_ids@, rest.ops@) =~= all.skip(k + 1));
                assert(all.take(k + 1).drop_last() =~= all.take(k as int));
                assert(all.take(k + 1).last() == (id@, op));
            }
            if id != *config_id {
                ids.push(id);
                ops.push(op);
                proof {
                    assert(entries_of(ids@, ops@) =~= before.push(all[k as int]));
                }
            }
            k = k + 1;
        }
        proof {
            assert(all.take(n as int) =~= all);
        }
        *self = OperationRegistry { config_ids: ids, ops };
    }

    /// Registers `op`, started by the configuration `config_id`, unless
    /// another operation works on its repository; the error then names that
    /// operation, as [`check_repository_free`] does, and nothing changes. A
    /// registration replaces an earlier one of the same configuration.
    pub fn register(&mut self, config_id: String, op: OperationInfo) -> (r: Result<(), Error>)
        requires
            old(self).well_formed(),
        ensures
            final(self).well_formed(),
            unit_view(r) == repository_free(operations_of(old(self).entries()), op.repo_id@),
            r is Ok ==> final(self).entries() == without_config(old(self).entries(), config_id@).push((config_id@, op)),
            r is Err ==> final(self).entries() == old(self).entries(),
    {
        let free = check_repository_free(self.operations(), &op.repo_id);
        match free {
            Err(e) => Err(e),
            Ok(()) => {
                self.remove(&config_id);
                let mut rest = OperationRegistry::new();
                std::mem::swap(self, &mut rest);
                let ghost before = rest.entries();
                let mut ids = rest.config_ids;
                let mut ops = rest.ops;
                let ghost id_view = config_id@;
                let ghost op_copy = op;
                ids.push(config_id);
                ops.push(op);
                proof {
                    assert(entries_of(ids@, ops@) =~= before.push((id_view, op_copy)));
                }
                *self = OperationRegistry { config_ids: ids, ops };
                Ok(())
            },
        }
    }
}

/// A confirmation the user is asked for.
#[derive(Debug, PartialEq, Eq)]
pub struct Question {
    pub title: Text,
    pub message: Text,
    pub cancel: Text,
    pub accept: Text,
    pub destructive: bool,
}

/// The question asked before an operation on a repository whose archives are
/// being browsed: a backup has its own wording.
pub fn unmount_question(is_backup: bool) -> (q: Question)
    ensures
        q.title@ == TextView::Translatable(if is_backup {
            "Stop browsing files and start backup?"@
        } else {
            "Stop browsing files and start operation?"@
        }),
        q.message@ == TextView::Translatable(if is_backup {
            "Browsing through archived files is not possible while running a backup."@
        } else {
            "Browsing through archived files is not possible while running an operation on the repository."@
        }),
        q.cancel@ == TextView::Translatable("Keep Browsing"@),
        q.accept@ == TextView::Translatable(if is_backup { "Start Backup"@ } else { "Start Operation"@ }),
        !q.destructive,
{
    if is_backup {
        Question {
            title: Text::translatable("Stop browsing files and start backup?"),
            message: Text::translatable("Browsing through archived files is not possible while running a backup."),
            cancel: Text::translatable("Keep Browsing"),
            accept: Text::translatable("Start Backup"),
            destructive: false,
        }
    } else {
        Question {
            title: Text::translatable("Stop browsing files and start operation?"),
            message: Text::translatable("Browsing through archived files is not possible while running an operation on the repository."),
            cancel: Text::translatable("Keep Browsing"),
            accept: Text::translatable("Start Operation"),
            destructive: false,
        }
    }
}

/// The question asked before breaking the lock of a repository marked as in
/// use: a destructive confirmation.
pub fn break_lock_question() -> (q: Question)
    ensures
        q.title@ == TextView::Translatable("Repository already in use."@),
        q.message@ == TextView::Concat(
            Box::new(TextView::Translatable("The backup repository is marked as already in use. This information can be outdated if, for example, the computer lost power while using the repository."@)),
            Box::new(TextView::Concat(
                Box::new(TextView::Verbatim("\n\n"@)),
                Box::new(TextView::Translatable("Only continue if it is certain that the repository is not used by any program! Continuing while another program uses the repository might corrupt backup data!"@)),
            )),
        ),
        q.cancel@ == TextView::Translatable("Cancel"@),
        q.accept@ == TextView::Translatable("Continue Anyway"@),
        q.destructive,
{
    Question {
        title: Text::translatable("Repository already in use."),
        message: Text::concat(
            Text::translatable("The backup repository is marked as already in use. This information can be outdated if, for example, the computer lost power while using the repository."),
            Text::concat(
                Text::verbatim("\n\n"),
                Text::translatable("Only continue if it is certain that the repository is not used by any program! Continuing while another program uses the repository might corrupt backup data!"),
            ),
        ),
        cancel: Text::translatable("Cancel"),
        accept: Text::translatable("Continue Anyway"),
        destructive: true,
    }
}

/// How a borg run ended.
pub enum RunOutcome {
    Succeeded,
    /// The repository needs a password and none was known; the keyring may
    /// have reported an error.
    PasswordMissing { keyring_error: Option<String> },
    PassphraseWrong,
    /// The repository's lock could not be taken in time.
    LockTimeout,
    /// Any other failure.
    OtherFailure,
}

/// What follows a borg run.
#[derive(Debug, PartialEq, Eq)]
pub enum RunStep {
    /// Ask whether to break the lock, and run again if so.
    HandleLock,
    /// Ask the user for the password, showing the keyring error if any, and
    /// run again with it.
    AskPassword { keyring_error: Option<String> },
    /// The run is over; store the password the user entered if asked to.
    Finish { store_password: bool },
}

/// The mathematical value of a [`RunStep`].
pub enum RunStepView {
    HandleLock,
    AskPassword { keyring_error: Option<Seq<char>> },
    Finish { store_password: bool },
}

impl View for RunStep {
    type V = RunStepView;

    open spec fn view(&self) -> RunStepView {
        match self {
            RunStep::HandleLock => RunStepView::HandleLock,
            RunStep::AskPassword { keyring_error } => RunStepView::AskPassword {
                keyring_error: match keyring_error {
                    Some(e) => Some(e@),
                    None => None,
                },
            },
            RunStep::Finish { store_password } => RunStepView::Finish { store_password: *store_password },
        }
    }
}

/// What follows a borg run: a lock timeout asks to break the lock; a missing
/// or wrong password asks for it; any other end finishes, storing the
/// password when the user entered one and it is at hand with the
/// configuration it belongs to.
pub open spec fn run_step(outcome: RunOutcome, password_changed: bool, password_known: bool, config_known: bool) -> RunStepView {
    match outcome {
        RunOutcome::LockTimeout => RunStepView::HandleLock,
        RunOutcome::PasswordMissing { keyring_error } => RunStepView::AskPassword {
            keyring_error: match keyring_error {
                Some(e) => Some(e@),
                None => None,
            },
        },
        RunOutcome::PassphraseWrong => RunStepView::AskPassword { keyring_error: None },
        _ => RunStepView::Finish { store_password: password_changed && password_known && config_known },
    }
}

/// Decides what follows a borg run.
pub fn next_run_step(outcome: &RunOutcome, password_changed: bool, password_known: bool, config_known: bool) -> (s: RunStep)
    ensures
        s@ == run_step(*outcome, password_changed, password_known, config_known),
{
    match outcome {
        RunOutcome::LockTimeout => RunStep::HandleLock,
        RunOutcome::PasswordMissing { keyring_error } => RunStep::AskPassword {
            keyring_error: match keyring_error {
                Some(e) => Some(e.clone()),
                None => None,
            },
        },
        RunOutcome::PassphraseWrong => RunStep::AskPassword { keyring_error: None },
        _ => RunStep::Finish { store_password: password_changed && password_known && config_known },
    }
}

/// The answer to the password dialog: a password runs the operation again,
/// none cancels it.
pub fn after_password_dialog(password_given: bool) -> (r: Result<(), Error>)
    ensures
        password_given <==> r is Ok,
        r matches Err(e) ==> e@ == ErrorView::UserCanceled,
{
    if password_given { Ok(()) } else { Err(Error::UserCanceled) }
}

/// How storing the password in the keyring went.
#[derive(Clone, Copy, Debug, PartialEq, Eq, Structural)]
pub enum StoreOutcome {
    Stored,
    /// The keyring reported an error message.
    Failed,
    /// The user dismissed the keyring.
    Canceled,
}

/// What follows storing a newly entered password.
#[derive(Clone, Copy, Debug, PartialEq, Eq, Structural)]
pub struct AfterStore {
    /// Keep the password in memory, as the keyring could not take it.
    pub use_memory_store: bool,
    /// The repository turned out to be encrypted: record that in the
    /// configuration and save it.
    pub mark_encrypted: bool,
}

/// After a newly entered password was stored: a keyring error falls back to
/// the memory store, and a configuration that believed its repository
/// unencrypted, and is known by id, is corrected.
pub fn after_password_store(store: StoreOutcome, encrypted: bool, config_id_known: bool) -> (a: AfterStore)
    ensures
        a.use_memory_store == (store == StoreOutcome::Failed),
        a.mark_encrypted == (!encrypted && config_id_known),
{
    AfterStore {
        use_memory_store: match store {
            StoreOutcome::Failed => true,
            _ => false,
        },
        mark_encrypted: !encrypted && config_id_known,
    }
}

/// A repository marked as mounted by this application, and whether it is
/// still mounted.
pub struct MountState {
    pub repo_id: String,
    pub mounted: bool,
}

/// What to change in the registry of mounted repositories.
#[derive(Debug, PartialEq, Eq)]
pub struct MountChanges {
    /// Registered mounts that are gone and are to be unmounted.
    pub unmount: Vec<String>,
    /// Configured repositories found mounted but not registered.
    pub register: Vec<String>,
}

/// The ids of the states that are no longer mounted, in order.
pub open spec fn gone_ids(states: Seq<MountState>) -> Seq<Seq<char>>
    decreases states.len(),
{
    if states.len() == 0 {
        Seq::empty()
    } else {
        let rest = gone_ids(states.drop_last());
        if !states.last().mounted { rest.push(states.last().repo_id@) } else { rest }
    }
}

/// The ids of the states that are mounted but not among `active`, in order.
pub open spec fn found_ids(states: Seq<MountState>, active: Seq<MountState>) -> Seq<Seq<char>>
    decreases states.len(),
{
    if states.len() == 0 {
        Seq::empty()
    } else {
        let rest = found_ids(states.drop_last(), active);
        if states.last().mounted && !registered(active, states.last().repo_id@) {
            rest.push(states.last().repo_id@)
        } else {
            rest
        }
    }
}

/// Whether `id` is among the registered mounts.
pub open spec fn registered(active: Seq<MountState>, id: Seq<char>) -> bool {
    exists|i: int| 0 <= i < active.len() && #[trigger] active[i].repo_id@ == id
}

/// Reconciles the registered mounts with the system: registered mounts that
/// are gone are unmounted, and configured repositories that are mounted but
/// not registered (left over by an earlier run) are registered.
pub fn reconcile_mounts(active: &Vec<MountState>, configured: &Vec<MountState>) -> (c: MountChanges)
    ensures
        c.unmount@.map_values(|s: String| s@) == gone_ids(active@),
        c.register@.map_values(|s: String| s@) == found_ids(configured@, active@),
{
    let mut unmount: Vec<String> = Vec::new();
    let n = active.len();
    for i in 0..n
        invariant
            n == active@.len(),
            unmount@.map_values(|s: String| s@) == gone_ids(active@.take(i as int)),
    {
        proof {
            assert(active@.take(i + 1).drop_last() =~= active@.take(i as int));
        }
        let ghost before = unmount@;
        proof {
            assert(active@.take(i + 1).last() == active@[i as int]);
        }
        if !active[i].mounted {
            let id = active[i].repo_id.clone();
            unmount.push(id);
            proof {
                assert(unmount@.map_values(|s: String| s@) =~= before.map_values(|s: String| s@).push(id@));
            }
        }
        proof {
            assert(unmount@.map_values(|s: String| s@) =~= gone_ids(active@.take(i + 1)));
        }
    }
    proof {
        assert(active@.take(n as int) =~= active@);
    }
    let mut register: Vec<String> = Vec::new();
    let m = configured.len();
    for j in 0..m
        invariant
            m == configured@.len(),
            n == active@.len(),
            register@.map_values(|s: String| s@) == found_ids(configured@.take(j as int), active@),
    {
        proof {
            assert(configured@.take(j + 1).drop_last() =~= configured@.take(j as int));
        }
        let ghost before = register@;
        proof {
            assert(configured@.take(j + 1).last() == configured@[j as int]);
        }
        if configured[j].mounted {
            let mut known = false;
            for k in 0..n
                invariant
                    n == active@.len(),
                    j < configured@.len(),
                    known <==> exists|x: int| 0 <= x < k && #[trigger] active@[x].repo_id@ == configured@[j as int].repo_id@,
            {
                if active[k].repo_id == configured[j].repo_id {
                    known = true;
                }
            }
            proof {
                assert(known == registered(active@, configured@[j as int].repo_id@));
            }
            if !known {
                let id = configured[j].repo_id.clone();
                register.push(id);
                proof {
                    assert(register@.map_values(|s: String| s@) =~= before.map_values(|s: String| s@).push(id@));
                }
            }
        }
        proof {
            assert(register@.map_values(|s: String| s@) =~= found_ids(configured@.take(j + 1), active@));
        }
    }
    proof {
        assert(configured@.take(m as int) =~= configured@);
    }
    MountChanges { unmount, register }
}

} // verus!
