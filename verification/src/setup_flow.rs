//! The dialog that sets up a backup: which page it shows, when it ignores
//! input while it works, and what it does on closing.
//!
//! Each handler takes an event of the dialog and says what outside work the
//! caller is to do next; the caller reports the outcome of that work through
//! the handler named for it.

use vstd::prelude::*;
use crate::error::{message_view, Error, ErrorView, Message, MessageView};
use crate::i18n::{Text, TextView};

verus! {

/// Whether a new repository is created or an existing one added.
#[derive(Clone, Copy, Debug, PartialEq, Eq, Structural)]
pub enum SetupAction {
    Init,
    AddExisting,
}

/// Where the repository lies.
#[derive(Clone, Copy, Debug, PartialEq, Eq, Structural)]
pub enum LocationKind {
    Local,
    Remote,
}

/// The pages of the dialog.
#[derive(Clone, Copy, Debug, PartialEq, Eq, Structural)]
pub enum SetupPage {
    /// The first page: create or add.
    RepoKind,
    LocationKind,
    Location,
    Encryption,
    AddExisting,
    AskPassword,
    TransferSettings,
    TransferPrefix,
    CreateNew,
}

/// What the caller is to do after a handler.
#[derive(Debug, PartialEq, Eq)]
pub enum SetupStep {
    /// Nothing more.
    Done,
    /// Nothing: the dialog is busy with an earlier step.
    Busy,
    /// Let the user choose the folder of an existing repository, then report
    /// the choice to [`SetupFlow::folder_chosen`].
    ChooseFolder,
    /// Make the repository configuration from the location, then report to
    /// [`SetupFlow::existing_config_made`] or [`SetupFlow::location_config_made`].
    MakeRepoConfig,
    /// Connect to the repository, with the password entered if asked to, then
    /// report to [`SetupFlow::check_finished`].
    CheckRepository { with_password: bool },
    /// Create the repository, then report to [`SetupFlow::repository_created`].
    CreateRepository,
    /// Store the password if asked to, fetch the archive list, then report to
    /// [`SetupFlow::archives_fetched`].
    FetchArchives { store_password: bool },
    /// Take over the settings of the chosen archive, then report to
    /// [`SetupFlow::transfer_done`].
    TransferSettings,
    /// Set the archive prefix entered, then report to [`SetupFlow::prefix_set`].
    SetPrefix,
    /// Close the dialog through [`SetupFlow::close`].
    Finish,
    /// Show this error.
    ShowError(Error),
}

/// What closing the dialog does.
#[derive(Debug, PartialEq, Eq)]
pub enum CloseStep {
    /// The dialog closes.
    Closed,
    /// Ask whether to abort the setup, then report to [`SetupFlow::abort_answer`].
    AskAbort,
    /// Save the new configuration, close, and show it.
    SaveAndClose,
}

/// The state of the dialog.
pub struct SetupFlow {
    stack: Vec<SetupPage>,
    busy: bool,
    action: SetupAction,
    repo_config: bool,
    new_config: bool,
    can_close: bool,
    save: bool,
}

/// The mathematical value of a [`SetupFlow`].
pub struct SetupState {
    /// The pages, the first page first and the shown page last.
    pub stack: Seq<SetupPage>,
    /// A step is in progress; further input is ignored.
    pub busy: bool,
    pub action: SetupAction,
    /// A repository configuration was made from the location.
    pub repo_config: bool,
    /// A new backup configuration awaits saving.
    pub new_config: bool,
    /// The dialog closes without asking.
    pub can_close: bool,
    /// The new configuration is to be saved on closing.
    pub save: bool,
}

impl View for SetupFlow {
    type V = SetupState;

    closed spec fn view(&self) -> SetupState {
        SetupState {
            stack: self.stack@,
            busy: self.busy,
            action: self.action,
            repo_config: self.repo_config,
            new_config: self.new_config,
            can_close: self.can_close,
            save: self.save,
        }
    }
}

/// The last position of `p` in `s` below `end`.
pub open spec fn last_index(s: Seq<SetupPage>, p: SetupPage, end: int) -> Option<int>
    decreases end,
{
    if end <= 0 {
        None
    } else if s[end - 1] == p {
        Some(end - 1)
    } else {
        last_index(s, p, end - 1)
    }
}

/// The stack after going back to `p`: the pages above its last place go;
/// nothing changes when `p` is not on the stack.
pub open spec fn pop_to_spec(s: Seq<SetupPage>, p: SetupPage) -> Seq<SetupPage> {
    match last_index(s, p, s.len() as int) {
        Some(i) => s.take(i + 1),
        None => s,
    }
}

/// The stack after going back one page; the first page stays.
pub open spec fn pop_spec(s: Seq<SetupPage>) -> Seq<SetupPage> {
    if s.len() > 1 { s.drop_last() } else { s }
}

impl SetupState {
    /// The first page is at the bottom, and a new configuration keeps the
    /// dialog from closing without asking.
    pub open spec fn valid(self) -> bool {
        &&& self.stack.len() >= 1
        &&& self.stack[0] == SetupPage::RepoKind
        &&& self.new_config ==> !self.can_close
    }

    /// The state after the stack became `stack`: when the page of location
    /// kinds comes into view, the choices made after it are forgotten.
    pub open spec fn navigated(self, stack: Seq<SetupPage>) -> SetupState {
        if stack.last() == SetupPage::LocationKind && self.stack.last() != SetupPage::LocationKind {
            SetupState { stack, action: SetupAction::Init, new_config: false, can_close: true, ..self }
        } else {
            SetupState { stack, ..self }
        }
    }

    /// The state with the new configuration set or cleared.
    pub open spec fn with_new_config(self, present: bool) -> SetupState {
        SetupState { new_config: present, can_close: !present, ..self }
    }

    /// The state, busy or not.
    pub open spec fn set_busy(self, busy: bool) -> SetupState {
        SetupState { busy, ..self }
    }

    /// The state with `action` chosen.
    pub open spec fn set_action(self, action: SetupAction) -> SetupState {
        SetupState { action, ..self }
    }

    /// The state with or without a repository configuration.
    pub open spec fn set_repo_config(self, present: bool) -> SetupState {
        SetupState { repo_config: present, ..self }
    }

    /// The state with the new configuration held or taken, leaving whether
    /// the dialog closes without asking as it is.
    pub open spec fn set_new_config_only(self, present: bool) -> SetupState {
        SetupState { new_config: present, ..self }
    }

    /// The state with the new configuration marked to be saved.
    pub open spec fn saving(self) -> SetupState {
        SetupState { save: true, ..self }
    }

    /// The state after showing page `p` on top.
    pub open spec fn pushed(self, p: SetupPage) -> SetupState {
        self.navigated(self.stack.push(p))
    }

    /// The state after going back one page.
    pub open spec fn popped(self) -> SetupState {
        self.navigated(pop_spec(self.stack))
    }

    /// The state after going back to page `p`.
    pub open spec fn popped_to(self, p: SetupPage) -> SetupState {
        self.navigated(pop_to_spec(self.stack, p))
    }

    /// After a failed connection: back to the location page if it is on the
    /// stack, else to the page of location kinds.
    pub open spec fn back_after_failure(self) -> SetupState {
        if self.stack.contains(SetupPage::Location) {
            self.popped_to(SetupPage::Location)
        } else {
            self.popped_to(SetupPage::LocationKind)
        }
    }
}

/// The error shown when the chosen folder holds no repository.
pub open spec fn not_a_repository_view() -> ErrorView {
    ErrorView::Message(message_view(
        "Location is not a valid backup repository."@,
        "The repository must originate from Pika Backup or compatible software."@,
    ))
}

/// The error shown when connecting to an existing repository failed with
/// the text `t`.
pub open spec fn failed_to_configure_view(t: Seq<char>) -> ErrorView {
    ErrorView::Message(MessageView {
        text: TextView::Translatable("Failed to Configure Repository"@),
        secondary_text: TextView::Verbatim(t),
    })
}

/// What the user chose as the folder of an existing repository.
#[derive(Clone, Copy, Debug, PartialEq, Eq, Structural)]
pub enum FolderChoice {
    /// No folder.
    Nothing,
    /// A folder holding a borg repository.
    Repository,
    /// A folder holding none.
    NotRepository,
}

/// How connecting to an existing repository ended.
pub enum CheckOutcome {
    /// Connected; `password_given` tells whether the user entered a password.
    Connected { password_given: bool },
    PasswordWrong,
    /// The user cancelled.
    Canceled,
    /// Any other failure, with its text.
    Failed(String),
}

/// What came of fetching the archive list.
#[derive(Clone, Copy, Debug, PartialEq, Eq, Structural)]
pub enum ArchivesOutcome {
    /// Fetching failed; the caller shows the error.
    Failed,
    /// The archives suggest no settings.
    NoSuggestions,
    /// The archives suggest settings to take over.
    Suggestions,
}

/// Whether `p` lies on `s`.
fn on_stack(s: &Vec<SetupPage>, p: SetupPage) -> (r: bool)
    ensures
        r == s@.contains(p),
{
    let n = s.len();
    for i in 0..n
        invariant
            n == s@.len(),
            forall|j: int| 0 <= j < i ==> s@[j] != p,
    {
        if s[i] == p {
            proof {
                assert(s@[i as int] == p);
            }
            return true;
        }
    }
    false
}

impl SetupFlow {
    /// The dialog as it opens: the first page, idle, nothing made yet.
    pub fn new() -> (f: SetupFlow)
        ensures
            f@.valid(),
            f@.stack == seq![SetupPage::RepoKind],
            !f@.busy,
            f@.action == SetupAction::Init,
            !f@.repo_config,
            !f@.new_config,
            f@.can_close,
            !f@.save,
    {
        let mut stack: Vec<SetupPage> = Vec::new();
        stack.push(SetupPage::RepoKind);
        let f = SetupFlow {
            stack,
            busy: false,
            action: SetupAction::Init,
            repo_config: false,
            new_config: false,
            can_close: true,
            save: false,
        };
        proof {
            assert(f@.stack =~= seq![SetupPage::RepoKind]);
        }
        f
    }

    /// The page shown.
    pub fn visible_page(&self) -> (p: SetupPage)
        requires
            self@.valid(),
        ensures
            p == self@.stack.last(),
    {
        self.stack[self.stack.len() - 1]
    }

    /// Whether the dialog closes without asking.
    pub fn can_close(&self) -> (r: bool)
        ensures
            r == self@.can_close,
    {
        self.can_close
    }

    /// Whether the dialog ignores input.
    pub fn is_busy(&self) -> (r: bool)
        ensures
            r == self@.busy,
    {
        self.busy
    }

    /// Whether a new repository is created or an existing one added.
    pub fn action(&self) -> (r: SetupAction)
        ensures
            r == self@.action,
    {
        self.action
    }

    /// Records that the shown page changed to what the stack says.
    fn settle(&mut self, before: SetupPage)
        requires
            old(self)@.stack.len() >= 1,
        ensures
            old(self)@.stack.last() == SetupPage::LocationKind && before != SetupPage::LocationKind
                ==> final(self)@ == old(self)@.set_action(SetupAction::Init).with_new_config(false),
            !(old(self)@.stack.last() == SetupPage::LocationKind && before != SetupPage::LocationKind)
                ==> final(self)@ == old(self)@,
    {
        let top = self.stack[self.stack.len() - 1];
        if top == SetupPage::LocationKind && before != SetupPage::LocationKind {
            self.action = SetupAction::Init;
            self.new_config = false;
            self.can_close = true;
        }
    }

    /// Shows page `p` on top of the others.
    fn push(&mut self, p: SetupPage)
        requires
            old(self)@.valid(),
        ensures
            final(self)@ == old(self)@.pushed(p),
            final(self)@.valid(),
    {
        let before = self.stack[self.stack.len() - 1];
        self.stack.push(p);
        self.settle(before);
    }

    /// Goes back one page, never past the first.
    fn pop(&mut self)
        requires
            old(self)@.valid(),
        ensures
            final(self)@ == old(self)@.popped(),
            final(self)@.valid(),
    {
        let before = self.stack[self.stack.len() - 1];
        if self.stack.len() > 1 {
            self.stack.pop();
        }
        self.settle(before);
    }

    /// Goes back to page `p`, if it is on the stack.
    fn pop_to(&mut self, p: SetupPage)
        requires
            old(self)@.valid(),
        ensures
            final(self)@ == old(self)@.popped_to(p),
            final(self)@.valid(),
    {
        let n = self.stack.len();
        let before = self.stack[n - 1];
        let mut end = n;
        while end > 0 && self.stack[end - 1] != p
            invariant
                n == self.stack@.len(),
                end <= n,
                last_index(self.stack@, p, n as int) == last_index(self.stack@, p, end as int),
            decreases end,
        {
            end = end - 1;
        }
        if end > 0 {
            proof {
                assert(last_index(self.stack@, p, n as int) == Some(end - 1));
            }
            while self.stack.len() > end
                invariant
                    end >= 1,
                    end <= self.stack@.len(),
                    self.stack@ == old(self)@.stack.take(self.stack@.len() as int),
                    self.stack@.len() <= n,
                    n == old(self)@.stack.len(),
                    self.busy == old(self).busy,
                    self.action == old(self).action,
                    self.repo_config == old(self).repo_config,
                    self.new_config == old(self).new_config,
                    self.can_close == old(self).can_close,
                    self.save == old(self).save,
                decreases self.stack@.len(),
            {
                self.stack.pop();
                proof {
                    assert(self.stack@ =~= old(self)@.stack.take(self.stack@.len() as int));
                }
            }
        }
        proof {
            assert(self.stack@ == pop_to_spec(old(self)@.stack, p));
            assert(self.stack@[0] == SetupPage::RepoKind);
        }
        self.settle(before);
    }

    /// The user went back one page.
    pub fn back(&mut self)
        requires
            old(self)@.valid(),
        ensures
            final(self)@.valid(),
            final(self)@ == old(self)@.popped(),
    {
        self.pop();
    }

    /// The pages, the first page first and the shown page last.
    pub fn pages(&self) -> (r: &Vec<SetupPage>)
        ensures
            r@ == self@.stack,
    {
        &self.stack
    }

    /// The user chose to create or add a repository on the first page.
    pub fn repo_kind_continue(&mut self, action: SetupAction)
        requires
            old(self)@.valid(),
        ensures
            final(self)@.valid(),
            final(self)@ == old(self)@.set_action(action).pushed(SetupPage::LocationKind),
    {
        self.action = action;
        self.push(SetupPage::LocationKind);
    }

    /// The user chose the kind of location. A new repository, or an existing
    /// remote one, goes on to the location page; an existing local one needs
    /// its folder, chosen now unless it was given.
    pub fn location_kind_continue(&mut self, action: SetupAction, kind: LocationKind, folder_given: bool) -> (s: SetupStep)
        requires
            old(self)@.valid(),
        ensures
            final(self)@.valid(),
            old(self)@.busy ==> s == SetupStep::Busy && final(self)@ == old(self)@,
            !old(self)@.busy && (action == SetupAction::Init || kind == LocationKind::Remote) ==> s == SetupStep::Done
                && final(self)@ == old(self)@.set_action(action).pushed(SetupPage::Location),
            !old(self)@.busy && action == SetupAction::AddExisting && kind == LocationKind::Local ==> final(self)@
                == old(self)@.set_action(action).set_busy(true),
            !old(self)@.busy && action == SetupAction::AddExisting && kind == LocationKind::Local ==> s
                == (if folder_given { SetupStep::MakeRepoConfig } else { SetupStep::ChooseFolder }),
    {
        if self.busy {
            return SetupStep::Busy;
        }
        self.busy = true;
        self.action = action;
        match (action, kind) {
            (SetupAction::AddExisting, LocationKind::Local) => {
                if folder_given { SetupStep::MakeRepoConfig } else { SetupStep::ChooseFolder }
            },
            _ => {
                self.push(SetupPage::Location);
                self.busy = false;
                SetupStep::Done
            },
        }
    }

    /// The user chose the folder of an existing repository, or none.
    pub fn folder_chosen(&mut self, choice: FolderChoice) -> (s: SetupStep)
        requires
            old(self)@.valid(),
        ensures
            final(self)@.valid(),
            choice == FolderChoice::Repository ==> s == SetupStep::MakeRepoConfig && final(self)@ == old(self)@,
            choice == FolderChoice::Nothing ==> s == SetupStep::Done && final(self)@ == old(self)@.set_busy(false),
            choice == FolderChoice::NotRepository ==> final(self)@ == old(self)@.set_busy(false),
            choice == FolderChoice::NotRepository ==> (s matches SetupStep::ShowError(e) && e@ == not_a_repository_view()),
    {
        match choice {
            FolderChoice::Repository => SetupStep::MakeRepoConfig,
            FolderChoice::Nothing => {
                self.busy = false;
                SetupStep::Done
            },
            FolderChoice::NotRepository => {
                self.busy = false;
                SetupStep::ShowError(Error::Message(Message::new(
                    "Location is not a valid backup repository.",
                    "The repository must originate from Pika Backup or compatible software.",
                )))
            },
        }
    }

    /// The configuration of an existing local repository was made, or not
    /// (the caller shows why): connect to it.
    pub fn existing_config_made(&mut self, made: bool) -> (s: SetupStep)
        requires
            old(self)@.valid(),
        ensures
            final(self)@.valid(),
            !made ==> s == SetupStep::Done && final(self)@ == old(self)@.set_busy(false).set_repo_config(false),
            made ==> s == (SetupStep::CheckRepository { with_password: false }),
            made ==> final(self)@ == old(self)@.set_repo_config(true).pushed(SetupPage::AddExisting),
    {
        self.repo_config = made;
        if made {
            self.push(SetupPage::AddExisting);
            SetupStep::CheckRepository { with_password: false }
        } else {
            self.busy = false;
            SetupStep::Done
        }
    }

    /// The user entered the location and continued.
    pub fn location_continue(&mut self) -> (s: SetupStep)
        requires
            old(self)@.valid(),
        ensures
            final(self)@.valid(),
            old(self)@.busy ==> s == SetupStep::Busy && final(self)@ == old(self)@,
            !old(self)@.busy ==> s == SetupStep::MakeRepoConfig && final(self)@ == old(self)@.set_busy(true),
    {
        if self.busy {
            return SetupStep::Busy;
        }
        self.busy = true;
        SetupStep::MakeRepoConfig
    }

    /// The configuration was made from the location entered, or not (the
    /// caller shows why): a new repository asks for encryption next, an
    /// existing one is connected to.
    pub fn location_config_made(&mut self, made: bool) -> (s: SetupStep)
        requires
            old(self)@.valid(),
        ensures
            final(self)@.valid(),
            !made ==> s == SetupStep::Done && final(self)@ == old(self)@.set_busy(false).set_repo_config(false),
            made && old(self)@.action == SetupAction::Init ==> s == SetupStep::Done,
            made && old(self)@.action == SetupAction::Init ==> final(self)@
                == old(self)@.set_busy(false).set_repo_config(true).pushed(SetupPage::Encryption),
            made && old(self)@.action == SetupAction::AddExisting ==> s == (SetupStep::CheckRepository { with_password: false }),
            made && old(self)@.action == SetupAction::AddExisting ==> final(self)@
                == old(self)@.set_busy(false).set_repo_config(true).pushed(SetupPage::AddExisting),
    {
        self.repo_config = made;
        self.busy = false;
        if !made {
            return SetupStep::Done;
        }
        match self.action {
            SetupAction::Init => {
                self.push(SetupPage::Encryption);
                SetupStep::Done
            },
            SetupAction::AddExisting => {
                self.push(SetupPage::AddExisting);
                SetupStep::CheckRepository { with_password: false }
            },
        }
    }

    /// The user chose the encryption and continued: the repository is created
    /// from the configuration made, or, lacking one, the dialog goes back to
    /// the location kinds.
    pub fn encryption_continue(&mut self) -> (s: SetupStep)
        requires
            old(self)@.valid(),
        ensures
            final(self)@.valid(),
            old(self)@.busy ==> s == SetupStep::Busy && final(self)@ == old(self)@,
            !old(self)@.busy && !old(self)@.repo_config ==> s == SetupStep::Done
                && final(self)@ == old(self)@.popped_to(SetupPage::LocationKind),
            !old(self)@.busy && old(self)@.repo_config ==> s == SetupStep::CreateRepository
                && final(self)@ == old(self)@.set_busy(true).set_repo_config(false).pushed(SetupPage::CreateNew),
    {
        if self.busy {
            return SetupStep::Busy;
        }
        if !self.repo_config {
            self.pop_to(SetupPage::LocationKind);
            return SetupStep::Done;
        }
        self.busy = true;
        self.repo_config = false;
        self.push(SetupPage::CreateNew);
        SetupStep::CreateRepository
    }

    /// The repository was created, or not (the caller shows why): a new
    /// configuration is saved on closing; a failure goes back to the
    /// location page.
    pub fn repository_created(&mut self, created: bool) -> (s: SetupStep)
        requires
            old(self)@.valid(),
        ensures
            final(self)@.valid(),
            created ==> s == SetupStep::Finish && final(self)@ == old(self)@.set_busy(false).with_new_config(true).saving(),
            !created ==> s == SetupStep::Done && final(self)@ == old(self)@.set_busy(false).popped_to(SetupPage::Location),
    {
        self.busy = false;
        if created {
            self.new_config = true;
            self.can_close = false;
            self.save = true;
            SetupStep::Finish
        } else {
            self.pop_to(SetupPage::Location);
            SetupStep::Done
        }
    }

    /// Connecting to an existing repository ended.
    pub fn check_finished(&mut self, outcome: CheckOutcome) -> (s: SetupStep)
        requires
            old(self)@.valid(),
        ensures
            final(self)@.valid(),
            outcome matches CheckOutcome::Connected { password_given } ==> s
                == (SetupStep::FetchArchives { store_password: password_given }),
            outcome is Connected ==> final(self)@ == old(self)@.set_busy(false).with_new_config(true),
            outcome is PasswordWrong ==> s == SetupStep::Done,
            outcome is PasswordWrong ==> final(self)@ == old(self)@.set_busy(false).popped().pushed(SetupPage::AskPassword),
            outcome is Canceled ==> s == SetupStep::Done,
            outcome is Canceled || outcome is Failed ==> final(self)@ == old(self)@.set_busy(false).back_after_failure(),
            outcome matches CheckOutcome::Failed(t) ==> (s matches SetupStep::ShowError(e) && e@ == failed_to_configure_view(t@)),
    {
        self.busy = false;
        match outcome {
            CheckOutcome::Connected { password_given } => {
                self.new_config = true;
                self.can_close = false;
                SetupStep::FetchArchives { store_password: password_given }
            },
            CheckOutcome::PasswordWrong => {
                self.pop();
                self.push(SetupPage::AskPassword);
                SetupStep::Done
            },
            CheckOutcome::Canceled => {
                self.back_after_failure();
                SetupStep::Done
            },
            CheckOutcome::Failed(t) => {
                self.back_after_failure();
                SetupStep::ShowError(Error::Message(Message::with_detail("Failed to Configure Repository", t)))
            },
        }
    }

    /// Goes back after a failed connection.
    fn back_after_failure(&mut self)
        requires
            old(self)@.valid(),
        ensures
            final(self)@ == old(self)@.back_after_failure(),
            final(self)@.valid(),
    {
        if on_stack(&self.stack, SetupPage::Location) {
            self.pop_to(SetupPage::Location);
        } else {
            self.pop_to(SetupPage::LocationKind);
        }
    }

    /// The user entered the password asked for: connect again with it, when
    /// there is a configuration to connect to.
    pub fn ask_password_continue(&mut self) -> (s: SetupStep)
        requires
            old(self)@.valid(),
        ensures
            final(self)@.valid(),
            final(self)@ == old(self)@.popped().pushed(SetupPage::AddExisting),
            s == (if old(self)@.repo_config { SetupStep::CheckRepository { with_password: true } } else { SetupStep::Done }),
    {
        self.pop();
        self.push(SetupPage::AddExisting);
        if self.repo_config { SetupStep::CheckRepository { with_password: true } } else { SetupStep::Done }
    }

    /// Marks the new configuration to be saved, and asks to close.
    fn finish(&mut self) -> (s: SetupStep)
        ensures
            final(self)@ == old(self)@.saving(),
            s == SetupStep::Finish,
    {
        self.save = true;
        SetupStep::Finish
    }

    /// The archive list was fetched, or not: settings to take over are
    /// offered if the archives suggest any, else the setup ends.
    pub fn archives_fetched(&mut self, outcome: ArchivesOutcome) -> (s: SetupStep)
        requires
            old(self)@.valid(),
        ensures
            final(self)@.valid(),
            outcome == ArchivesOutcome::Suggestions ==> s == SetupStep::Done
                && final(self)@ == old(self)@.pushed(SetupPage::TransferSettings),
            outcome != ArchivesOutcome::Suggestions ==> s == SetupStep::Finish && final(self)@ == old(self)@.saving(),
    {
        if outcome == ArchivesOutcome::Suggestions {
            self.push(SetupPage::TransferSettings);
            SetupStep::Done
        } else {
            self.finish()
        }
    }

    /// The user chose settings to take over, or none.
    pub fn transfer_settings_continue(&mut self, chosen: bool) -> (s: SetupStep)
        requires
            old(self)@.valid(),
        ensures
            final(self)@.valid(),
            chosen && old(self)@.new_config ==> s == SetupStep::TransferSettings && final(self)@ == old(self)@,
            !(chosen && old(self)@.new_config) ==> s == SetupStep::Finish
                && final(self)@ == old(self)@.set_busy(false).saving(),
    {
        if chosen && self.new_config {
            SetupStep::TransferSettings
        } else {
            self.busy = false;
            self.finish()
        }
    }

    /// The settings were taken over, or not (the caller shows why): the
    /// archive prefix is asked for next, else the setup ends.
    pub fn transfer_done(&mut self, done: bool) -> (s: SetupStep)
        requires
            old(self)@.valid(),
        ensures
            final(self)@.valid(),
            done ==> s == SetupStep::Done
                && final(self)@ == old(self)@.with_new_config(true).set_busy(false).pushed(SetupPage::TransferPrefix),
            !done ==> s == SetupStep::Finish && final(self)@ == old(self)@.with_new_config(true).set_busy(false).saving(),
    {
        self.new_config = true;
        self.can_close = false;
        self.busy = false;
        if done {
            self.push(SetupPage::TransferPrefix);
            SetupStep::Done
        } else {
            self.finish()
        }
    }

    /// The user entered the archive prefix.
    pub fn transfer_prefix_continue(&self) -> (s: SetupStep)
        ensures
            s == (if self@.new_config { SetupStep::SetPrefix } else { SetupStep::Done }),
    {
        if self.new_config { SetupStep::SetPrefix } else { SetupStep::Done }
    }

    /// The archive prefix was set, or not (the caller shows why): the setup
    /// ends once it is.
    pub fn prefix_set(&mut self, set: bool) -> (s: SetupStep)
        requires
            old(self)@.valid(),
        ensures
            final(self)@.valid(),
            set ==> s == SetupStep::Finish && final(self)@ == old(self)@.with_new_config(true).saving(),
            !set ==> s == SetupStep::Done && final(self)@ == old(self)@.with_new_config(true),
    {
        self.new_config = true;
        self.can_close = false;
        if set { self.finish() } else { SetupStep::Done }
    }

    /// The dialog is to close: a dialog without a new configuration closes;
    /// one whose configuration is to be saved saves it; else the user is asked
    /// whether to abort. The new configuration is taken in either case.
    pub fn close(&mut self) -> (c: CloseStep)
        requires
            old(self)@.valid(),
        ensures
            final(self)@.valid(),
            c == close_step_spec(old(self)@),
            final(self)@ == closed_state(old(self)@),
    {
        if self.can_close || !self.new_config {
            return CloseStep::Closed;
        }
        self.new_config = false;
        if self.save { CloseStep::SaveAndClose } else { CloseStep::AskAbort }
    }

    /// The answer to whether to abort the setup: aborting closes, else the
    /// new configuration is kept.
    pub fn abort_answer(&mut self, abort: bool) -> (c: Option<CloseStep>)
        requires
            old(self)@.valid(),
            !old(self)@.can_close,
        ensures
            final(self)@.valid(),
            abort ==> c == Some(CloseStep::Closed) && final(self)@ == old(self)@,
            !abort ==> c is None && final(self)@ == old(self)@.set_new_config_only(true),
    {
        if abort {
            Some(CloseStep::Closed)
        } else {
            self.new_config = true;
            None
        }
    }
}

/// The question whether to abort the setup: its title, message and answers.
pub fn abort_question() -> (q: (Text, Text, Text, Text))
    ensures
        q.0@ == TextView::Translatable("Abort Setup?"@),
        q.1@ == TextView::Translatable("Aborting now will cause the repository to not be added"@),
        q.2@ == TextView::Translatable("Continue Setup"@),
        q.3@ == TextView::Translatable("Abort"@),
{
    (
        Text::translatable("Abort Setup?"),
        Text::translatable("Aborting now will cause the repository to not be added"),
        Text::translatable("Continue Setup"),
        Text::translatable("Abort"),
    )
}

/// What closing a dialog in state `s` does.
pub open spec fn close_step_spec(s: SetupState) -> CloseStep {
    if s.can_close || !s.new_config {
        CloseStep::Closed
    } else if s.save {
        CloseStep::SaveAndClose
    } else {
        CloseStep::AskAbort
    }
}

/// The state after closing a dialog in state `s`.
pub open spec fn closed_state(s: SetupState) -> SetupState {
    if s.can_close || !s.new_config { s } else { s.set_new_config_only(false) }
}

/// A created repository is saved: after the repository was created, closing
/// the dialog saves the new configuration.
pub proof fn law_created_repository_is_saved(a: SetupState)
    requires
        a.valid(),
    ensures
        close_step_spec(a.set_busy(false).with_new_config(true).saving()) == CloseStep::SaveAndClose,
{
}

/// An added repository is saved: after connecting to it, when its archives
/// suggest no settings or cannot be listed, closing the dialog saves the new
/// configuration.
pub proof fn law_connected_repository_is_saved(a: SetupState)
    requires
        a.valid(),
    ensures
        close_step_spec(a.set_busy(false).with_new_config(true).saving()) == CloseStep::SaveAndClose,
{
}

/// Closing an unfinished setup with a new configuration asks whether to
/// abort, and declining keeps asking on every later close.
pub proof fn law_unfinished_setup_asks_again(a: SetupState)
    requires
        a.valid(),
        !a.can_close,
        a.new_config,
        !a.save,
    ensures
        close_step_spec(a) == CloseStep::AskAbort,
        close_step_spec(closed_state(a).set_new_config_only(true)) == CloseStep::AskAbort,
{
}

} // verus!
