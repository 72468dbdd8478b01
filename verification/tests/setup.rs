use pika_backup::error::{Error, Message};
use pika_backup::i18n::Text;
use pika_backup::setup_flow::{
    abort_question, ArchivesOutcome, CheckOutcome, CloseStep, FolderChoice, LocationKind, SetupAction, SetupFlow,
    SetupPage, SetupStep,
};

fn tr(s: &str) -> Text {
    Text::Translatable(s.to_string())
}

#[test]
fn new_repository_is_created_and_saved() {
    let mut f = SetupFlow::new();
    assert_eq!(f.pages(), &vec![SetupPage::RepoKind]);
    f.repo_kind_continue(SetupAction::Init);
    assert_eq!(f.visible_page(), SetupPage::LocationKind);
    assert_eq!(f.location_kind_continue(SetupAction::Init, LocationKind::Local, false), SetupStep::Done);
    assert_eq!(f.visible_page(), SetupPage::Location);
    assert!(!f.is_busy());
    assert_eq!(f.location_continue(), SetupStep::MakeRepoConfig);
    assert!(f.is_busy());
    assert_eq!(f.location_continue(), SetupStep::Busy);
    assert_eq!(f.location_config_made(true), SetupStep::Done);
    assert_eq!(f.visible_page(), SetupPage::Encryption);
    assert_eq!(f.encryption_continue(), SetupStep::CreateRepository);
    assert_eq!(f.visible_page(), SetupPage::CreateNew);
    assert_eq!(f.repository_created(true), SetupStep::Finish);
    assert!(!f.can_close());
    assert_eq!(f.close(), CloseStep::SaveAndClose);
}

#[test]
fn failed_creation_goes_back_to_location() {
    let mut f = SetupFlow::new();
    f.repo_kind_continue(SetupAction::Init);
    f.location_kind_continue(SetupAction::Init, LocationKind::Remote, false);
    f.location_continue();
    f.location_config_made(true);
    f.encryption_continue();
    assert_eq!(f.repository_created(false), SetupStep::Done);
    assert_eq!(f.visible_page(), SetupPage::Location);
    assert!(f.can_close());
    assert_eq!(f.close(), CloseStep::Closed);
}

#[test]
fn encryption_without_configuration_restarts() {
    let mut f = SetupFlow::new();
    f.repo_kind_continue(SetupAction::Init);
    f.location_kind_continue(SetupAction::Init, LocationKind::Local, false);
    f.location_continue();
    f.location_config_made(false);
    assert_eq!(f.visible_page(), SetupPage::Location);
    assert_eq!(f.encryption_continue(), SetupStep::Done);
    assert_eq!(f.visible_page(), SetupPage::LocationKind);
    assert_eq!(f.action(), SetupAction::Init);
}

#[test]
fn existing_local_repository_is_added() {
    let mut f = SetupFlow::new();
    f.repo_kind_continue(SetupAction::AddExisting);
    assert_eq!(f.action(), SetupAction::Init);
    assert_eq!(
        f.location_kind_continue(SetupAction::AddExisting, LocationKind::Local, false),
        SetupStep::ChooseFolder
    );
    assert_eq!(f.folder_chosen(FolderChoice::Repository), SetupStep::MakeRepoConfig);
    assert_eq!(f.existing_config_made(true), SetupStep::CheckRepository { with_password: false });
    assert_eq!(f.visible_page(), SetupPage::AddExisting);
    assert!(f.is_busy());
    assert_eq!(f.check_finished(CheckOutcome::PasswordWrong), SetupStep::Done);
    assert_eq!(f.visible_page(), SetupPage::AskPassword);
    assert_eq!(f.ask_password_continue(), SetupStep::CheckRepository { with_password: true });
    assert_eq!(f.visible_page(), SetupPage::AddExisting);
    assert_eq!(
        f.check_finished(CheckOutcome::Connected { password_given: true }),
        SetupStep::FetchArchives { store_password: true }
    );
    assert_eq!(f.archives_fetched(ArchivesOutcome::Suggestions), SetupStep::Done);
    assert_eq!(f.visible_page(), SetupPage::TransferSettings);
    assert_eq!(f.transfer_settings_continue(true), SetupStep::TransferSettings);
    assert_eq!(f.transfer_done(true), SetupStep::Done);
    assert_eq!(f.visible_page(), SetupPage::TransferPrefix);
    assert_eq!(f.transfer_prefix_continue(), SetupStep::SetPrefix);
    assert_eq!(f.prefix_set(true), SetupStep::Finish);
    assert_eq!(f.close(), CloseStep::SaveAndClose);
}

#[test]
fn folder_without_repository_is_refused() {
    let mut f = SetupFlow::new();
    f.repo_kind_continue(SetupAction::AddExisting);
    f.location_kind_continue(SetupAction::AddExisting, LocationKind::Local, false);
    assert_eq!(
        f.folder_chosen(FolderChoice::NotRepository),
        SetupStep::ShowError(Error::Message(Message {
            text: tr("Location is not a valid backup repository."),
            secondary_text: tr("The repository must originate from Pika Backup or compatible software."),
        }))
    );
    assert!(!f.is_busy());
    assert_eq!(f.visible_page(), SetupPage::LocationKind);
    f.location_kind_continue(SetupAction::AddExisting, LocationKind::Local, false);
    assert_eq!(f.folder_chosen(FolderChoice::Nothing), SetupStep::Done);
    assert!(!f.is_busy());
}

#[test]
fn failed_connection_goes_back() {
    let mut f = SetupFlow::new();
    f.repo_kind_continue(SetupAction::AddExisting);
    f.location_kind_continue(SetupAction::AddExisting, LocationKind::Remote, false);
    f.location_continue();
    assert_eq!(f.location_config_made(true), SetupStep::CheckRepository { with_password: false });
    assert_eq!(
        f.check_finished(CheckOutcome::Failed("unreachable".to_string())),
        SetupStep::ShowError(Error::Message(Message {
            text: tr("Failed to Configure Repository"),
            secondary_text: Text::Verbatim("unreachable".to_string()),
        }))
    );
    assert_eq!(f.visible_page(), SetupPage::Location);

    let mut g = SetupFlow::new();
    g.repo_kind_continue(SetupAction::AddExisting);
    g.location_kind_continue(SetupAction::AddExisting, LocationKind::Local, true);
    g.existing_config_made(true);
    assert_eq!(g.check_finished(CheckOutcome::Canceled), SetupStep::Done);
    assert_eq!(g.visible_page(), SetupPage::LocationKind);
}

#[test]
fn unfinished_setup_asks_before_closing() {
    let mut f = SetupFlow::new();
    f.repo_kind_continue(SetupAction::AddExisting);
    f.location_kind_continue(SetupAction::AddExisting, LocationKind::Local, true);
    f.existing_config_made(true);
    f.check_finished(CheckOutcome::Connected { password_given: false });
    f.archives_fetched(ArchivesOutcome::Suggestions);
    assert_eq!(f.close(), CloseStep::AskAbort);
    assert_eq!(f.abort_answer(false), None);
    assert_eq!(f.close(), CloseStep::AskAbort);
    assert_eq!(f.abort_answer(true), Some(CloseStep::Closed));
    let q = abort_question();
    assert_eq!(q.0, tr("Abort Setup?"));
    assert_eq!(q.3, tr("Abort"));
}

#[test]
fn going_back_to_location_kinds_forgets_choices() {
    let mut f = SetupFlow::new();
    f.repo_kind_continue(SetupAction::AddExisting);
    f.location_kind_continue(SetupAction::AddExisting, LocationKind::Remote, false);
    assert_eq!(f.action(), SetupAction::AddExisting);
    f.back();
    assert_eq!(f.visible_page(), SetupPage::LocationKind);
    assert_eq!(f.action(), SetupAction::Init);
    f.back();
    f.back();
    assert_eq!(f.pages(), &vec![SetupPage::RepoKind]);
}
