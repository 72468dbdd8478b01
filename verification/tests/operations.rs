use pika_backup::background::{activity_text, background_request_outcome, status_update, BackgroundResponse};
use pika_backup::borg_ops::{
    after_password_dialog, after_password_store, break_lock_question, check_repository_free, next_run_step,
    reconcile_mounts, unmount_question, MountChanges, MountState, OperationInfo, OperationRegistry, RunOutcome, RunStep, StoreOutcome,
};
use pika_backup::check::{check_outcome, CheckResult, CheckRunInfo};
use pika_backup::config_io::{err_to_msg, load_config, write_config};
use pika_backup::df::{parse_df_output, sftp_url, DfError, Space};
use pika_backup::error::{Error, Message};
use pika_backup::i18n::Text;
use pika_backup::repo::{
    after_eject, after_volume_mount, eject_plan, ensure_device_plugged_in, ensure_repo_available, is_smb_scheme,
    mount_enclosing_result, AvailabilityAction, EjectPlan, EjectResult, EjectTarget, MountFailure, RepoPlace,
    VolumeState,
};
use pika_backup::shell_args::{command_line_args_text, parse_borg_command_line_args, validate_shell_command};

fn tr(s: &str) -> Text {
    Text::Translatable(s.to_string())
}

fn message(text: Text, secondary_text: Text) -> Error {
    Error::Message(Message { text, secondary_text })
}

#[test]
fn df_output_is_read_from_third_line() {
    let out = "sftp> df\n        Size         Used        Avail       (root)    %Capacity\n   102400000     51200000     51200000     51200000          50%\nsftp> exit\n";
    assert_eq!(parse_df_output(out), Ok(Space { size: 102400000, used: 51200000, avail: 51200000 }));
}

#[test]
fn df_output_with_carriage_returns() {
    let out = "a\r\nb\r\n  1  2  3\r\n";
    assert_eq!(parse_df_output(out), Ok(Space { size: 1, used: 2, avail: 3 }));
}

#[test]
fn df_output_errors() {
    assert_eq!(parse_df_output("one\ntwo\n"), Err(DfError::Other("Third line missing in output.".to_string())));
    assert_eq!(parse_df_output("a\nb\n   \n"), Err(DfError::Other("First column missing.".to_string())));
    assert_eq!(parse_df_output("a\nb\n 12\n"), Err(DfError::Other("Second column missing.".to_string())));
    assert_eq!(parse_df_output("a\nb\n 12 13\n"), Err(DfError::Other("Third column missing.".to_string())));
    assert_eq!(parse_df_output("a\nb\n x 13 14\n"), Err(DfError::ParseInt));
    assert_eq!(parse_df_output("a\nb\n 1 2 18446744073709551616\n"), Err(DfError::ParseInt));
    assert_eq!(parse_df_output("a\nb\n +1 2 18446744073709551615\n"), Ok(Space { size: 1, used: 2, avail: u64::MAX }));
}

#[test]
fn sftp_address_of_server() {
    assert_eq!(sftp_url("ssh://user@example.org:22/home/user/repo"), Ok("sftp://user@example.org:22".to_string()));
    assert_eq!(sftp_url("not a url"), Err(DfError::Url));
}

#[test]
fn borg_arguments_are_split_like_a_shell() {
    let args = parse_borg_command_line_args("--remote-path 'borg 1' --lock-wait 5").ok().unwrap();
    assert_eq!(args, vec!["--remote-path", "borg 1", "--lock-wait", "5"]);
    assert_eq!(
        parse_borg_command_line_args("--remote-path 'borg").err(),
        Some(message(tr("Additional command line arguments invalid"), tr("Please check for missing closing quotes.")))
    );
    assert_eq!(command_line_args_text(&Some(args)), "--remote-path borg 1 --lock-wait 5");
    assert_eq!(command_line_args_text(&None), "");
}

#[test]
fn shell_commands_are_validated() {
    assert_eq!(validate_shell_command("echo \"hi\"").ok(), Some("echo \"hi\""));
    assert_eq!(
        validate_shell_command("echo \"hi").err(),
        Some(message(tr("Shell command invalid"), tr("Please check for missing closing quotes.")))
    );
}

#[test]
fn check_outcomes() {
    let ok = check_outcome(&CheckResult::Completed, Vec::new(), false);
    assert_eq!(ok.run_info, CheckRunInfo::Success);
    assert_eq!(ok.result, Ok(()));
    assert_eq!(ok.notice, Some(tr("Verify archives integrity completed successfully")));

    let canceled = check_outcome(&CheckResult::Canceled, vec!["x".to_string()], false);
    assert_eq!(canceled.run_info, CheckRunInfo::Aborted);
    assert_eq!(canceled.result, Ok(()));
    assert_eq!(canceled.notice, None);

    let failed = check_outcome(&CheckResult::Failed("broken".to_string()), Vec::new(), true);
    assert_eq!(failed.run_info, CheckRunInfo::Repair(vec!["broken".to_string()]));
    assert_eq!(failed.result, Err(message(tr("Verify Archives Integrity"), Text::Verbatim("broken".to_string()))));

    let problems = check_outcome(&CheckResult::Completed, vec!["a".to_string(), "b".to_string()], false);
    assert_eq!(problems.run_info, CheckRunInfo::Error(vec!["a".to_string(), "b".to_string()]));
    assert_eq!(problems.result, Err(message(tr("Verify Archives Integrity"), Text::Verbatim("a\nb".to_string()))));
}

#[test]
fn repository_in_use_is_refused() {
    let ops = vec![
        OperationInfo { repo_id: "r1".to_string(), name: "Backup".to_string() },
        OperationInfo { repo_id: "r2".to_string(), name: "Check".to_string() },
    ];
    assert_eq!(check_repository_free(&ops, &"r3".to_string()), Ok(()));
    assert_eq!(
        check_repository_free(&ops, &"r2".to_string()),
        Err(message(tr("Repository already in use"), Text::Verbatim("Check".to_string())))
    );
}

#[test]
fn questions_before_operations() {
    let q = unmount_question(true);
    assert_eq!(q.accept, tr("Start Backup"));
    assert!(!q.destructive);
    let q2 = unmount_question(false);
    assert_eq!(q2.title, tr("Stop browsing files and start operation?"));
    let lock = break_lock_question();
    assert!(lock.destructive);
    assert_eq!(lock.accept, tr("Continue Anyway"));
}

#[test]
fn run_steps() {
    assert_eq!(next_run_step(&RunOutcome::LockTimeout, true, true, true), RunStep::HandleLock);
    assert_eq!(
        next_run_step(&RunOutcome::PasswordMissing { keyring_error: Some("locked".to_string()) }, false, false, true),
        RunStep::AskPassword { keyring_error: Some("locked".to_string()) }
    );
    assert_eq!(next_run_step(&RunOutcome::PassphraseWrong, true, true, true), RunStep::AskPassword { keyring_error: None });
    assert_eq!(next_run_step(&RunOutcome::Succeeded, true, true, true), RunStep::Finish { store_password: true });
    assert_eq!(next_run_step(&RunOutcome::OtherFailure, true, false, true), RunStep::Finish { store_password: false });
    assert_eq!(after_password_dialog(true), Ok(()));
    assert_eq!(after_password_dialog(false), Err(Error::UserCanceled));
    let a = after_password_store(StoreOutcome::Failed, false, true);
    assert!(a.use_memory_store && a.mark_encrypted);
    let b = after_password_store(StoreOutcome::Stored, true, true);
    assert!(!b.use_memory_store && !b.mark_encrypted);
}

#[test]
fn mounts_are_reconciled() {
    let active = vec![
        MountState { repo_id: "a".to_string(), mounted: true },
        MountState { repo_id: "b".to_string(), mounted: false },
    ];
    let configured = vec![
        MountState { repo_id: "a".to_string(), mounted: true },
        MountState { repo_id: "c".to_string(), mounted: true },
        MountState { repo_id: "d".to_string(), mounted: false },
    ];
    assert_eq!(
        reconcile_mounts(&active, &configured),
        MountChanges { unmount: vec!["b".to_string()], register: vec!["c".to_string()] }
    );
}

#[test]
fn repository_availability() {
    let local = |is_repo, fuse_uri, removable, volume| RepoPlace::Local { is_repo, fuse_uri, removable, volume };
    assert_eq!(ensure_repo_available(&RepoPlace::Remote), AvailabilityAction::Nothing);
    assert_eq!(ensure_repo_available(&local(true, true, true, VolumeState::Missing)), AvailabilityAction::Nothing);
    assert_eq!(ensure_repo_available(&local(false, true, true, VolumeState::Missing)), AvailabilityAction::MountEnclosing);
    assert_eq!(ensure_repo_available(&local(false, false, true, VolumeState::Mounted)), AvailabilityAction::UseMount);
    assert_eq!(ensure_repo_available(&local(false, false, true, VolumeState::Unmounted)), AvailabilityAction::MountVolume);
    assert_eq!(ensure_repo_available(&local(false, false, true, VolumeState::Missing)), AvailabilityAction::AskForDevice);
    assert_eq!(ensure_repo_available(&local(false, false, false, VolumeState::Missing)), AvailabilityAction::Nothing);
    assert!(ensure_device_plugged_in(&local(true, false, true, VolumeState::Missing)));
    assert!(!ensure_device_plugged_in(&local(false, false, true, VolumeState::Mounted)));
    assert_eq!(after_volume_mount(false), Err(message(tr("Failed to Mount"), Text::Verbatim(String::new()))));
}

#[test]
fn mount_failures() {
    assert!(is_smb_scheme("SMB"));
    assert!(!is_smb_scheme("sftp"));
    assert_eq!(mount_enclosing_result(None, String::new(), "smb"), Ok(()));
    assert_eq!(mount_enclosing_result(Some(MountFailure::AlreadyMounted), "x".to_string(), "smb"), Ok(()));
    assert_eq!(mount_enclosing_result(Some(MountFailure::FailedHandled), "x".to_string(), "smb"), Err(Error::UserCanceled));
    assert_eq!(
        mount_enclosing_result(Some(MountFailure::Failed), "x".to_string(), "Smb"),
        Err(message(tr("Failed to Mount"), tr("The network server is not available")))
    );
    assert_eq!(
        mount_enclosing_result(Some(MountFailure::Other), "denied".to_string(), "smb"),
        Err(message(tr("Failed to Mount"), Text::Verbatim("denied".to_string())))
    );
}

#[test]
fn ejecting_the_backup_disk() {
    assert_eq!(eject_plan(&EjectTarget::NoVolume), EjectPlan::Nothing);
    assert_eq!(
        eject_plan(&EjectTarget::NotEjectable { volume_name: "Disk".to_string() }),
        EjectPlan::Refuse(message(
            tr("Unable to Eject Backup Disk"),
            Text::Format { msgid: "{} can't be ejected.".to_string(), args: vec!["Disk".to_string()] }
        ))
    );
    assert_eq!(
        after_eject(&EjectResult::Done, &"Drive".to_string()),
        Ok(Some(Text::Format { msgid: "{} can be safely unplugged.".to_string(), args: vec!["Drive".to_string()] }))
    );
    assert_eq!(after_eject(&EjectResult::Dismissed, &"Drive".to_string()), Ok(None));
}

#[test]
fn background_permission_answers() {
    let granted = BackgroundResponse::Answered { run_in_background: true, auto_start: true };
    assert_eq!(background_request_outcome(&granted), Ok(()));
    let refused = BackgroundResponse::Answered { run_in_background: true, auto_start: false };
    assert_eq!(
        background_request_outcome(&refused),
        Err(message(
            tr("Run in background disabled"),
            tr("Scheduled backup functionality and continuing backups in the background will not be available. The “run in background” option can be enabled via the system settings.")
        ))
    );
    assert!(background_request_outcome(&BackgroundResponse::Cancelled).is_err());
    match background_request_outcome(&BackgroundResponse::Failed("portal".to_string())) {
        Err(Error::Message(m)) => {
            assert_eq!(m.text, tr("Request to run in background failed"));
            match m.secondary_text {
                Text::Concat(_, detail) => assert_eq!(*detail, Text::Verbatim("\n\nportal".to_string())),
                _ => panic!("detail missing"),
            }
        },
        _ => panic!("failure not reported"),
    }
}

#[test]
fn background_status_messages() {
    assert_eq!(activity_text(None), tr("Idle"));
    assert_eq!(activity_text(Some(Text::verbatim("Home"))), Text::verbatim("Home"));
    let (text, changed) = status_update("Idle", &Some("Idle".to_string()));
    assert_eq!(text, "Idle");
    assert!(!changed);
    let long = "x".repeat(100);
    let (text, changed) = status_update(&long, &None);
    assert_eq!(text.chars().count(), 96);
    assert!(text.ends_with('…'));
    assert!(changed);
}

#[test]
fn configuration_file_errors() {
    assert_eq!(write_config(Ok(())), Ok(()));
    assert_eq!(
        write_config(Err("disk full".to_string())),
        Err(message(tr("Could not write configuration file."), Text::Verbatim("disk full".to_string())))
    );
    assert_eq!(
        load_config(Err("bad json".to_string())),
        Err(message(tr("Could not load configuration file."), Text::Verbatim("bad json".to_string())))
    );
    assert_eq!(err_to_msg(Ok::<u32, String>(7), "title"), Ok(7));
}

fn op(repo: &str, name: &str) -> OperationInfo {
    OperationInfo { repo_id: repo.to_string(), name: name.to_string() }
}

#[test]
fn operation_registry_refuses_a_busy_repository() {
    let mut reg = OperationRegistry::new();
    assert_eq!(reg.register("a".to_string(), op("r1", "Backup")), Ok(()));
    assert_eq!(reg.register("b".to_string(), op("r2", "Check")), Ok(()));
    assert_eq!(
        reg.register("c".to_string(), op("r1", "Prune")),
        Err(Error::Message(Message::with_detail("Repository already in use", "Backup".to_string())))
    );
    assert_eq!(reg.operations(), &vec![op("r1", "Backup"), op("r2", "Check")]);
    reg.remove(&"a".to_string());
    assert_eq!(reg.operations(), &vec![op("r2", "Check")]);
    assert_eq!(reg.register("c".to_string(), op("r1", "Prune")), Ok(()));
    assert_eq!(reg.operations(), &vec![op("r2", "Check"), op("r1", "Prune")]);
    reg.remove(&"x".to_string());
    assert_eq!(reg.operations().len(), 2);
}

#[test]
fn sftp_address_of_a_non_special_scheme() {
    assert_eq!(sftp_url("smb://host/share"), Ok("sftp://host".to_string()));
    assert_eq!(sftp_url(""), Err(DfError::Url));
}
