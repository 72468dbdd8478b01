use pika_backup::archives::{
    archive_list_visible, archive_row, check_controls, descend_into_first_entry, filling_up_notice, missing_space,
    ArchiveInfo,
};
use pika_backup::backup_info::{backup_info_display, InfoDisplay, InfoStats};
use pika_backup::backup_page::{disk_status, run_buttons, stop_question, OperationKind};
use pika_backup::config_io::{config_file_needs_rename, configs_need_update, upgrade_config_versions};
use pika_backup::dialogs::{
    archive_prefix_label, check_button_label, check_local_location, chooser_error, include_row_texts,
    is_backup_repo, is_checkpoint, is_listed_uri_scheme, password_removal_needed, prune_dialog_texts,
    prune_info_display, summarize_operations, try_active_config_id, ChooserFailure, ConfigRepo, ConfirmationDialog,
    RepoProbe,
};
use pika_backup::error::{Error, Message};
use pika_backup::i18n::{Catalog, Text};
use pika_backup::preferences::{
    close_step, command_line_args_state, password_follow_up, saved_preferences, shell_command_state, title_description, trim,
    PendingError, PreferencesInput,
};
use pika_backup::schedule::{
    disable_schedule_question, frequency, frequency_changed, frequency_index, frequency_list, preferred_rows,
    preferred_time_label, prune_change_effect, prune_pending_unsafe_changes, reset_preferred_moments,
    schedule_enabled_after, show_frequency, two_digit_text, weekday_list, Frequency, FrequencySelection, Keep,
    PrunePreset, TimeOfDay, Weekday,
};
use pika_backup::schedule_status::FrequencyKind;

fn tr(s: &str) -> Text {
    Text::Translatable(s.to_string())
}

fn message(text: Text, secondary_text: Text) -> Error {
    Error::Message(Message { text, secondary_text })
}

fn short(s: &str) -> Error {
    message(tr(s), Text::Verbatim(String::new()))
}

#[test]
fn confirmation_dialog_answers() {
    let mut d = ConfirmationDialog::new("Delete?", "Really?", "Cancel", "Delete");
    assert!(!d.destructive());
    d.set_destructive(true);
    assert!(d.destructive());
    assert_eq!(d.title(), "Delete?");
    assert_eq!(d.accept(), "Delete");
    assert_eq!(ConfirmationDialog::answer("accept"), Ok(()));
    assert_eq!(ConfirmationDialog::answer("cancel"), Err(Error::UserCanceled));
    assert_eq!(ConfirmationDialog::answer("acceptx"), Err(Error::UserCanceled));
}

#[test]
fn running_operations_are_summarized() {
    assert_eq!(summarize_operations(&Vec::new()), None);
    assert_eq!(summarize_operations(&vec!["Home".to_string()]), Some(Text::Verbatim("Home".to_string())));
    assert_eq!(
        summarize_operations(&vec!["Home".to_string(), "Work".to_string()]),
        Some(Text::Plural {
            singular: "One Backup Operation Running".to_string(),
            plural: "{} Backup Operations Running".to_string(),
            n: 2,
        })
    );
}

#[test]
fn stored_password_kept_while_repository_is_shared() {
    let configs = vec![
        ConfigRepo { id: "a".to_string(), repo_id: "r".to_string() },
        ConfigRepo { id: "b".to_string(), repo_id: "r".to_string() },
        ConfigRepo { id: "c".to_string(), repo_id: "s".to_string() },
    ];
    assert!(!password_removal_needed(&configs, &"a".to_string(), &"r".to_string(), false));
    assert!(password_removal_needed(&configs, &"c".to_string(), &"s".to_string(), false));
    assert!(password_removal_needed(&configs, &"a".to_string(), &"r".to_string(), true));
}

#[test]
fn borg_repository_is_recognized() {
    let probe = |data_is_dir, content: Option<&str>| RepoProbe {
        data_is_dir,
        config_content: content.map(|c| c.to_string()),
    };
    assert!(is_backup_repo(&probe(true, Some("[repository]\nid = 1"))));
    assert!(!is_backup_repo(&probe(false, Some("[repository]"))));
    assert!(!is_backup_repo(&probe(true, None)));
    assert!(!is_backup_repo(&probe(true, Some("[cache]"))));
    let mut large = "x".repeat(2 * 1024 * 1024);
    large.push_str("\n[repository]\n");
    assert!(is_backup_repo(&probe(true, Some(large.as_str()))));
}

#[test]
fn active_configuration_is_required() {
    assert_eq!(try_active_config_id(Some("x".to_string())).ok(), Some("x".to_string()));
    assert_eq!(
        try_active_config_id(None).err(),
        Some(short("There is no active backup in the interface."))
    );
}

#[test]
fn prune_dialog_contents() {
    let d = prune_info_display(0, 3, 5, false);
    assert!(!d.delete_visible);
    assert_eq!(d.untouched, 2);
    assert_eq!(d.description, Some(tr("No archives are selected for deletion with current cleanup rules")));
    let r = prune_info_display(0, 3, 5, true);
    assert!(r.delete_visible);
    assert_eq!(r.description, None);
    let t = prune_dialog_texts(true);
    assert_eq!(t.title, Some(tr("Review Changes")));
    assert!(t.apply_visible && !t.delete_visible);
    let t2 = prune_dialog_texts(false);
    assert_eq!(t2.title, None);
    assert_eq!(check_button_label(true), (tr("Perform Repair"), true));
    assert_eq!(check_button_label(false), (tr("Perform Check"), false));
}

#[test]
fn configuration_versions_are_raised() {
    let mut v = vec![0, 2, 1];
    assert!(configs_need_update(&v, 2));
    upgrade_config_versions(&mut v, 2);
    assert_eq!(v, vec![2, 2, 2]);
    assert!(!configs_need_update(&v, 2));
    assert!(config_file_needs_rename(true, false));
    assert!(!config_file_needs_rename(true, true));
}

#[test]
fn small_labels() {
    assert!(is_listed_uri_scheme("smb"));
    assert!(is_listed_uri_scheme("file"));
    assert!(!is_listed_uri_scheme("http"));
    assert!(is_checkpoint("host-2024.checkpoint"));
    assert!(!is_checkpoint("checkpoint"));
    assert_eq!(archive_prefix_label(&"host-".to_string()), Text::Verbatim("host-".to_string()));
    assert_eq!(archive_prefix_label(&String::new()), tr("None"));
    assert_eq!(include_row_texts(&String::new()), (tr("Home"), tr("Usually contains all personal data")));
    assert_eq!(
        include_row_texts(&"Documents".to_string()),
        (Text::Verbatim("Documents".to_string()), Text::Verbatim(String::new()))
    );
}

#[test]
fn file_chooser_failures() {
    assert_eq!(chooser_error(ChooserFailure::Cancelled), Error::UserCanceled);
    assert_eq!(chooser_error(ChooserFailure::Dismissed), Error::UserCanceled);
    assert_eq!(
        chooser_error(ChooserFailure::Failed("no portal".to_string())),
        message(Text::Verbatim("no portal".to_string()), Text::Verbatim(String::new()))
    );
}

#[test]
fn new_local_repository_choices() {
    assert_eq!(
        check_local_location(true, ""),
        Err(message(tr("Repository Name Empty"), tr("The repository folder name must be set")))
    );
    assert_eq!(
        check_local_location(false, "backup"),
        Err(message(tr("No Base Folder Selected"), tr("Select a base folder for the backup repository")))
    );
    assert_eq!(check_local_location(true, "backup"), Ok(()));
}

#[test]
fn archive_rows() {
    let a = ArchiveInfo {
        name: "host-2024-01-01.checkpoint".to_string(),
        hostname: "host".to_string(),
        username: "user".to_string(),
        comment: String::new(),
        start: 1_700_000_000,
        end: 1_700_000_000 + 3 * 60,
    };
    let r = archive_row(&a);
    assert_eq!(r.subtitle, "host, user");
    assert!(r.incomplete);
    assert_eq!(r.name, "host-2024-01-01.checkpoint");
    assert_eq!(
        r.duration,
        Text::Plural { singular: "One minute".to_string(), plural: "{} minutes".to_string(), n: 3 }
    );
    assert_eq!(r.comment, None);
    let b = ArchiveInfo { comment: "weekly".to_string(), name: "host-1".to_string(), ..a };
    let rb = archive_row(&b);
    assert_eq!(rb.comment, Some("weekly".to_string()));
    assert!(!rb.incomplete);
}

#[test]
fn check_buttons_follow_running_operation() {
    let idle = check_controls(false, false);
    assert!(idle.check_visible && idle.check_sensitive && !idle.abort_visible);
    let checking = check_controls(true, true);
    assert!(!checking.check_visible && !checking.check_sensitive && checking.abort_visible);
    let other = check_controls(true, false);
    assert!(other.check_visible && !other.check_sensitive && !other.abort_visible);
}

#[test]
fn space_warning() {
    assert_eq!(missing_space(100, Some(40)), Some(60));
    assert_eq!(missing_space(40, Some(100)), None);
    assert_eq!(missing_space(40, None), None);
    assert_eq!(
        filling_up_notice("usb".to_string(), "60 B".to_string()).render(&Catalog::open("pika-backup").expect("the text domain is bound to UTF-8")),
        "Backup location “usb” might be filling up. Estimated space missing to store all data: 60 B."
    );
}

#[test]
fn stopping_operations() {
    assert!(stop_question(OperationKind::Create, true, false).is_none());
    assert!(stop_question(OperationKind::Create, false, true).is_none());
    let q = stop_question(OperationKind::Create, false, false).unwrap();
    assert_eq!(q.title, tr("Stop Running Backup?"));
    assert_eq!(q.cancel, tr("Continue"));
    assert_eq!(q.accept, tr("Stop"));
    let d = stop_question(OperationKind::Delete, false, false).unwrap();
    assert_eq!(d.title, tr("Abort Delete Operation?"));
    let o = stop_question(OperationKind::Other, false, false).unwrap();
    assert_eq!(o.title, tr("Abort Operation?"));
    assert_eq!(o.accept, tr("Abort"));
}

#[test]
fn backup_page_buttons() {
    let d = disk_status(false, Some(true), Some(false));
    assert!(d.eject_visible && d.disconnected_visible);
    let unknown = disk_status(false, None, None);
    assert!(!unknown.eject_visible && !unknown.disconnected_visible);
    assert!(!disk_status(true, Some(true), Some(true)).eject_visible);
    let running = run_buttons(true);
    assert!(running.abort_visible && !running.backup_visible && !running.hint_visible);
}

#[test]
fn preferences_saving() {
    assert_eq!(trim("  My Backup \t\n"), "My Backup");
    assert_eq!(trim(" \u{3000} "), "");
    let saved = saved_preferences(PreferencesInput {
        title: "  Home  ".to_string(),
        pre_backup_command: String::new(),
        post_backup_command: "notify-send done".to_string(),
        command_line_args: Some(vec!["--lock-wait".to_string(), "5".to_string()]),
        run_on_battery: true,
    });
    assert_eq!(saved.title, "Home");
    assert_eq!(saved.pre_backup_script, None);
    assert_eq!(saved.post_backup_script, Some("notify-send done".to_string()));
    assert!(saved.run_on_battery);
    assert_eq!(close_step(true, true, true), Some(PendingError::CommandLineArgs));
    assert_eq!(close_step(false, true, true), Some(PendingError::PreBackupCommand));
    assert_eq!(close_step(false, false, true), Some(PendingError::PostBackupCommand));
    assert_eq!(close_step(false, false, false), None);
    assert_eq!(
        title_description("usb".to_string()).render(&Catalog::open("pika-backup").expect("the text domain is bound to UTF-8")),
        "The title of this backup configuration. Will be displayed as “usb” when left empty."
    );
}

#[test]
fn preferences_entries() {
    let (args, err) = command_line_args_state("--a 'b c'");
    assert_eq!(args, vec!["--a", "b c"]);
    assert!(err.is_none());
    let (args, err) = command_line_args_state("--a 'b");
    assert!(args.is_empty());
    assert!(err.is_some());
    let (cmd, err) = shell_command_state("echo hi".to_string());
    assert_eq!(cmd, "echo hi");
    assert!(err.is_none());
    let (cmd, err) = shell_command_state("echo 'hi".to_string());
    assert_eq!(cmd, "");
    assert_eq!(err, Some(message(tr("Shell command invalid"), tr("Please check for missing closing quotes."))));
}

#[test]
fn schedule_frequency_round_trip() {
    let current = FrequencySelection { kind: None, hour: 7, minute: 30, weekday: None, day: 1 };
    for f in [
        Frequency::Hourly,
        Frequency::Daily { preferred_time: TimeOfDay { hour: 23, minute: 59 } },
        Frequency::Weekly { preferred_weekday: Weekday::Fri },
        Frequency::Monthly { preferred_day: 28 },
    ] {
        let shown = show_frequency(&f, &current);
        assert_eq!(frequency(&shown).ok(), Some(f));
    }
}

#[test]
fn schedule_frequency_errors() {
    let base = FrequencySelection { kind: None, hour: 0, minute: 0, weekday: None, day: 1 };
    assert_eq!(frequency(&base).err(), Some(short("No frequency selected.")));
    let bad_time = FrequencySelection { kind: Some(FrequencyKind::Daily), hour: 24, ..base };
    assert_eq!(frequency(&bad_time).err(), Some(short("Invalid time format.")));
    let no_day = FrequencySelection { kind: Some(FrequencyKind::Weekly), ..base };
    assert_eq!(frequency(&no_day).err(), Some(short("Invalid weekday.")));
}

#[test]
fn schedule_lists() {
    let list = frequency_list();
    assert_eq!(list.len(), 4);
    for (i, f) in list.iter().enumerate() {
        assert_eq!(frequency_index(f) as usize, i);
    }
    let days = weekday_list();
    assert_eq!(days[0], Weekday::Mon);
    assert_eq!(days[6].number_from_monday(), 7);
    let rows = preferred_rows(FrequencyKind::Weekly);
    assert!(rows.weekday && !rows.time && !rows.day);
    assert!(frequency_changed(&Frequency::Hourly, &Frequency::Monthly { preferred_day: 1 }));
    assert!(!frequency_changed(&Frequency::Hourly, &Frequency::Hourly));
    assert_eq!(PrunePreset::default(), PrunePreset::Custom);
    assert_eq!(PrunePreset::list().len(), 3);
    assert_eq!(PrunePreset::KeepMany.name(), tr("Keep Many"));
}

#[test]
fn prune_changes_needing_review() {
    let keep = Keep { hourly: 48, daily: 14, weekly: 4, monthly: 12, yearly: 10 };
    let fewer = Keep { daily: 7, ..keep };
    let more = Keep { yearly: 20, ..keep };
    assert!(prune_pending_unsafe_changes(true, false, &keep, &keep));
    assert!(prune_pending_unsafe_changes(true, true, &fewer, &keep));
    assert!(!prune_pending_unsafe_changes(true, true, &more, &keep));
    assert!(!prune_pending_unsafe_changes(false, true, &fewer, &keep));
    assert!(more.is_greater_eq_everywhere(&keep));
    assert!(!fewer.is_greater_eq_everywhere(&keep));
}

#[test]
fn preferred_time_labels() {
    assert_eq!(two_digit_text(7), "07");
    assert_eq!(two_digit_text(0), "00");
    assert_eq!(two_digit_text(42), "42");
    assert_eq!(preferred_time_label(9, 5), "09\u{2009}:\u{2009}05");
    assert_eq!(preferred_time_label(23, 59), "23\u{2009}:\u{2009}59");
}

#[test]
fn frequency_change_resets_moments() {
    let current = FrequencySelection {
        kind: Some(FrequencyKind::Weekly),
        hour: 7,
        minute: 30,
        weekday: Some(Weekday::Mon),
        day: 3,
    };
    let reset = reset_preferred_moments(&current, 13, 4, 17);
    assert_eq!(
        reset,
        FrequencySelection { kind: Some(FrequencyKind::Weekly), hour: 13, minute: 0, weekday: Some(Weekday::Fri), day: 17 }
    );
}

#[test]
fn schedule_switch() {
    assert_eq!(schedule_enabled_after(false, true), (false, false));
    assert_eq!(schedule_enabled_after(false, false), (true, false));
    assert_eq!(schedule_enabled_after(true, false), (true, true));
    assert_eq!(disable_schedule_question().3, tr("_Disable Schedule"));
    assert_eq!(prune_change_effect(true), (true, false));
    assert_eq!(prune_change_effect(false), (false, true));
}

#[test]
fn archive_list_or_placeholder() {
    assert!(!archive_list_visible(0));
    assert!(archive_list_visible(3));
}

#[test]
fn archive_folder_search_descends_into_lone_folders() {
    assert!(descend_into_first_entry(Some(true), false));
    assert!(!descend_into_first_entry(Some(true), true));
    assert!(!descend_into_first_entry(Some(false), false));
    assert!(!descend_into_first_entry(None, false));
}

#[test]
fn password_change_follow_up() {
    let off = password_follow_up(true, false, false);
    assert!(off.update_config && off.remove_stored && !off.store_new);
    let on = password_follow_up(false, true, true);
    assert!(on.update_config && !on.remove_stored && on.store_new);
    let same = password_follow_up(true, true, true);
    assert!(!same.update_config && !same.remove_stored && same.store_new);
}

#[test]
fn backup_info_dialog_contents() {
    assert_eq!(
        backup_info_display(&InfoStats::Nothing, true),
        InfoDisplay { error: None, stats_visible: false, path_row_visible: true, current_path: None }
    );
    let done = InfoStats::Final { completed: true, outcome: "Completed".to_string(), messages: "ok".to_string() };
    assert_eq!(
        backup_info_display(&done, true),
        InfoDisplay { error: Some("ok".to_string()), stats_visible: true, path_row_visible: false, current_path: None }
    );
    let failed = InfoStats::Final { completed: false, outcome: "Aborted".to_string(), messages: "lock".to_string() };
    assert_eq!(
        backup_info_display(&failed, true),
        InfoDisplay {
            error: Some("Aborted\n\nlock".to_string()),
            stats_visible: false,
            path_row_visible: true,
            current_path: None,
        }
    );
    assert_eq!(
        backup_info_display(&InfoStats::Progress { path: "home/u/a".to_string() }, false),
        InfoDisplay { error: None, stats_visible: true, path_row_visible: true, current_path: Some("/home/u/a".to_string()) }
    );
}
