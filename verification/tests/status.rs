use pika_backup::duration::Span;
use pika_backup::i18n::{Catalog, Text};
use pika_backup::schedule_status::{
    next_backup_in, next_backup_in_text, DueStatus, FrequencyKind, GlobalRequirement, Hint, ScheduleState, Status,
    StatusRow,
};
use pika_backup::status_level::StatusLevel;
use pika_backup::status_tracking::{is_borg_operation_running, StatusTracking, IDLE_QUIT_NANOS};

fn tr(s: &str) -> Text {
    Text::Translatable(s.to_string())
}

fn empty() -> Text {
    Text::Verbatim(String::new())
}

fn row(title: Text, subtitle: Text, icon: &str, level: StatusLevel) -> StatusRow {
    StatusRow { title, subtitle, icon_name: icon.to_string(), level }
}

fn state(enabled: bool, due: DueStatus) -> ScheduleState {
    ScheduleState {
        enabled,
        frequency: FrequencyKind::Daily,
        due,
        global_requirements: Vec::new(),
        hints: Vec::new(),
        operation_registered: false,
        daemon_running: true,
    }
}

#[test]
fn quit_guard_registers_operation() {
    let mut status = StatusTracking::new(0);
    assert!(!is_borg_operation_running(&status));
    status.quit_guard_acquire();
    assert!(is_borg_operation_running(&status));
    let release = status.quit_guard_release(10, true);
    assert!(!release.unbalanced);
    assert!(!release.quit);
    assert!(!is_borg_operation_running(&status));
}

#[test]
fn nested_guards_release_in_turn() {
    let mut status = StatusTracking::new(0);
    status.quit_guard_acquire();
    status.quit_guard_acquire();
    assert_eq!(status.quit_inhibit_count(), 2);
    let first = status.quit_guard_release(5, false);
    assert!(!first.quit);
    assert!(is_borg_operation_running(&status));
    let second = status.quit_guard_release(6, false);
    assert!(second.quit);
    assert_eq!(status.quit_inhibit_count(), 0);
}

#[test]
fn release_after_acquire_restores_the_count() {
    let mut status = StatusTracking::new(0);
    status.quit_guard_acquire();
    let before = status.quit_inhibit_count();
    status.quit_guard_acquire();
    let r = status.quit_guard_release(7, true);
    assert!(!r.unbalanced);
    assert!(!r.quit);
    assert_eq!(status.quit_inhibit_count(), before);
    let last = status.quit_guard_release(8, false);
    assert!(last.quit);
    assert!(!status.regular_update(8 + IDLE_QUIT_NANOS, false));
    assert!(status.regular_update(9 + IDLE_QUIT_NANOS, false));
}

#[test]
fn count_never_goes_below_zero() {
    let mut status = StatusTracking::new(0);
    status.quit_guard_release(1, false);
    status.quit_guard_release(2, false);
    assert_eq!(status.quit_inhibit_count(), 0);
    status.quit_guard_acquire();
    assert_eq!(status.quit_inhibit_count(), 1);
}

#[test]
fn unbalanced_release_is_reported() {
    let mut status = StatusTracking::new(0);
    let r = status.quit_guard_release(1, true);
    assert!(r.unbalanced);
    assert!(!r.quit);
    assert_eq!(status.quit_inhibit_count(), 0);
}

#[test]
fn idle_hidden_interface_quits_after_two_minutes() {
    let mut status = StatusTracking::new(100);
    assert!(!status.regular_update(100 + 60_000_000_000, false));
    assert!(!status.regular_update(100 + IDLE_QUIT_NANOS, false));
    assert!(status.regular_update(100 + IDLE_QUIT_NANOS + 1, false));
    assert!(!status.regular_update(100 + 10 * IDLE_QUIT_NANOS, true));
}

#[test]
fn guard_keeps_interface_running() {
    let mut status = StatusTracking::new(0);
    status.quit_guard_acquire();
    assert!(!status.regular_update(10 * IDLE_QUIT_NANOS, false));
}

#[test]
fn tracking_records_battery_metered_daemon() {
    let mut status = StatusTracking::new(0);
    assert_eq!(status.on_battery_since(), None);
    status.set_on_battery(true, 42);
    assert_eq!(status.on_battery_since(), Some(42));
    status.set_network_metered(true, 43);
    assert_eq!(status.metered_since(), Some(43));
    status.set_network_metered(false, 44);
    assert_eq!(status.metered_since(), None);
    status.set_daemon_running(true);
    assert!(status.daemon_running());
}

#[test]
fn disabled_schedule_status() {
    let s = Status::new(&state(false, DueStatus::Due));
    assert_eq!(
        s,
        Status {
            main: row(tr("Scheduled backups disabled"), empty(), "x-office-calendar-symbolic", StatusLevel::Warning),
            problems: Vec::new(),
        }
    );
}

#[test]
fn waiting_schedule_status() {
    let s = Status::new(&state(true, DueStatus::NotDue { next_due: Some(Span::from_seconds(7200)) }));
    assert_eq!(
        s.main,
        row(
            tr("Daily backups enabled"),
            Text::Plural {
                singular: "Next backup in one hour".to_string(),
                plural: "Next backup in {} hours".to_string(),
                n: 2,
            },
            "x-office-calendar-symbolic",
            StatusLevel::Good
        )
    );
    assert!(s.problems.is_empty());
}

#[test]
fn inconsistent_schedule_status() {
    let s = Status::new(&state(true, DueStatus::NotDue { next_due: None }));
    assert_eq!(
        s.main,
        row(
            tr("Daily backups enabled"),
            tr("Inconsistent backup information"),
            "x-office-calendar-symbolic",
            StatusLevel::Error
        )
    );
}

#[test]
fn past_due_with_requirements() {
    let mut st = state(true, DueStatus::Due);
    st.global_requirements = vec![
        GlobalRequirement::MeteredConnection,
        GlobalRequirement::ThisBackupRunning,
        GlobalRequirement::OtherBackupRunning("other".to_string()),
    ];
    st.hints = vec![Hint::DeviceMissing];
    st.daemon_running = false;
    let s = Status::new(&st);
    assert_eq!(
        s.main,
        row(
            tr("Backup past due"),
            tr("Waiting until requirements are met"),
            "x-office-calendar-symbolic",
            StatusLevel::Warning
        )
    );
    assert_eq!(
        s.problems,
        vec![
            row(tr("Network connection must not be metered"), empty(), "network-vpn-symbolic", StatusLevel::Error),
            row(
                tr("Other backups on repository have to be completed"),
                empty(),
                "media-playback-start-symbolic",
                StatusLevel::Error
            ),
            row(tr("Backup device has to be connected"), empty(), "drive-removable-media-symbolic", StatusLevel::Error),
            row(
                tr("Background process inactive"),
                tr("This is required for scheduled backups"),
                "action-unavailable-symbolic",
                StatusLevel::Error
            ),
        ]
    );
}

#[test]
fn not_due_with_hint_is_a_warning() {
    let mut st = state(true, DueStatus::NotDue { next_due: Some(Span::from_seconds(30 * 60)) });
    st.hints = vec![Hint::NetworkMissing];
    let s = Status::new(&st);
    assert_eq!(
        s.main.subtitle,
        Text::Concat(
            Box::new(Text::Plural {
                singular: "Next backup in one minute".to_string(),
                plural: "Next backup in {} minutes".to_string(),
                n: 30,
            }),
            Box::new(Text::Concat(
                Box::new(Text::Verbatim(" – ".to_string())),
                Box::new(tr("Will not start until requirements are met.")),
            )),
        )
    );
    assert_eq!(
        s.problems,
        vec![row(
            tr("Network connection has to be available"),
            empty(),
            "network-offline-symbolic",
            StatusLevel::Warning
        )]
    );
}

#[test]
fn due_without_daemon_is_unavailable() {
    let mut st = state(true, DueStatus::Due);
    st.daemon_running = false;
    let s = Status::new(&st);
    assert_eq!(s.main.title, tr("Scheduled backups unavailable"));
    assert_eq!(s.main.level, StatusLevel::Error);
    let st2 = state(true, DueStatus::Due);
    let s2 = Status::new(&st2);
    assert_eq!(s2.main.title, tr("Waiting for backup to start"));
    assert!(s2.problems.is_empty());
}

#[test]
fn next_backup_in_units() {
    let minutes = next_backup_in_text(&Span::from_seconds(59 * 60));
    assert_eq!(
        minutes,
        Text::Plural {
            singular: "Next backup in one minute".to_string(),
            plural: "Next backup in {} minutes".to_string(),
            n: 59,
        }
    );
    let days = next_backup_in_text(&Span::from_seconds(3 * 86400));
    assert_eq!(
        days,
        Text::Plural {
            singular: "Next backup in one day".to_string(),
            plural: "Next backup in {} days".to_string(),
            n: 3,
        }
    );
    let weeks = next_backup_in_text(&Span::from_seconds(15 * 86400));
    assert_eq!(
        weeks,
        Text::Plural {
            singular: "Next backup in one week".to_string(),
            plural: "Next backup in {} weeks".to_string(),
            n: 2,
        }
    );
}

#[test]
fn next_backup_in_renders_untranslated() {
    let c = Catalog::open("pika-backup").expect("the text domain is bound to UTF-8");
    assert_eq!(next_backup_in(&Span::from_seconds(3 * 3600), &c), "Next backup in 3 hours");
    assert_eq!(next_backup_in(&Span::from_seconds(3600), &c), "Next backup in one hour");
}

#[test]
fn status_level_numbers_round_trip() {
    for n in 0u8..5 {
        let level = StatusLevel::from(n);
        assert_eq!(u8::from(level), n);
    }
    assert_eq!(StatusLevel::from(0u8), StatusLevel::Good);
    assert_eq!(StatusLevel::default(), StatusLevel::Neutral);
}
