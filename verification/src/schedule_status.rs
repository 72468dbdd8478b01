//! The status of a backup schedule, as the schedule page shows it: one main
//! row and the problems that keep a due backup from starting.

use vstd::prelude::*;
use crate::duration::{plural_view, Span};
use crate::i18n::{Catalog, Text, TextView};
use crate::status_level::StatusLevel;

verus! {

/// How often scheduled backups are due.
#[derive(Clone, Copy, Debug, PartialEq, Eq, Structural)]
pub enum FrequencyKind {
    Hourly,
    Daily,
    Weekly,
    Monthly,
}

/// Whether the next scheduled backup is due.
pub enum DueStatus {
    /// The backup is due now.
    Due,
    /// The backup is not due yet; `next_due` is the time until it is, when known.
    NotDue { next_due: Option<Span> },
}

/// A condition on the whole system that keeps a due backup from starting.
pub enum GlobalRequirement {
    MeteredConnection,
    /// Another backup configuration, with this id, uses the repository.
    OtherBackupRunning(String),
    ThisBackupRunning,
}

/// A condition on this backup that keeps it from starting.
#[derive(Clone, Copy, Debug, PartialEq, Eq, Structural)]
pub enum Hint {
    DeviceMissing,
    NetworkMissing,
}

/// Everything the schedule status is decided from.
pub struct ScheduleState {
    /// Scheduled backups are switched on for this configuration.
    pub enabled: bool,
    pub frequency: FrequencyKind,
    pub due: DueStatus,
    pub global_requirements: Vec<GlobalRequirement>,
    pub hints: Vec<Hint>,
    /// A backup operation is registered for this configuration.
    pub operation_registered: bool,
    /// The background process that starts scheduled backups is running.
    pub daemon_running: bool,
}

/// One row of the status display.
#[derive(Debug, PartialEq, Eq)]
pub struct StatusRow {
    pub title: Text,
    pub subtitle: Text,
    pub icon_name: String,
    pub level: StatusLevel,
}

/// The mathematical value of a [`StatusRow`].
pub struct StatusRowView {
    pub title: TextView,
    pub subtitle: TextView,
    pub icon_name: Seq<char>,
    pub level: StatusLevel,
}

impl View for StatusRow {
    type V = StatusRowView;

    open spec fn view(&self) -> StatusRowView {
        StatusRowView {
            title: self.title@,
            subtitle: self.subtitle@,
            icon_name: self.icon_name@,
            level: self.level,
        }
    }
}

/// The status of a backup schedule: a main row, and the problems below it.
#[derive(Debug, PartialEq, Eq)]
pub struct Status {
    pub main: StatusRow,
    pub problems: Vec<StatusRow>,
}

/// The mathematical value of a [`Status`].
pub struct StatusView {
    pub main: StatusRowView,
    pub problems: Seq<StatusRowView>,
}

impl View for Status {
    type V = StatusView;

    open spec fn view(&self) -> StatusView {
        StatusView {
            main: self.main@,
            problems: self.problems@.map_values(|r: StatusRow| r@),
        }
    }
}

/// A status row.
pub open spec fn row(title: TextView, subtitle: TextView, icon_name: Seq<char>, level: StatusLevel) -> StatusRowView {
    StatusRowView { title, subtitle, icon_name, level }
}

/// The empty text.
pub open spec fn no_text() -> TextView {
    TextView::Verbatim(Seq::empty())
}

/// A text shown in translation.
pub open spec fn tr(s: Seq<char>) -> TextView {
    TextView::Translatable(s)
}

/// When the next backup starts, in the largest fitting unit.
pub open spec fn next_backup_in_view(d: Span) -> TextView {
    if d.hours() < 1 {
        plural_view("Next backup in one minute"@, "Next backup in {} minutes"@, d.minutes() as u32)
    } else if d.days() < 1 {
        plural_view("Next backup in one hour"@, "Next backup in {} hours"@, d.hours() as u32)
    } else if d.weeks() < 1 {
        plural_view("Next backup in one day"@, "Next backup in {} days"@, d.days() as u32)
    } else {
        plural_view("Next backup in one week"@, "Next backup in {} weeks"@, d.weeks() as u32)
    }
}

/// The title of the main row while the schedule waits for the next backup.
pub open spec fn frequency_title(f: FrequencyKind) -> TextView {
    match f {
        FrequencyKind::Hourly => tr("Hourly backups enabled"@),
        FrequencyKind::Daily => tr("Daily backups enabled"@),
        FrequencyKind::Weekly => tr("Weekly backups enabled"@),
        FrequencyKind::Monthly => tr("Monthly backups enabled"@),
    }
}

/// The row for a global requirement, if it is shown at all.
pub open spec fn global_rows_of(g: GlobalRequirement, level: StatusLevel) -> Seq<StatusRowView> {
    match g {
        GlobalRequirement::MeteredConnection => seq![row(
            tr("Network connection must not be metered"@),
            no_text(),
            "network-vpn-symbolic"@,
            level,
        )],
        GlobalRequirement::OtherBackupRunning(_) => seq![row(
            tr("Other backups on repository have to be completed"@),
            no_text(),
            "media-playback-start-symbolic"@,
            level,
        )],
        GlobalRequirement::ThisBackupRunning => Seq::empty(),
    }
}

/// The row for a hint.
pub open spec fn hint_row(h: Hint, level: StatusLevel) -> StatusRowView {
    match h {
        Hint::DeviceMissing => row(
            tr("Backup device has to be connected"@),
            no_text(),
            "drive-removable-media-symbolic"@,
            level,
        ),
        Hint::NetworkMissing => row(
            tr("Network connection has to be available"@),
            no_text(),
            "network-offline-symbolic"@,
            level,
        ),
    }
}

/// The rows for a list of global requirements, in order.
pub open spec fn global_rows(gs: Seq<GlobalRequirement>, level: StatusLevel) -> Seq<StatusRowView>
    decreases gs.len(),
{
    if gs.len() == 0 {
        Seq::empty()
    } else {
        global_rows(gs.drop_last(), level) + global_rows_of(gs.last(), level)
    }
}

/// The rows for a list of hints, in order.
pub open spec fn hint_rows(hs: Seq<Hint>, level: StatusLevel) -> Seq<StatusRowView> {
    hs.map_values(|h: Hint| hint_row(h, level))
}

/// The row shown when the background process is not running.
pub open spec fn daemon_inactive_row() -> StatusRowView {
    row(
        tr("Background process inactive"@),
        tr("This is required for scheduled backups"@),
        "action-unavailable-symbolic"@,
        StatusLevel::Error,
    )
}

/// Some requirement or hint keeps the backup from starting.
pub open spec fn has_obstacles(s: ScheduleState) -> bool {
    s.global_requirements@.len() > 0 || s.hints@.len() > 0
}

/// The severity of the problem rows: warnings while the backup is not due yet,
/// errors once it is due.
pub open spec fn problem_level(s: ScheduleState) -> StatusLevel {
    match s.due {
        DueStatus::NotDue { .. } => StatusLevel::Warning,
        DueStatus::Due => StatusLevel::Error,
    }
}

/// The main row of an enabled schedule.
pub open spec fn enabled_main_row(s: ScheduleState) -> StatusRowView {
    let calendar = "x-office-calendar-symbolic"@;
    match s.due {
        DueStatus::NotDue { next_due } => match next_due {
            Some(d) => {
                let subtitle = if has_obstacles(s) {
                    TextView::Concat(
                        Box::new(next_backup_in_view(d)),
                        Box::new(TextView::Concat(
                            Box::new(TextView::Verbatim(" – "@)),
                            Box::new(tr("Will not start until requirements are met."@)),
                        )),
                    )
                } else {
                    next_backup_in_view(d)
                };
                row(frequency_title(s.frequency), subtitle, calendar, StatusLevel::Good)
            },
            None => if !s.operation_registered {
                row(frequency_title(s.frequency), tr("Inconsistent backup information"@), calendar, StatusLevel::Error)
            } else {
                row(frequency_title(s.frequency), no_text(), calendar, StatusLevel::Good)
            },
        },
        DueStatus::Due => if has_obstacles(s) {
            row(tr("Backup past due"@), tr("Waiting until requirements are met"@), calendar, StatusLevel::Warning)
        } else if !s.daemon_running {
            row(tr("Scheduled backups unavailable"@), no_text(), calendar, StatusLevel::Error)
        } else {
            row(tr("Waiting for backup to start"@), no_text(), calendar, StatusLevel::Error)
        },
    }
}

/// The problem rows of an enabled schedule: the global requirements, then the
/// hints, then the inactive background process.
pub open spec fn enabled_problems(s: ScheduleState) -> Seq<StatusRowView> {
    global_rows(s.global_requirements@, problem_level(s))
        + hint_rows(s.hints@, problem_level(s))
        + if s.daemon_running { Seq::empty() } else { seq![daemon_inactive_row()] }
}

/// The status shown for a schedule.
pub open spec fn status_view(s: ScheduleState) -> StatusView {
    if !s.enabled {
        StatusView {
            main: row(
                tr("Scheduled backups disabled"@),
                no_text(),
                "x-office-calendar-symbolic"@,
                StatusLevel::Warning,
            ),
            problems: Seq::empty(),
        }
    } else {
        StatusView { main: enabled_main_row(s), problems: enabled_problems(s) }
    }
}

impl StatusRowView {
    /// No catalog key of the row's texts holds a NUL character.
    pub open spec fn keys_valid(self) -> bool {
        self.title.keys_valid() && self.subtitle.keys_valid()
    }
}

impl StatusView {
    /// No catalog key of the status's texts holds a NUL character.
    pub open spec fn keys_valid(self) -> bool {
        &&& self.main.keys_valid()
        &&& forall|i: int| 0 <= i < self.problems.len() ==> #[trigger] self.problems[i].keys_valid()
    }
}

/// When the next backup starts, in the largest fitting unit.
pub fn next_backup_in_text(d: &Span) -> (t: Text)
    ensures
        t@ == next_backup_in_view(*d),
{
    if d.num_hours() < 1 {
        Text::plural("Next backup in one minute", "Next backup in {} minutes", d.num_minutes() as u32)
    } else if d.num_days() < 1 {
        Text::plural("Next backup in one hour", "Next backup in {} hours", d.num_hours() as u32)
    } else if d.num_weeks() < 1 {
        Text::plural("Next backup in one day", "Next backup in {} days", d.num_days() as u32)
    } else {
        Text::plural("Next backup in one week", "Next backup in {} weeks", d.num_weeks() as u32)
    }
}

/// [`next_backup_in_text`] in the catalog's language.
pub fn next_backup_in(d: &Span, catalog: &Catalog) -> (r: String)
    ensures
        next_backup_in_view(*d).renders_in(catalog.domain_spec(), r@),
{
    proof {
        lemma_next_backup_keys_valid(*d);
    }
    next_backup_in_text(d).render(catalog)
}

/// The empty text.
fn empty_text() -> (t: Text)
    ensures
        t@ == no_text(),
{
    let t = Text::Verbatim(String::new());
    proof {
        assert(t@ =~= no_text());
    }
    t
}

/// A status row with the given parts.
fn make_row(title: Text, subtitle: Text, icon_name: &str, level: StatusLevel) -> (r: StatusRow)
    ensures
        r@ == row(title@, subtitle@, icon_name@, level),
{
    StatusRow { title, subtitle, icon_name: icon_name.to_string(), level }
}

/// The title of the main row while the schedule waits for the next backup.
fn frequency_title_text(f: FrequencyKind) -> (t: Text)
    ensures
        t@ == frequency_title(f),
{
    match f {
        FrequencyKind::Hourly => Text::translatable("Hourly backups enabled"),
        FrequencyKind::Daily => Text::translatable("Daily backups enabled"),
        FrequencyKind::Weekly => Text::translatable("Weekly backups enabled"),
        FrequencyKind::Monthly => Text::translatable("Monthly backups enabled"),
    }
}

/// The main row of an enabled schedule.
fn enabled_main_row_of(state: &ScheduleState) -> (r: StatusRow)
    requires
        state.enabled,
    ensures
        r@ == enabled_main_row(*state),
{
    let obstacles = state.global_requirements.len() > 0 || state.hints.len() > 0;
    let calendar = "x-office-calendar-symbolic";
    match &state.due {
        DueStatus::NotDue { next_due } => match next_due {
            Some(d) => {
                let subtitle = if obstacles {
                    Text::concat(
                        next_backup_in_text(d),
                        Text::concat(
                            Text::verbatim(" – "),
                            Text::translatable("Will not start until requirements are met."),
                        ),
                    )
                } else {
                    next_backup_in_text(d)
                };
                make_row(frequency_title_text(state.frequency), subtitle, calendar, StatusLevel::Good)
            },
            None => if !state.operation_registered {
                make_row(
                    frequency_title_text(state.frequency),
                    Text::translatable("Inconsistent backup information"),
                    calendar,
                    StatusLevel::Error,
                )
            } else {
                make_row(frequency_title_text(state.frequency), empty_text(), calendar, StatusLevel::Good)
            },
        },
        DueStatus::Due => if obstacles {
            make_row(
                Text::translatable("Backup past due"),
                Text::translatable("Waiting until requirements are met"),
                calendar,
                StatusLevel::Warning,
            )
        } else if !state.daemon_running {
            make_row(Text::translatable("Scheduled backups unavailable"), empty_text(), calendar, StatusLevel::Error)
        } else {
            make_row(Text::translatable("Waiting for backup to start"), empty_text(), calendar, StatusLevel::Error)
        },
    }
}

/// The problem rows of an enabled schedule.
fn enabled_problems_of(state: &ScheduleState) -> (rows: Vec<StatusRow>)
    requires
        state.enabled,
    ensures
        rows@.map_values(|r: StatusRow| r@) == enabled_problems(*state),
{
    let level = match &state.due {
        DueStatus::NotDue { .. } => StatusLevel::Warning,
        DueStatus::Due => StatusLevel::Error,
    };
    let ghost gs = state.global_requirements@;
    let ghost hs = state.hints@;
    let mut rows: Vec<StatusRow> = Vec::new();
    let n = state.global_requirements.len();
    for i in 0..n
        invariant
            n == gs.len(),
            gs == state.global_requirements@,
            level == problem_level(*state),
            rows@.map_values(|r: StatusRow| r@) == global_rows(gs.take(i as int), level),
    {
        proof {
            assert(gs.take(i + 1).drop_last() =~= gs.take(i as int));
            assert(gs.take(i + 1).last() == gs[i as int]);
        }
        let ghost before = rows@;
        match &state.global_requirements[i] {
            GlobalRequirement::MeteredConnection => {
                rows.push(make_row(
                    Text::translatable("Network connection must not be metered"),
                    empty_text(),
                    "network-vpn-symbolic",
                    level,
                ));
            },
            GlobalRequirement::OtherBackupRunning(_) => {
                rows.push(make_row(
                    Text::translatable("Other backups on repository have to be completed"),
                    empty_text(),
                    "media-playback-start-symbolic",
                    level,
                ));
            },
            GlobalRequirement::ThisBackupRunning => {},
        }
        proof {
            assert(rows@.map_values(|r: StatusRow| r@) =~= global_rows(gs.take(i + 1), level));
        }
    }
    proof {
        assert(gs.take(n as int) =~= gs);
    }
    let ghost after_global = rows@.map_values(|r: StatusRow| r@);
    let m = state.hints.len();
    for j in 0..m
        invariant
            m == hs.len(),
            hs == state.hints@,
            after_global == global_rows(gs, level),
            rows@.map_values(|r: StatusRow| r@) == after_global + hint_rows(hs.take(j as int), level),
    {
        let row = match state.hints[j] {
            Hint::DeviceMissing => make_row(
                Text::translatable("Backup device has to be connected"),
                empty_text(),
                "drive-removable-media-symbolic",
                level,
            ),
            Hint::NetworkMissing => make_row(
                Text::translatable("Network connection has to be available"),
                empty_text(),
                "network-offline-symbolic",
                level,
            ),
        };
        proof {
            assert(row@ == hint_row(hs[j as int], level));
        }
        let ghost before = rows@;
        rows.push(row);
        proof {
            assert(rows@ =~= before.push(row));
            assert(rows@.map_values(|r: StatusRow| r@) =~= before.map_values(|r: StatusRow| r@).push(row@));
            assert(hint_rows(hs.take(j + 1), level) =~= hint_rows(hs.take(j as int), level).push(hint_row(hs[j as int], level)));
            assert(rows@.map_values(|r: StatusRow| r@) =~= after_global + hint_rows(hs.take(j + 1), level));
        }
    }
    proof {
        assert(hs.take(m as int) =~= hs);
    }
    if !state.daemon_running {
        rows.push(make_row(
            Text::translatable("Background process inactive"),
            Text::translatable("This is required for scheduled backups"),
            "action-unavailable-symbolic",
            StatusLevel::Error,
        ));
    }
    proof {
        assert(rows@.map_values(|r: StatusRow| r@) =~= enabled_problems(*state));
    }
    rows
}

impl Status {
    /// The status of a schedule: whether it is switched on, when the next
    /// backup is due, and what keeps a due backup from starting.
    pub fn new(state: &ScheduleState) -> (s: Status)
        ensures
            s@ == status_view(*state),
            s@.keys_valid(),
    {
        proof {
            lemma_status_keys_valid(*state);
        }
        if !state.enabled {
            let s = Status {
                main: make_row(
                    Text::translatable("Scheduled backups disabled"),
                    empty_text(),
                    "x-office-calendar-symbolic",
                    StatusLevel::Warning,
                ),
                problems: Vec::new(),
            };
            proof {
                assert(s@.problems =~= Seq::<StatusRowView>::empty());
                assert(s@ == status_view(*state));
            }
            s
        } else {
            let main = enabled_main_row_of(state);
            let problems = enabled_problems_of(state);
            let s = Status { main, problems };
            proof {
                assert(s@ =~= status_view(*state));
            }
            s
        }
    }
}

/// The catalog keys of the next-backup texts hold no NUL character.
proof fn lemma_next_backup_keys_valid(d: Span)
    ensures
        next_backup_in_view(d).keys_valid(),
{
    reveal_strlit("Next backup in one minute");
    reveal_strlit("Next backup in {} minutes");
    reveal_strlit("Next backup in one hour");
    reveal_strlit("Next backup in {} hours");
    reveal_strlit("Next backup in one day");
    reveal_strlit("Next backup in {} days");
    reveal_strlit("Next backup in one week");
    reveal_strlit("Next backup in {} weeks");
}

/// The catalog keys of every status text hold no NUL character.
proof fn lemma_status_keys_valid(s: ScheduleState)
    ensures
        status_view(s).keys_valid(),
{
    reveal_strlit("Scheduled backups disabled");
    reveal_strlit("Hourly backups enabled");
    reveal_strlit("Daily backups enabled");
    reveal_strlit("Weekly backups enabled");
    reveal_strlit("Monthly backups enabled");
    reveal_strlit("Will not start until requirements are met.");
    reveal_strlit("Inconsistent backup information");
    reveal_strlit("Backup past due");
    reveal_strlit("Waiting until requirements are met");
    reveal_strlit("Scheduled backups unavailable");
    reveal_strlit("Waiting for backup to start");
    reveal_strlit("Network connection must not be metered");
    reveal_strlit("Other backups on repository have to be completed");
    reveal_strlit("Backup device has to be connected");
    reveal_strlit("Network connection has to be available");
    reveal_strlit("Background process inactive");
    reveal_strlit("This is required for scheduled backups");
    match s.due {
        DueStatus::NotDue { next_due: Some(d) } => lemma_next_backup_keys_valid(d),
        _ => {},
    }
    let level = problem_level(s);
    lemma_global_rows_keys_valid(s.global_requirements@, level);
    let all = enabled_problems(s);
    let g = global_rows(s.global_requirements@, level);
    let h = hint_rows(s.hints@, level);
    assert forall|i: int| 0 <= i < all.len() implies #[trigger] all[i].keys_valid() by {
        if i < g.len() {
            assert(all[i] == g[i]);
        } else if i < g.len() + h.len() {
            assert(all[i] == h[i - g.len()]);
            assert(h[i - g.len()] == hint_row(s.hints@[i - g.len()], level));
        } else {
            assert(all[i] == daemon_inactive_row());
        }
    }
    reveal_with_fuel(TextView::keys_valid, 3);
    assert(enabled_main_row(s).keys_valid());
}

/// The catalog keys of the rows of global requirements hold no NUL character.
proof fn lemma_global_rows_keys_valid(gs: Seq<GlobalRequirement>, level: StatusLevel)
    ensures
        forall|i: int| 0 <= i < global_rows(gs, level).len() ==> #[trigger] global_rows(gs, level)[i].keys_valid(),
    decreases gs.len(),
{
    reveal_strlit("Network connection must not be metered");
    reveal_strlit("Other backups on repository have to be completed");
    if gs.len() > 0 {
        lemma_global_rows_keys_valid(gs.drop_last(), level);
        let front = global_rows(gs.drop_last(), level);
        let back = global_rows_of(gs.last(), level);
        assert forall|i: int| 0 <= i < global_rows(gs, level).len() implies #[trigger] global_rows(gs, level)[i].keys_valid() by {
            if i < front.len() {
                assert(global_rows(gs, level)[i] == front[i]);
            } else {
                assert(global_rows(gs, level)[i] == back[i - front.len()]);
            }
        }
    }
}

/// A due backup that some global requirement or hint holds back is shown as
/// past due, as a warning, waiting for the requirements; whatever holds it
/// back is listed below as errors.
pub proof fn law_due_and_held_back_is_past_due(s: ScheduleState)
    requires
        s.enabled,
        s.due is Due,
        s.global_requirements@.len() > 0 || s.hints@.len() > 0,
    ensures
        status_view(s).main.title == TextView::Translatable("Backup past due"@),
        status_view(s).main.subtitle == TextView::Translatable("Waiting until requirements are met"@),
        status_view(s).main.level == StatusLevel::Warning,
        forall|i: int| 0 <= i < status_view(s).problems.len() ==> #[trigger] status_view(s).problems[i].level == StatusLevel::Error
            || status_view(s).problems[i].title == TextView::Translatable("Background process inactive"@),
{
    lemma_problem_levels(s);
}

/// A due backup that nothing holds back waits for the background process to
/// start it, or says that scheduled backups are unavailable when that
/// process does not run; either way as an error.
pub proof fn law_due_and_free_waits(s: ScheduleState)
    requires
        s.enabled,
        s.due is Due,
        s.global_requirements@.len() == 0,
        s.hints@.len() == 0,
    ensures
        status_view(s).main.level == StatusLevel::Error,
        s.daemon_running ==> status_view(s).main.title == TextView::Translatable("Waiting for backup to start"@),
        !s.daemon_running ==> status_view(s).main.title == TextView::Translatable("Scheduled backups unavailable"@),
{
}

/// A backup not yet due with a known start shows when it starts; when some
/// global requirement or hint holds it back, the note that it will not
/// start until they are met follows, and only then.
pub proof fn law_not_due_notes_requirements(s: ScheduleState, d: Span)
    requires
        s.enabled,
        s.due == (DueStatus::NotDue { next_due: Some(d) }),
    ensures
        status_view(s).main.level == StatusLevel::Good,
        (s.global_requirements@.len() > 0 || s.hints@.len() > 0) ==> status_view(s).main.subtitle == TextView::Concat(
            Box::new(next_backup_in_view(d)),
            Box::new(TextView::Concat(
                Box::new(TextView::Verbatim(" – "@)),
                Box::new(TextView::Translatable("Will not start until requirements are met."@)),
            )),
        ),
        (s.global_requirements@.len() == 0 && s.hints@.len() == 0) ==> status_view(s).main.subtitle == next_backup_in_view(d),
{
}

/// The problem rows of an enabled schedule carry the level of a due backup
/// (error) or of one not yet due (warning), but for the row of the inactive
/// background process, which is always an error.
proof fn lemma_problem_levels(s: ScheduleState)
    requires
        s.enabled,
    ensures
        forall|i: int| 0 <= i < status_view(s).problems.len() ==> #[trigger] status_view(s).problems[i].level == problem_level(s)
            || status_view(s).problems[i].title == TextView::Translatable("Background process inactive"@),
{
    let lv = problem_level(s);
    let g = global_rows(s.global_requirements@, lv);
    let h = hint_rows(s.hints@, lv);
    lemma_global_rows_level(s.global_requirements@, lv);
    let p = status_view(s).problems;
    assert forall|i: int| 0 <= i < p.len() implies #[trigger] p[i].level == lv
        || p[i].title == TextView::Translatable("Background process inactive"@) by {
        if i < g.len() {
            assert(p[i] == g[i]);
        } else if i < g.len() + h.len() {
            assert(p[i] == h[i - g.len()]);
            assert(h[i - g.len()] == hint_row(s.hints@[i - g.len()], lv));
        } else {
            assert(p[i] == daemon_inactive_row());
        }
    }
}

/// Every row of the global requirements carries the level given.
proof fn lemma_global_rows_level(gs: Seq<GlobalRequirement>, lv: StatusLevel)
    ensures
        forall|i: int| 0 <= i < global_rows(gs, lv).len() ==> #[trigger] global_rows(gs, lv)[i].level == lv,
    decreases gs.len(),
{
    if gs.len() > 0 {
        lemma_global_rows_level(gs.drop_last(), lv);
        let a = global_rows(gs.drop_last(), lv);
        let b = global_rows_of(gs.last(), lv);
        assert forall|i: int| 0 <= i < global_rows(gs, lv).len() implies #[trigger] global_rows(gs, lv)[i].level == lv by {
            if i < a.len() {
                assert(global_rows(gs, lv)[i] == a[i]);
            } else {
                assert(global_rows(gs, lv)[i] == b[i - a.len()]);
            }
        }
    }
}

/// A schedule that is switched off shows only that, as a warning, with no
/// problems below.
pub proof fn law_disabled_schedule(s: ScheduleState)
    requires
        !s.enabled,
    ensures
        status_view(s).main.title == TextView::Translatable("Scheduled backups disabled"@),
        status_view(s).main.level == StatusLevel::Warning,
        status_view(s).problems.len() == 0,
{
}

/// For a switched-on schedule, a missing background process is listed as
/// the last problem, an error; with no requirements, hints or missing
/// process, no problem is listed.
pub proof fn law_inactive_daemon_is_last_problem(s: ScheduleState)
    requires
        s.enabled,
    ensures
        !s.daemon_running ==> status_view(s).problems.len() > 0
            && status_view(s).problems.last().title == TextView::Translatable("Background process inactive"@)
            && status_view(s).problems.last().level == StatusLevel::Error,
        s.daemon_running && s.global_requirements@.len() == 0 && s.hints@.len() == 0
            ==> status_view(s).problems.len() == 0,
{
    if s.global_requirements@.len() == 0 {
        assert(global_rows(s.global_requirements@, problem_level(s)) =~= Seq::<StatusRowView>::empty());
    }
}

} // verus!
